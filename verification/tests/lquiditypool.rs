use my_token::accounts::{ErrorCode, KingWhaleWallet, Mint, Pubkey, TokenAccount};
use my_token::kingwhale;
use my_token::lquiditypool::{can_transfer, initialize, transfer, Initialize, Transfer};

fn key(n: u8) -> Pubkey {
    Pubkey([n; 32])
}

fn account(owner: u8, amount: u64) -> TokenAccount {
    TokenAccount { mint: key(9), owner: key(owner), amount }
}

fn setup(whale: u8, highest: u64) -> Transfer {
    Transfer {
        from: account(1, 10_000),
        from_key: key(2),
        to: account(3, 0),
        authority: key(1),
        marketing_wallet: account(4, 0),
        king_whale_wallet: KingWhaleWallet {
            whale_wallet: key(whale),
            highest_buy_amount: highest,
            amount: 0,
        },
        liquidity_pool: account(5, 100),
        token_program: key(8),
    }
}

#[test]
fn lquiditypool_initialize_funds_pool() {
    let mut acc = Initialize {
        mint: Mint { mint_authority: None, supply: 0, decimals: 0 },
        authority: key(5),
        system_program: key(0),
        liquidity_pool: account(5, 77),
    };
    assert_eq!(initialize(&mut acc, 1_000_004, 9), Ok(()));
    assert_eq!(acc.mint, Mint { mint_authority: Some(key(5)), supply: 1_000_004, decimals: 9 });
    assert_eq!(acc.liquidity_pool.amount, 200_000);
    assert_eq!(acc.liquidity_pool.owner, key(5));
}

#[test]
fn lquiditypool_transfer_pays_pool_and_marketing() {
    let mut acc = setup(7, 5000);
    assert_eq!(transfer(&mut acc, 1000), Ok(()));
    assert_eq!(acc.from.amount, 10_000 - 1000 - 40 - 200);
    assert_eq!(acc.to.amount, 950);
    assert_eq!(acc.marketing_wallet.amount, 40);
    assert_eq!(acc.liquidity_pool.amount, 300);
    assert_eq!(acc.king_whale_wallet.amount, 0);
}

#[test]
fn lquiditypool_transfer_pays_whale_a_fifth_of_tax() {
    let mut acc = setup(7, 10);
    assert_eq!(transfer(&mut acc, 1000), Ok(()));
    assert_eq!(acc.king_whale_wallet.whale_wallet, key(2));
    assert_eq!(acc.king_whale_wallet.amount, 10);
    assert_eq!(acc.from.amount, 10_000 - 1000 - 10 - 200);
}

#[test]
fn lquiditypool_tax_leaves_circulation() {
    for (whale, highest, amount) in [(7u8, 5000u64, 1000u64), (7, 5, 1000), (2, 9000, 99)] {
        let mut acc = setup(whale, highest);
        let before = acc.from.amount + acc.to.amount + acc.marketing_wallet.amount
            + acc.king_whale_wallet.amount + acc.liquidity_pool.amount;
        assert_eq!(transfer(&mut acc, amount), Ok(()));
        let after = acc.from.amount + acc.to.amount + acc.marketing_wallet.amount
            + acc.king_whale_wallet.amount + acc.liquidity_pool.amount;
        assert_eq!(after, before - amount / 20);
    }
}

#[test]
fn lquiditypool_extends_kingwhale_transfer() {
    for (whale, highest, amount) in [(7u8, 5000u64, 1000u64), (7, 5, 1999), (2, 9000, 99)] {
        let mut l = setup(whale, highest);
        let mut k = kingwhale::Transfer {
            from: l.from,
            from_key: l.from_key,
            to: l.to,
            authority: l.authority,
            marketing_wallet: l.marketing_wallet,
            king_whale_wallet: l.king_whale_wallet,
            token_program: l.token_program,
        };
        assert_eq!(transfer(&mut l, amount), Ok(()));
        assert_eq!(kingwhale::transfer(&mut k, amount), Ok(()));
        assert_eq!(l.from.amount, k.from.amount - amount / 5);
        assert_eq!(l.to, k.to);
        assert_eq!(l.marketing_wallet, k.marketing_wallet);
        assert_eq!(l.king_whale_wallet, k.king_whale_wallet);
    }
}

#[test]
fn lquiditypool_unauthorized_changes_nothing() {
    let mut acc = setup(7, 0);
    acc.from.owner = key(6);
    let before = acc;
    assert_eq!(transfer(&mut acc, 1000), Err(ErrorCode::Unauthorized));
    assert_eq!(acc, before);
}

#[test]
fn lquiditypool_can_transfer_counts_pool_cut() {
    let acc = setup(7, 20_000);
    // 8000 + 320 marketing + 1600 pool = 9920
    assert!(can_transfer(&acc, 8000));
    // 8100 + 324 + 1620 = 10044
    assert!(!can_transfer(&acc, 8100));
    let mut full = setup(7, 20_000);
    full.liquidity_pool.amount = u64::MAX;
    assert!(!can_transfer(&full, 5));
    assert!(can_transfer(&full, 4));
}
