use my_token::accounts::{Clock, KingWhaleWallet, Mint, Pubkey, TokenAccount};
use my_token::burnit::{burn_liquidity, initialize, transfer, BurnLiquidity, Initialize, Transfer};

fn key(n: u8) -> Pubkey {
    Pubkey([n; 32])
}

fn pool(amount: u64) -> BurnLiquidity {
    BurnLiquidity {
        liquidity_pool: TokenAccount { mint: key(9), owner: key(5), amount },
        clock: Clock { slot: 3, tick_height: 64 },
    }
}

#[test]
fn burnit_initialize_funds_pool() {
    let mut acc = Initialize {
        mint: Mint { mint_authority: None, supply: 7, decimals: 1 },
        authority: key(4),
        system_program: key(0),
        liquidity_pool: TokenAccount { mint: key(9), owner: key(5), amount: 3 },
    };
    assert_eq!(initialize(&mut acc, 24, 2), Ok(()));
    assert_eq!(acc.mint, Mint { mint_authority: Some(key(4)), supply: 24, decimals: 2 });
    assert_eq!(acc.liquidity_pool.amount, 4);
}

#[test]
fn burnit_transfer_moves_nothing() {
    let account = TokenAccount { mint: key(9), owner: key(1), amount: 50 };
    let mut acc = Transfer {
        from: account,
        to: account,
        authority: key(1),
        marketing_wallet: account,
        king_whale_wallet: KingWhaleWallet {
            whale_wallet: key(2),
            highest_buy_amount: 0,
            amount: 0,
        },
        liquidity_pool: account,
        token_program: key(8),
    };
    let before = acc;
    assert_eq!(transfer(&mut acc, 40), Ok(()));
    assert_eq!(acc, before);
}

#[test]
fn burnit_burns_one_percent() {
    let mut acc = pool(12_345);
    assert_eq!(burn_liquidity(&mut acc), Ok(()));
    assert_eq!(acc.liquidity_pool.amount, 12_222);
    assert_eq!(acc.clock, Clock { slot: 3, tick_height: 64 });
}

#[test]
fn burnit_small_pool_unchanged() {
    let mut acc = pool(99);
    assert_eq!(burn_liquidity(&mut acc), Ok(()));
    assert_eq!(acc.liquidity_pool.amount, 99);
    let mut acc = pool(100);
    assert_eq!(burn_liquidity(&mut acc), Ok(()));
    assert_eq!(acc.liquidity_pool.amount, 99);
}

#[test]
fn burnit_pool_never_empties() {
    let mut acc = pool(u64::MAX);
    for _ in 0..500 {
        let before = acc.liquidity_pool.amount;
        assert_eq!(burn_liquidity(&mut acc), Ok(()));
        assert!(acc.liquidity_pool.amount <= before);
        assert!(acc.liquidity_pool.amount > 0);
    }
}
