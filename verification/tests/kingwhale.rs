use my_token::accounts::{ErrorCode, KingWhaleWallet, Mint, Pubkey, TokenAccount};
use my_token::kingwhale::{can_transfer, initialize, transfer, Initialize, Transfer};

fn key(n: u8) -> Pubkey {
    Pubkey([n; 32])
}

fn account(owner: u8, amount: u64) -> TokenAccount {
    TokenAccount { mint: key(9), owner: key(owner), amount }
}

fn setup(whale: u8, highest: u64) -> Transfer {
    Transfer {
        from: account(1, 10_000),
        from_key: key(2),
        to: account(3, 0),
        authority: key(1),
        marketing_wallet: account(4, 0),
        king_whale_wallet: KingWhaleWallet {
            whale_wallet: key(whale),
            highest_buy_amount: highest,
            amount: 0,
        },
        token_program: key(8),
    }
}

fn total(t: &Transfer) -> u64 {
    t.from.amount + t.to.amount + t.marketing_wallet.amount + t.king_whale_wallet.amount
}

#[test]
fn kingwhale_initialize_sets_mint() {
    let mut acc = Initialize {
        mint: Mint { mint_authority: None, supply: 0, decimals: 0 },
        authority: key(5),
        system_program: key(0),
    };
    assert_eq!(initialize(&mut acc, 1_000_000, 6), Ok(()));
    assert_eq!(acc.mint, Mint { mint_authority: Some(key(5)), supply: 1_000_000, decimals: 6 });
}

#[test]
fn kingwhale_transfer_pays_marketing() {
    let mut acc = setup(7, 5000);
    assert_eq!(transfer(&mut acc, 1000), Ok(()));
    assert_eq!(acc.from.amount, 10_000 - 1000 - 40);
    assert_eq!(acc.to.amount, 950);
    assert_eq!(acc.marketing_wallet.amount, 40);
    assert_eq!(acc.king_whale_wallet.amount, 0);
    assert_eq!(acc.king_whale_wallet.whale_wallet, key(7));
    assert_eq!(acc.king_whale_wallet.highest_buy_amount, 5000);
}

#[test]
fn kingwhale_new_record_crowns_sender() {
    let mut acc = setup(7, 500);
    assert_eq!(transfer(&mut acc, 1000), Ok(()));
    assert_eq!(acc.king_whale_wallet.whale_wallet, key(2));
    assert_eq!(acc.king_whale_wallet.highest_buy_amount, 1000);
    assert_eq!(acc.king_whale_wallet.amount, 10);
    assert_eq!(acc.from.amount, 10_000 - 1000 - 10);
    assert_eq!(acc.marketing_wallet.amount, 0);
}

#[test]
fn kingwhale_reigning_whale_pays_itself() {
    let mut acc = setup(2, 5000);
    assert_eq!(transfer(&mut acc, 300), Ok(()));
    assert_eq!(acc.king_whale_wallet.amount, 3);
    assert_eq!(acc.king_whale_wallet.highest_buy_amount, 5000);
    assert_eq!(acc.from.amount, 10_000 - 303);
    assert_eq!(acc.to.amount, 285);
}

#[test]
fn kingwhale_tax_leaves_circulation() {
    for (whale, highest, amount) in [(7u8, 5000u64, 1000u64), (7, 500, 1000), (2, 0, 999), (7, 9000, 19)] {
        let mut acc = setup(whale, highest);
        let before = total(&acc);
        assert_eq!(transfer(&mut acc, amount), Ok(()));
        assert_eq!(total(&acc), before - amount / 20);
    }
}

#[test]
fn kingwhale_unauthorized_changes_nothing() {
    let mut acc = setup(7, 0);
    acc.authority = key(6);
    let before = acc;
    assert_eq!(transfer(&mut acc, 1000), Err(ErrorCode::Unauthorized));
    assert_eq!(acc, before);
    assert!(can_transfer(&acc, u64::MAX));
}

#[test]
fn kingwhale_can_transfer_checks_balance() {
    let acc = setup(7, 20_000);
    assert!(can_transfer(&acc, 1000));
    // 9616 + 384 marketing cut is exactly the balance
    assert!(can_transfer(&acc, 9616));
    assert!(!can_transfer(&acc, 9700));
    // as a new record the same amount pays only the 1% whale cut
    assert!(can_transfer(&setup(7, 5000), 9700));
    let mut full = setup(7, 5000);
    full.to.amount = u64::MAX - 10;
    assert!(!can_transfer(&full, 1000));
}

#[test]
fn pubkey_same_key_compares_all_bytes() {
    let mut other = [1u8; 32];
    assert!(key(1).same_key(&Pubkey(other)));
    other[31] = 2;
    assert!(!key(1).same_key(&Pubkey(other)));
}
