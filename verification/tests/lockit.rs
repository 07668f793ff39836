use my_token::accounts::{Clock, ErrorCode, KingWhaleWallet, LockAccount, Mint, Pubkey, TokenAccount};
use my_token::lockit::{
    burn_liquidity, can_transfer, can_unlock, initialize, transfer, unlock, BurnLiquidity,
    Initialize, Transfer, Unlock,
};

fn key(n: u8) -> Pubkey {
    Pubkey([n; 32])
}

fn account(owner: u8, amount: u64) -> TokenAccount {
    TokenAccount { mint: key(9), owner: key(owner), amount }
}

fn setup(whale: u8, highest: u64) -> Transfer {
    Transfer {
        from: account(1, 10_000),
        from_key: key(2),
        to: account(3, 0),
        authority: key(1),
        marketing_wallet: account(4, 0),
        king_whale_wallet: KingWhaleWallet {
            whale_wallet: key(whale),
            highest_buy_amount: highest,
            amount: 0,
        },
        liquidity_pool: account(5, 0),
        lock_account: LockAccount { amount: 77, release_time: -4 },
        clock: Clock { slot: 100, tick_height: 64 },
        token_program: key(8),
    }
}

#[test]
fn lockit_initialize_returns_pool_amount() {
    let mut acc = Initialize {
        mint: Mint { mint_authority: None, supply: 0, decimals: 0 },
        authority: key(5),
        system_program: key(0),
        liquidity_pool: account(5, 1),
        token_program: key(8),
    };
    assert_eq!(initialize(&mut acc, 999, 3), Ok(199));
    assert_eq!(acc.mint, Mint { mint_authority: Some(key(5)), supply: 999, decimals: 3 });
    assert_eq!(acc.liquidity_pool.amount, 199);
}

#[test]
fn lockit_transfer_locks_ninety_percent() {
    let mut acc = setup(7, 5000);
    assert_eq!(transfer(&mut acc, 1000), Ok(()));
    assert_eq!(acc.from.amount, 10_000 - 1000 - 40 - 200 - 855);
    assert_eq!(acc.to.amount, 950 + 855);
    assert_eq!(acc.marketing_wallet.amount, 40);
    assert_eq!(acc.liquidity_pool.amount, 200);
    assert_eq!(acc.lock_account, LockAccount { amount: 855, release_time: 100 + 1350 });
}

#[test]
fn lockit_tax_leaves_circulation() {
    for (whale, highest, amount) in [(7u8, 5000u64, 1000u64), (7, 5, 1000), (2, 9000, 37)] {
        let mut acc = setup(whale, highest);
        let before = acc.from.amount + acc.to.amount + acc.marketing_wallet.amount
            + acc.king_whale_wallet.amount + acc.liquidity_pool.amount;
        assert_eq!(transfer(&mut acc, amount), Ok(()));
        let after = acc.from.amount + acc.to.amount + acc.marketing_wallet.amount
            + acc.king_whale_wallet.amount + acc.liquidity_pool.amount;
        assert_eq!(after, before - amount / 20);
    }
}

#[test]
fn lockit_unauthorized_changes_nothing() {
    let mut acc = setup(7, 0);
    acc.authority = key(6);
    let before = acc;
    assert_eq!(transfer(&mut acc, 1000), Err(ErrorCode::Unauthorized));
    assert_eq!(acc, before);
    acc.clock.tick_height = 0;
    assert!(can_transfer(&acc, 1000));
}

#[test]
fn lockit_can_transfer_checks_clock() {
    let mut acc = setup(7, 5000);
    assert!(can_transfer(&acc, 1000));
    acc.clock.tick_height = 0;
    assert!(!can_transfer(&acc, 1000));
    acc.clock.tick_height = 1;
    acc.clock.slot = i64::MAX as u64 - 86_400;
    assert!(can_transfer(&acc, 1000));
    acc.clock.slot += 1;
    assert!(!can_transfer(&acc, 1000));
    let acc = setup(7, 5000);
    // 5800 + 232 + 1160 + 4684 = 11876 exceeds the balance
    assert!(!can_transfer(&acc, 5800));
}

#[test]
fn lockit_unlock_waits_for_release() {
    let mut acc = Unlock {
        lock_account: LockAccount { amount: 855, release_time: 1450 },
        to: account(3, 1805),
        clock: Clock { slot: 1449, tick_height: 64 },
    };
    let before = acc;
    assert_eq!(unlock(&mut acc), Ok(()));
    assert_eq!(acc, before);
    acc.clock.slot = 1450;
    assert_eq!(unlock(&mut acc), Ok(()));
    assert_eq!(acc.to.amount, 1805 + 855);
    assert_eq!(acc.lock_account, LockAccount { amount: 0, release_time: 0 });
}

#[test]
fn lockit_unlock_twice_is_unlock_once() {
    let mut acc = Unlock {
        lock_account: LockAccount { amount: 40, release_time: -1 },
        to: account(3, 2),
        clock: Clock { slot: 0, tick_height: 1 },
    };
    assert_eq!(unlock(&mut acc), Ok(()));
    let once = acc;
    assert_eq!(unlock(&mut acc), Ok(()));
    assert_eq!(acc, once);
    assert_eq!(acc.to.amount, 42);
}

#[test]
fn lockit_locked_tokens_reach_recipient() {
    let mut t = setup(7, 5000);
    assert_eq!(transfer(&mut t, 1000), Ok(()));
    let mut u = Unlock {
        lock_account: t.lock_account,
        to: t.to,
        clock: Clock { slot: t.lock_account.release_time as u64, tick_height: 64 },
    };
    assert_eq!(unlock(&mut u), Ok(()));
    assert_eq!(u.to.amount, 1805 + 855);
    assert_eq!(u.lock_account.amount, 0);
}

#[test]
fn lockit_can_unlock_checks_overflow() {
    let mut acc = Unlock {
        lock_account: LockAccount { amount: 2, release_time: 5 },
        to: account(3, u64::MAX - 1),
        clock: Clock { slot: 4, tick_height: 1 },
    };
    assert!(can_unlock(&acc));
    acc.clock.slot = 5;
    assert!(!can_unlock(&acc));
    acc.lock_account.amount = 1;
    assert!(can_unlock(&acc));
}

#[test]
fn lockit_burns_one_percent() {
    let mut acc = BurnLiquidity { liquidity_pool: account(5, 1_000_000) };
    assert_eq!(burn_liquidity(&mut acc), Ok(()));
    assert_eq!(acc.liquidity_pool.amount, 990_000);
}
