//! The taxed king whale token with a liquidity pool that also locks most of each
//! transfer until a later slot, and burns 1% of the pool on request.
use vstd::prelude::*;

pub use crate::accounts::{Clock, ErrorCode, KingWhaleWallet, LockAccount, Mint, Pubkey, TokenAccount};
use crate::fees::{crowned, marketing_share, pool_cut, received, sender_is_whale, whale_share};

verus! {

/// The accounts that `initialize` reads and writes.
#[derive(Clone, Copy, Debug, PartialEq, Eq)]
pub struct Initialize {
    pub mint: Mint,
    pub authority: Pubkey,
    pub system_program: Pubkey,
    pub liquidity_pool: TokenAccount,
    pub token_program: Pubkey,
}

/// The accounts that `transfer` reads and writes. `from_key` is the address of
/// the `from` account.
#[derive(Clone, Copy, Debug, PartialEq, Eq)]
pub struct Transfer {
    pub from: TokenAccount,
    pub from_key: Pubkey,
    pub to: TokenAccount,
    pub authority: Pubkey,
    pub marketing_wallet: TokenAccount,
    pub king_whale_wallet: KingWhaleWallet,
    pub liquidity_pool: TokenAccount,
    pub lock_account: LockAccount,
    pub clock: Clock,
    pub token_program: Pubkey,
}

/// The accounts that `unlock` reads and writes.
#[derive(Clone, Copy, Debug, PartialEq, Eq)]
pub struct Unlock {
    pub lock_account: LockAccount,
    pub to: TokenAccount,
    pub clock: Clock,
}

/// The accounts that `burn_liquidity` reads and writes.
#[derive(Clone, Copy, Debug, PartialEq, Eq)]
pub struct BurnLiquidity {
    pub liquidity_pool: TokenAccount,
}

/// The accounts after `initialize`: the mint takes the authority, the supply
/// and the decimals, and the liquidity pool holds 20% of the supply.
pub open spec fn initialized(pre: Initialize, supply: u64, decimals: u8) -> Initialize {
    Initialize {
        mint: Mint { mint_authority: Some(pre.authority), supply: supply, decimals: decimals },
        liquidity_pool: TokenAccount { amount: (supply / 5) as u64, ..pre.liquidity_pool },
        ..pre
    }
}

/// Sets up the mint with the given supply and decimals, the authority as its
/// minting authority, and sets the liquidity pool's balance to 20% of the
/// supply. Returns that amount, which the token program is then asked to mint
/// into the liquidity pool.
pub fn initialize(accounts: &mut Initialize, supply: u64, decimals: u8) -> (r: Result<u64, ErrorCode>)
    ensures
        r == Ok::<u64, ErrorCode>((supply / 5) as u64),
        r == Ok::<u64, ErrorCode>(final(accounts).liquidity_pool.amount),
        *final(accounts) == initialized(*old(accounts), supply, decimals),
{
    accounts.mint.mint_authority = Some(accounts.authority);
    accounts.mint.supply = supply;
    accounts.mint.decimals = decimals;

    let liquidity_pool_amount = supply / 5;
    accounts.liquidity_pool.amount = liquidity_pool_amount;
    Ok(liquidity_pool_amount)
}

/// A transfer is allowed when the signing authority owns the sending account.
pub open spec fn authorized(acc: Transfer) -> bool {
    acc.authority == acc.from.owner
}

/// Whether the sender is the king whale once its transfer has been recorded.
pub open spec fn pays_whale(acc: Transfer, amount: u64) -> bool {
    sender_is_whale(acc.king_whale_wallet, acc.from_key, amount)
}

/// The tax share the sender pays on top of the amount: the king whale's
/// share when it is the king whale, the marketing share otherwise.
pub open spec fn sender_fee(acc: Transfer, amount: u64) -> int {
    if pays_whale(acc, amount) {
        whale_share(amount)
    } else {
        marketing_share(amount)
    }
}

/// The part of the received amount that is locked: 90% of it, rounded down.
pub open spec fn lock_amount(amount: u64) -> int {
    received(amount) * 9 / 10
}

/// The slot at which locked tokens are released: a day's worth of seconds,
/// divided by the tick height, after the current slot.
pub open spec fn release_slot(clock: Clock) -> int {
    clock.slot + 86400int / (clock.tick_height as int)
}

/// The arithmetic of a transfer stays within its types: the sender holds the
/// amount, its fee, the pool's cut and the lock, no credited balance
/// overflows, the tick height is not zero and the release slot fits an `i64`.
pub open spec fn transfer_in_range(acc: Transfer, amount: u64) -> bool {
    &&& acc.from.amount >= amount + sender_fee(acc, amount) + pool_cut(amount) + lock_amount(
        amount,
    )
    &&& acc.to.amount + received(amount) + lock_amount(amount) <= u64::MAX
    &&& pays_whale(acc, amount) ==> acc.king_whale_wallet.amount + whale_share(amount) <= u64::MAX
    &&& !pays_whale(acc, amount) ==> acc.marketing_wallet.amount + marketing_share(amount)
        <= u64::MAX
    &&& acc.liquidity_pool.amount + pool_cut(amount) <= u64::MAX
    &&& received(amount) * 9 <= u64::MAX
    &&& acc.clock.tick_height > 0
    &&& release_slot(acc.clock) <= i64::MAX
}

/// The accounts after an authorized transfer of `amount`.
pub open spec fn transferred(acc: Transfer, amount: u64) -> Transfer {
    let w = crowned(acc.king_whale_wallet, acc.from_key, amount);
    let whale = pays_whale(acc, amount);
    Transfer {
        from: TokenAccount {
            amount: (acc.from.amount - amount - sender_fee(acc, amount) - pool_cut(amount)
                - lock_amount(amount)) as u64,
            ..acc.from
        },
        to: TokenAccount {
            amount: (acc.to.amount + received(amount) + lock_amount(amount)) as u64,
            ..acc.to
        },
        marketing_wallet: if whale {
            acc.marketing_wallet
        } else {
            TokenAccount {
                amount: (acc.marketing_wallet.amount + marketing_share(amount)) as u64,
                ..acc.marketing_wallet
            }
        },
        king_whale_wallet: if whale {
            KingWhaleWallet { amount: (w.amount + whale_share(amount)) as u64, ..w }
        } else {
            w
        },
        liquidity_pool: TokenAccount {
            amount: (acc.liquidity_pool.amount + pool_cut(amount)) as u64,
            ..acc.liquidity_pool
        },
        lock_account: LockAccount {
            amount: lock_amount(amount) as u64,
            release_time: release_slot(acc.clock) as i64,
        },
        ..acc
    }
}

/// Takes `amount` from `from` and credits `to` with it less the 5% tax, which
/// leaves circulation. On top, the sender pays a fifth of that tax to the king
/// whale account if it is the king whale after this transfer, else the other
/// four fifths to the marketing wallet, and 20% of the amount into the
/// liquidity pool. A transfer larger than the
/// record makes the sender the king whale. Then 90% of the received amount is
/// moved once more from `from` to `to` and recorded in the lock account, to be
/// released at the current slot plus 86400 divided by the tick height.
/// Fails with `Unauthorized`, changing nothing, when the authority does not own `from`.
pub fn transfer(accounts: &mut Transfer, amount: u64) -> (r: Result<(), ErrorCode>)
    requires
        authorized(*old(accounts)) ==> transfer_in_range(*old(accounts), amount),
    ensures
        r == (if authorized(*old(accounts)) {
            Ok::<(), ErrorCode>(())
        } else {
            Err(ErrorCode::Unauthorized)
        }),
        *final(accounts) == (if authorized(*old(accounts)) {
            transferred(*old(accounts), amount)
        } else {
            *old(accounts)
        }),
{
    if !accounts.authority.same_key(&accounts.from.owner) {
        return Err(ErrorCode::Unauthorized);
    }
    let tax = amount / 20;
    let king_whale_tax = tax / 5;
    let marketing_tax = tax - king_whale_tax;
    let liquidity_pool_tax = amount / 5;
    let transferred_amount = amount - tax;

    accounts.from.amount = accounts.from.amount - amount;
    accounts.to.amount = accounts.to.amount + transferred_amount;

    if amount > accounts.king_whale_wallet.highest_buy_amount {
        accounts.king_whale_wallet.highest_buy_amount = amount;
        accounts.king_whale_wallet.whale_wallet = accounts.from_key;
    }
    if accounts.from_key.same_key(&accounts.king_whale_wallet.whale_wallet) {
        accounts.from.amount = accounts.from.amount - king_whale_tax;
        accounts.king_whale_wallet.amount = accounts.king_whale_wallet.amount + king_whale_tax;
    } else {
        accounts.from.amount = accounts.from.amount - marketing_tax;
        accounts.marketing_wallet.amount = accounts.marketing_wallet.amount + marketing_tax;
    }

    accounts.from.amount = accounts.from.amount - liquidity_pool_tax;
    accounts.liquidity_pool.amount = accounts.liquidity_pool.amount + liquidity_pool_tax;

    let lock_amount = (transferred_amount * 9) / 10;
    accounts.from.amount = accounts.from.amount - lock_amount;
    accounts.to.amount = accounts.to.amount + lock_amount;

    accounts.lock_account.amount = lock_amount;
    let release: u64 = accounts.clock.slot + 24 * 60 * 60 / accounts.clock.tick_height;
    accounts.lock_account.release_time = release as i64;
    Ok(())
}

/// Tells whether `transfer` can run on these accounts without its arithmetic
/// leaving its types: true when the transfer is refused or stays in range.
pub fn can_transfer(accounts: &Transfer, amount: u64) -> (r: bool)
    ensures
        r == (authorized(*accounts) ==> transfer_in_range(*accounts, amount)),
{
    if !accounts.authority.same_key(&accounts.from.owner) {
        return true;
    }
    let whale = amount > accounts.king_whale_wallet.highest_buy_amount
        || accounts.from_key.same_key(&accounts.king_whale_wallet.whale_wallet);
    let tax = amount as u128 / 20;
    let cut: u128 = if whale { tax / 5 } else { tax - tax / 5 };
    let pool = amount as u128 / 5;
    let received = amount as u128 - tax;
    let lock = received * 9 / 10;
    let max = u64::MAX as u128;
    if accounts.clock.tick_height == 0 {
        return false;
    }
    if accounts.clock.slot as u128 + 86400 / (accounts.clock.tick_height as u128)
        > i64::MAX as u128 {
        return false;
    }
    if received * 9 > max {
        return false;
    }
    if (accounts.from.amount as u128) < amount as u128 + cut + pool + lock {
        return false;
    }
    if accounts.to.amount as u128 + received + lock > max {
        return false;
    }
    if accounts.liquidity_pool.amount as u128 + pool > max {
        return false;
    }
    if whale {
        accounts.king_whale_wallet.amount as u128 + cut <= max
    } else {
        accounts.marketing_wallet.amount as u128 + cut <= max
    }
}

/// Whether the clock has reached the lock's release time.
pub open spec fn released(acc: Unlock) -> bool {
    acc.clock.slot as int >= acc.lock_account.release_time as int
}

/// The accounts after `unlock`: once released, the locked amount is credited
/// to `to` and the lock account is cleared; before that, nothing changes.
pub open spec fn unlocked(acc: Unlock) -> Unlock {
    if released(acc) {
        Unlock {
            to: TokenAccount {
                amount: (acc.to.amount + acc.lock_account.amount) as u64,
                ..acc.to
            },
            lock_account: LockAccount { amount: 0, release_time: 0 },
            ..acc
        }
    } else {
        acc
    }
}

/// Once the clock's slot has reached the release time, credits the locked
/// amount to `to` and clears the lock account; before that, does nothing.
pub fn unlock(accounts: &mut Unlock) -> (r: Result<(), ErrorCode>)
    requires
        released(*old(accounts)) ==> old(accounts).to.amount + old(accounts).lock_account.amount
            <= u64::MAX,
    ensures
        r == Ok::<(), ErrorCode>(()),
        *final(accounts) == unlocked(*old(accounts)),
{
    let time = accounts.lock_account.release_time;
    if time < 0 || accounts.clock.slot >= time as u64 {
        accounts.to.amount = accounts.to.amount + accounts.lock_account.amount;
        accounts.lock_account.amount = 0;
        accounts.lock_account.release_time = 0;
    }
    Ok(())
}

/// Tells whether `unlock` can run without the credited balance leaving `u64`.
pub fn can_unlock(accounts: &Unlock) -> (r: bool)
    ensures
        r == (released(*accounts) ==> accounts.to.amount + accounts.lock_account.amount
            <= u64::MAX),
{
    let time = accounts.lock_account.release_time;
    if time < 0 || accounts.clock.slot >= time as u64 {
        accounts.to.amount as u128 + accounts.lock_account.amount as u128 <= u64::MAX as u128
    } else {
        true
    }
}

/// The accounts after `burn_liquidity`: 1% of the pool, rounded down, is gone.
pub open spec fn burned(acc: BurnLiquidity) -> BurnLiquidity {
    BurnLiquidity {
        liquidity_pool: TokenAccount {
            amount: (acc.liquidity_pool.amount - acc.liquidity_pool.amount / 100) as u64,
            ..acc.liquidity_pool
        },
    }
}

/// Removes 1% of the liquidity pool's balance, rounded down.
pub fn burn_liquidity(accounts: &mut BurnLiquidity) -> (r: Result<(), ErrorCode>)
    ensures
        r == Ok::<(), ErrorCode>(()),
        *final(accounts) == burned(*old(accounts)),
{
    let burn_amount = accounts.liquidity_pool.amount / 100;
    accounts.liquidity_pool.amount = accounts.liquidity_pool.amount - burn_amount;
    Ok(())
}

} // verus!
