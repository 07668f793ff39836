//! What each handler moves, stated directly in terms of its inputs: the
//! integer shares of the amount, the king whale rule, the lock, the burn and
//! the pool's share of the supply.
use vstd::prelude::*;

use crate::burnit;
use crate::kingwhale;
use crate::lockit;
use crate::lquiditypool;

verus! {

/// A king whale transfer is allowed exactly when the signing authority owns `from`.
pub proof fn kingwhale_authorized_is_ownership(acc: kingwhale::Transfer)
    ensures
        kingwhale::authorized(acc) <==> acc.authority == acc.from.owner,
{
}

/// The range condition of a king whale transfer, spelled out: the sender becomes
/// or stays the king whale when the amount beats the record or it already
/// reigns; it then needs the amount plus 1%, else the amount plus 4%
/// (a twentieth less a hundredth, rounded down each), and no credit overflows.
pub proof fn kingwhale_in_range_is_exact(acc: kingwhale::Transfer, amount: u64)
    ensures
        kingwhale::transfer_in_range(acc, amount) <==> ({
            let a = amount as int;
            let whale = amount > acc.king_whale_wallet.highest_buy_amount || acc.from_key
                == acc.king_whale_wallet.whale_wallet;
            let fee = if whale {
                a / 100
            } else {
                a / 20 - a / 100
            };
            &&& acc.from.amount >= a + fee
            &&& acc.to.amount + (a - a / 20) <= u64::MAX
            &&& whale ==> acc.king_whale_wallet.amount + a / 100 <= u64::MAX
            &&& !whale ==> acc.marketing_wallet.amount + (a / 20 - a / 100) <= u64::MAX
        }),
{
}

/// What an authorized king whale transfer moves. The recipient gets the amount
/// less a twentieth (rounded down). The record becomes the amount when the
/// amount beats it, and then the sender is the king whale; otherwise record and
/// king whale stay. If the sender is then the king whale, the king whale
/// account gains a hundredth of the amount and the marketing wallet nothing;
/// else the marketing wallet gains a twentieth less a hundredth and the king
/// whale account nothing. The sender pays the amount plus exactly that gain;
/// the addresses and the other fields stay.
pub proof fn kingwhale_transfer_moves(acc: kingwhale::Transfer, amount: u64)
    requires
        kingwhale::authorized(acc),
        kingwhale::transfer_in_range(acc, amount),
    ensures
        ({
            let p = kingwhale::transferred(acc, amount);
            let a = amount as int;
            let crown = amount > acc.king_whale_wallet.highest_buy_amount;
            let whale = crown || acc.from_key == acc.king_whale_wallet.whale_wallet;
            let credit = p.to.amount - acc.to.amount;
            let to_whale = p.king_whale_wallet.amount - acc.king_whale_wallet.amount;
            let to_marketing = p.marketing_wallet.amount - acc.marketing_wallet.amount;
            &&& 20 * (a - credit) <= a < 20 * (a - credit) + 20
            &&& credit == a - a / 20
            &&& whale ==> 100 * to_whale <= a < 100 * to_whale + 100 && to_marketing == 0
            &&& !whale ==> to_marketing == a / 20 - a / 100 && to_whale == 0
            &&& acc.from.amount - p.from.amount == a + to_whale + to_marketing
            &&& p.king_whale_wallet.highest_buy_amount == (if crown {
                amount
            } else {
                acc.king_whale_wallet.highest_buy_amount
            })
            &&& p.king_whale_wallet.whale_wallet == (if crown {
                acc.from_key
            } else {
                acc.king_whale_wallet.whale_wallet
            })
            &&& p.from.mint == acc.from.mint && p.from.owner == acc.from.owner
            &&& p.to.mint == acc.to.mint && p.to.owner == acc.to.owner
            &&& p.marketing_wallet.mint == acc.marketing_wallet.mint
            &&& p.marketing_wallet.owner == acc.marketing_wallet.owner
            &&& p.from_key == acc.from_key && p.authority == acc.authority
            &&& p.token_program == acc.token_program
        }),
{
}

/// A liquidity pool transfer is allowed exactly when the signing authority owns `from`.
pub proof fn lquiditypool_authorized_is_ownership(acc: lquiditypool::Transfer)
    ensures
        lquiditypool::authorized(acc) <==> acc.authority == acc.from.owner,
{
}

/// The range condition of a liquidity pool transfer, spelled out: the sender
/// needs the amount, its share of the tax (a fifth of the twentieth if it is
/// then the king whale, the rest of the twentieth otherwise) and a fifth of the
/// amount for the pool, and no credit overflows.
pub proof fn lquiditypool_in_range_is_exact(acc: lquiditypool::Transfer, amount: u64)
    ensures
        lquiditypool::transfer_in_range(acc, amount) <==> ({
            let a = amount as int;
            let t = a / 20;
            let whale = amount > acc.king_whale_wallet.highest_buy_amount || acc.from_key
                == acc.king_whale_wallet.whale_wallet;
            let fee = if whale {
                t / 5
            } else {
                t - t / 5
            };
            &&& acc.from.amount >= a + fee + a / 5
            &&& acc.to.amount + (a - t) <= u64::MAX
            &&& whale ==> acc.king_whale_wallet.amount + t / 5 <= u64::MAX
            &&& !whale ==> acc.marketing_wallet.amount + (t - t / 5) <= u64::MAX
            &&& acc.liquidity_pool.amount + a / 5 <= u64::MAX
        }),
{
}

/// What an authorized liquidity pool transfer moves. The recipient gets the
/// amount less a twentieth; the pool gains a fifth of the amount (rounded
/// down); the king whale account gains a fifth of the twentieth, which is a
/// hundredth of the amount, when the sender is then the king whale, else the
/// marketing wallet gains the rest of the twentieth; the sender pays the amount
/// plus exactly these gains. The record moves as in the king whale transfer.
pub proof fn lquiditypool_transfer_moves(acc: lquiditypool::Transfer, amount: u64)
    requires
        lquiditypool::authorized(acc),
        lquiditypool::transfer_in_range(acc, amount),
    ensures
        ({
            let p = lquiditypool::transferred(acc, amount);
            let a = amount as int;
            let crown = amount > acc.king_whale_wallet.highest_buy_amount;
            let whale = crown || acc.from_key == acc.king_whale_wallet.whale_wallet;
            let credit = p.to.amount - acc.to.amount;
            let to_pool = p.liquidity_pool.amount - acc.liquidity_pool.amount;
            let to_whale = p.king_whale_wallet.amount - acc.king_whale_wallet.amount;
            let to_marketing = p.marketing_wallet.amount - acc.marketing_wallet.amount;
            &&& credit == a - a / 20
            &&& 5 * to_pool <= a < 5 * to_pool + 5
            &&& whale ==> to_whale == a / 100 && to_whale == (a / 20) / 5 && to_marketing == 0
            &&& !whale ==> to_marketing == a / 20 - (a / 20) / 5 && to_marketing == a / 20 - a
                / 100 && to_whale == 0
            &&& acc.from.amount - p.from.amount == a + to_whale + to_marketing + to_pool
            &&& p.king_whale_wallet.highest_buy_amount == (if crown {
                amount
            } else {
                acc.king_whale_wallet.highest_buy_amount
            })
            &&& p.king_whale_wallet.whale_wallet == (if crown {
                acc.from_key
            } else {
                acc.king_whale_wallet.whale_wallet
            })
            &&& p.from.mint == acc.from.mint && p.from.owner == acc.from.owner
            &&& p.to.mint == acc.to.mint && p.to.owner == acc.to.owner
            &&& p.liquidity_pool.mint == acc.liquidity_pool.mint
            &&& p.liquidity_pool.owner == acc.liquidity_pool.owner
            &&& p.marketing_wallet.mint == acc.marketing_wallet.mint
            &&& p.marketing_wallet.owner == acc.marketing_wallet.owner
            &&& p.from_key == acc.from_key && p.authority == acc.authority
            &&& p.token_program == acc.token_program
        }),
{
}

/// A locking transfer is allowed exactly when the signing authority owns `from`.
pub proof fn lockit_authorized_is_ownership(acc: lockit::Transfer)
    ensures
        lockit::authorized(acc) <==> acc.authority == acc.from.owner,
{
}

/// The range condition of a locking transfer, spelled out: as for the
/// liquidity pool transfer, with nine tenths of the received amount owed once
/// more by the sender and credited once more to the recipient, nine times the
/// received amount within `u64`, a tick height that is not zero, and a release
/// slot that fits an `i64`.
pub proof fn lockit_in_range_is_exact(acc: lockit::Transfer, amount: u64)
    ensures
        lockit::transfer_in_range(acc, amount) <==> ({
            let a = amount as int;
            let t = a / 20;
            let lock = (a - t) * 9 / 10;
            let whale = amount > acc.king_whale_wallet.highest_buy_amount || acc.from_key
                == acc.king_whale_wallet.whale_wallet;
            let fee = if whale {
                t / 5
            } else {
                t - t / 5
            };
            &&& acc.from.amount >= a + fee + a / 5 + lock
            &&& acc.to.amount + (a - t) + lock <= u64::MAX
            &&& whale ==> acc.king_whale_wallet.amount + t / 5 <= u64::MAX
            &&& !whale ==> acc.marketing_wallet.amount + (t - t / 5) <= u64::MAX
            &&& acc.liquidity_pool.amount + a / 5 <= u64::MAX
            &&& (a - t) * 9 <= u64::MAX
            &&& acc.clock.tick_height > 0
            &&& acc.clock.slot + 86400int / (acc.clock.tick_height as int) <= i64::MAX
        }),
{
}

/// What an authorized locking transfer moves. The lock account holds nine
/// tenths (rounded down) of what the recipient gets before the lock, that is
/// of the amount less a twentieth, and is released a day's worth of seconds
/// divided by the tick height after the current slot. The recipient gets the
/// amount less a twentieth plus the lock; the pool gains a fifth of the amount;
/// the king whale or the marketing wallet gains its share of the twentieth as
/// in the liquidity pool transfer; the sender pays the amount plus all of
/// these gains, the lock included.
pub proof fn lockit_transfer_moves(acc: lockit::Transfer, amount: u64)
    requires
        lockit::authorized(acc),
        lockit::transfer_in_range(acc, amount),
    ensures
        ({
            let p = lockit::transferred(acc, amount);
            let a = amount as int;
            let received = a - a / 20;
            let crown = amount > acc.king_whale_wallet.highest_buy_amount;
            let whale = crown || acc.from_key == acc.king_whale_wallet.whale_wallet;
            let lock = p.lock_account.amount as int;
            let credit = p.to.amount - acc.to.amount;
            let to_pool = p.liquidity_pool.amount - acc.liquidity_pool.amount;
            let to_whale = p.king_whale_wallet.amount - acc.king_whale_wallet.amount;
            let to_marketing = p.marketing_wallet.amount - acc.marketing_wallet.amount;
            &&& lock == (received * 9) / 10
            &&& 10 * lock <= 9 * received < 10 * lock + 10
            &&& p.lock_account.release_time == acc.clock.slot + 86400int / (
            acc.clock.tick_height as int)
            &&& credit == received + lock
            &&& 5 * to_pool <= a < 5 * to_pool + 5
            &&& whale ==> to_whale == a / 100 && to_marketing == 0
            &&& !whale ==> to_marketing == a / 20 - a / 100 && to_whale == 0
            &&& acc.from.amount - p.from.amount == a + to_whale + to_marketing + to_pool + lock
            &&& p.king_whale_wallet.highest_buy_amount == (if crown {
                amount
            } else {
                acc.king_whale_wallet.highest_buy_amount
            })
            &&& p.king_whale_wallet.whale_wallet == (if crown {
                acc.from_key
            } else {
                acc.king_whale_wallet.whale_wallet
            })
            &&& p.from.mint == acc.from.mint && p.from.owner == acc.from.owner
            &&& p.to.mint == acc.to.mint && p.to.owner == acc.to.owner
            &&& p.liquidity_pool.mint == acc.liquidity_pool.mint
            &&& p.liquidity_pool.owner == acc.liquidity_pool.owner
            &&& p.marketing_wallet.mint == acc.marketing_wallet.mint
            &&& p.marketing_wallet.owner == acc.marketing_wallet.owner
            &&& p.from_key == acc.from_key && p.authority == acc.authority
            &&& p.clock == acc.clock && p.token_program == acc.token_program
        }),
{
}

/// Burning leaves a pool of `p` tokens with `p` less a hundredth of `p`,
/// rounded down: the burned part `b` satisfies `100 * b <= p < 100 * b + 100`;
/// the pool's mint and owner, and the clock, stay.
pub proof fn burnit_burn_takes_a_hundredth(acc: burnit::BurnLiquidity)
    ensures
        ({
            let p = acc.liquidity_pool.amount as int;
            let q = burnit::burned(acc);
            let b = p - q.liquidity_pool.amount;
            &&& q.liquidity_pool.amount == p - p / 100
            &&& 100 * b <= p < 100 * b + 100
            &&& q.liquidity_pool.mint == acc.liquidity_pool.mint
            &&& q.liquidity_pool.owner == acc.liquidity_pool.owner
            &&& q.clock == acc.clock
        }),
{
}

/// Burning in the locking program leaves a pool of `p` tokens with `p` less a
/// hundredth of `p`, rounded down.
pub proof fn lockit_burn_takes_a_hundredth(acc: lockit::BurnLiquidity)
    ensures
        ({
            let p = acc.liquidity_pool.amount as int;
            let q = lockit::burned(acc);
            let b = p - q.liquidity_pool.amount;
            &&& q.liquidity_pool.amount == p - p / 100
            &&& 100 * b <= p < 100 * b + 100
            &&& q.liquidity_pool.mint == acc.liquidity_pool.mint
            &&& q.liquidity_pool.owner == acc.liquidity_pool.owner
        }),
{
}

/// The locking program's `initialize` gives the pool a fifth of the supply,
/// rounded down, and sets the mint to the authority, supply and decimals.
pub proof fn lockit_initialize_gives_pool_a_fifth(
    acc: lockit::Initialize,
    supply: u64,
    decimals: u8,
)
    ensures
        ({
            let q = lockit::initialized(acc, supply, decimals);
            &&& q.liquidity_pool.amount * 5 <= supply < q.liquidity_pool.amount * 5 + 5
            &&& q.liquidity_pool.amount == supply / 5
            &&& q.liquidity_pool.mint == acc.liquidity_pool.mint
            &&& q.liquidity_pool.owner == acc.liquidity_pool.owner
            &&& q.mint.mint_authority == Some(acc.authority)
            &&& q.mint.supply == supply && q.mint.decimals == decimals
            &&& q.authority == acc.authority && q.token_program == acc.token_program
        }),
{
}

/// The burnable program's `initialize` gives the pool a fifth of the supply,
/// rounded down, and sets the mint to the authority, supply and decimals.
pub proof fn burnit_initialize_gives_pool_a_fifth(
    acc: burnit::Initialize,
    supply: u64,
    decimals: u8,
)
    ensures
        ({
            let q = burnit::initialized(acc, supply, decimals);
            &&& q.liquidity_pool.amount * 5 <= supply < q.liquidity_pool.amount * 5 + 5
            &&& q.liquidity_pool.mint == acc.liquidity_pool.mint
            &&& q.liquidity_pool.owner == acc.liquidity_pool.owner
            &&& q.mint.mint_authority == Some(acc.authority)
            &&& q.mint.supply == supply && q.mint.decimals == decimals
        }),
{
}

/// The liquidity pool program's `initialize` gives the pool a fifth of the
/// supply, rounded down, and sets the mint to the authority, supply and decimals.
pub proof fn lquiditypool_initialize_gives_pool_a_fifth(
    acc: lquiditypool::Initialize,
    supply: u64,
    decimals: u8,
)
    ensures
        ({
            let q = lquiditypool::initialized(acc, supply, decimals);
            &&& q.liquidity_pool.amount * 5 <= supply < q.liquidity_pool.amount * 5 + 5
            &&& q.liquidity_pool.mint == acc.liquidity_pool.mint
            &&& q.liquidity_pool.owner == acc.liquidity_pool.owner
            &&& q.mint.mint_authority == Some(acc.authority)
            &&& q.mint.supply == supply && q.mint.decimals == decimals
        }),
{
}

/// The king whale program's `initialize` sets the mint to the authority,
/// supply and decimals.
pub proof fn kingwhale_initialize_sets_mint(acc: kingwhale::Initialize, supply: u64, decimals: u8)
    ensures
        kingwhale::initialized(acc, supply, decimals).mint.mint_authority == Some(acc.authority),
        kingwhale::initialized(acc, supply, decimals).mint.supply == supply,
        kingwhale::initialized(acc, supply, decimals).mint.decimals == decimals,
{
}

/// Unlocking, once the slot has reached the release time, credits the
/// recipient with exactly the locked amount and empties the lock; before that,
/// nothing changes.
pub proof fn unlock_moves_the_lock(acc: lockit::Unlock)
    requires
        acc.clock.slot >= acc.lock_account.release_time ==> acc.to.amount
            + acc.lock_account.amount <= u64::MAX,
    ensures
        lockit::released(acc) <==> acc.clock.slot >= acc.lock_account.release_time,
        acc.clock.slot >= acc.lock_account.release_time ==> {
            &&& lockit::unlocked(acc).to.amount == acc.to.amount + acc.lock_account.amount
            &&& lockit::unlocked(acc).lock_account.amount == 0
            &&& lockit::unlocked(acc).lock_account.release_time == 0
            &&& lockit::unlocked(acc).to.owner == acc.to.owner
            &&& lockit::unlocked(acc).to.mint == acc.to.mint
        },
        acc.clock.slot < acc.lock_account.release_time ==> lockit::unlocked(acc) == acc,
{
}

} // verus!
