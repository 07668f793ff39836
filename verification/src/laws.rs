//! Properties that span the handlers: where the tax goes, how the king whale
//! record moves, how the three taxed transfers relate, and what repeated
//! unlocking and burning do.
use vstd::prelude::*;

use crate::accounts::TokenAccount;
use crate::burnit;
use crate::fees::{lemma_tax_split, pool_cut, tax};
use crate::kingwhale;
use crate::lockit;
use crate::lquiditypool;

verus! {

/// The balances that a king whale transfer moves tokens between.
pub open spec fn kingwhale_balances(acc: kingwhale::Transfer) -> int {
    acc.from.amount + acc.to.amount + acc.marketing_wallet.amount + acc.king_whale_wallet.amount
}

/// The balances that a liquidity pool transfer moves tokens between.
pub open spec fn lquiditypool_balances(acc: lquiditypool::Transfer) -> int {
    acc.from.amount + acc.to.amount + acc.marketing_wallet.amount + acc.king_whale_wallet.amount
        + acc.liquidity_pool.amount
}

/// The balances that a locking transfer moves tokens between.
pub open spec fn lockit_balances(acc: lockit::Transfer) -> int {
    acc.from.amount + acc.to.amount + acc.marketing_wallet.amount + acc.king_whale_wallet.amount
        + acc.liquidity_pool.amount
}

/// A king whale transfer takes 5% of the amount out of the balances it
/// touches: the sender's loss exceeds what the others gain by exactly the tax.
pub proof fn kingwhale_transfer_removes_tax(acc: kingwhale::Transfer, amount: u64)
    requires
        kingwhale::authorized(acc),
        kingwhale::transfer_in_range(acc, amount),
    ensures
        kingwhale_balances(kingwhale::transferred(acc, amount)) == kingwhale_balances(acc) - tax(
            amount,
        ),
{
    lemma_tax_split(amount);
}

/// A liquidity pool transfer takes 5% of the amount out of the balances it touches.
pub proof fn lquiditypool_transfer_removes_tax(acc: lquiditypool::Transfer, amount: u64)
    requires
        lquiditypool::authorized(acc),
        lquiditypool::transfer_in_range(acc, amount),
    ensures
        lquiditypool_balances(lquiditypool::transferred(acc, amount)) == lquiditypool_balances(
            acc,
        ) - tax(amount),
{
    lemma_tax_split(amount);
}

/// A locking transfer takes 5% of the amount out of the balances it touches;
/// the locked tokens are moved, not taken.
pub proof fn lockit_transfer_removes_tax(acc: lockit::Transfer, amount: u64)
    requires
        lockit::authorized(acc),
        lockit::transfer_in_range(acc, amount),
    ensures
        lockit_balances(lockit::transferred(acc, amount)) == lockit_balances(acc) - tax(amount),
{
    lemma_tax_split(amount);
}

/// The king whale record only grows: after a transfer it holds the larger of
/// the old record and the amount; a larger amount makes the sender the king
/// whale, any other leaves the king whale as it was; and the sender pays the
/// king whale's cut exactly when it is then the king whale.
pub proof fn king_whale_record(acc: kingwhale::Transfer, amount: u64)
    requires
        kingwhale::authorized(acc),
        kingwhale::transfer_in_range(acc, amount),
    ensures
        ({
            let post = kingwhale::transferred(acc, amount);
            &&& post.king_whale_wallet.highest_buy_amount >= acc.king_whale_wallet.highest_buy_amount
            &&& post.king_whale_wallet.highest_buy_amount >= amount
            &&& (post.king_whale_wallet.highest_buy_amount == amount
                || post.king_whale_wallet.highest_buy_amount
                == acc.king_whale_wallet.highest_buy_amount)
            &&& amount > acc.king_whale_wallet.highest_buy_amount
                ==> post.king_whale_wallet.whale_wallet == acc.from_key
            &&& amount <= acc.king_whale_wallet.highest_buy_amount
                ==> post.king_whale_wallet.whale_wallet == acc.king_whale_wallet.whale_wallet
            &&& kingwhale::pays_whale(acc, amount) <==> post.king_whale_wallet.whale_wallet
                == acc.from_key
        }),
{
}

/// The king whale program's view of a liquidity pool transfer's accounts.
pub open spec fn as_kingwhale(acc: lquiditypool::Transfer) -> kingwhale::Transfer {
    kingwhale::Transfer {
        from: acc.from,
        from_key: acc.from_key,
        to: acc.to,
        authority: acc.authority,
        marketing_wallet: acc.marketing_wallet,
        king_whale_wallet: acc.king_whale_wallet,
        token_program: acc.token_program,
    }
}

/// The liquidity pool program's view of a locking transfer's accounts.
pub open spec fn as_lquiditypool(acc: lockit::Transfer) -> lquiditypool::Transfer {
    lquiditypool::Transfer {
        from: acc.from,
        from_key: acc.from_key,
        to: acc.to,
        authority: acc.authority,
        marketing_wallet: acc.marketing_wallet,
        king_whale_wallet: acc.king_whale_wallet,
        liquidity_pool: acc.liquidity_pool,
        token_program: acc.token_program,
    }
}

/// A liquidity pool transfer is the king whale transfer (a fifth of the tax
/// is the same 1% of the amount), followed by the sender paying 20% of the
/// amount into the liquidity pool.
pub proof fn lquiditypool_transfer_extends_kingwhale(acc: lquiditypool::Transfer, amount: u64)
    requires
        lquiditypool::authorized(acc),
        lquiditypool::transfer_in_range(acc, amount),
    ensures
        kingwhale::authorized(as_kingwhale(acc)),
        kingwhale::transfer_in_range(as_kingwhale(acc), amount),
        ({
            let l = lquiditypool::transferred(acc, amount);
            let k = kingwhale::transferred(as_kingwhale(acc), amount);
            &&& l.from.amount == k.from.amount - pool_cut(amount)
            &&& l.to == k.to
            &&& l.marketing_wallet == k.marketing_wallet
            &&& l.king_whale_wallet == k.king_whale_wallet
            &&& l.liquidity_pool.amount == acc.liquidity_pool.amount + pool_cut(amount)
        }),
{
    lemma_tax_split(amount);
}

/// A locking transfer is the liquidity pool transfer followed by moving the
/// locked amount once more from the sender to the recipient and recording it,
/// with its release slot, in the lock account.
pub proof fn lockit_transfer_extends_lquiditypool(acc: lockit::Transfer, amount: u64)
    requires
        lockit::authorized(acc),
        lockit::transfer_in_range(acc, amount),
    ensures
        lquiditypool::authorized(as_lquiditypool(acc)),
        lquiditypool::transfer_in_range(as_lquiditypool(acc), amount),
        ({
            let l = lockit::transferred(acc, amount);
            let q = lquiditypool::transferred(as_lquiditypool(acc), amount);
            &&& l.from.amount == q.from.amount - lockit::lock_amount(amount)
            &&& l.to.amount == q.to.amount + lockit::lock_amount(amount)
            &&& l.marketing_wallet == q.marketing_wallet
            &&& l.king_whale_wallet == q.king_whale_wallet
            &&& l.liquidity_pool == q.liquidity_pool
            &&& l.lock_account.amount == lockit::lock_amount(amount)
            &&& l.lock_account.release_time == lockit::release_slot(acc.clock)
        }),
{
    lemma_tax_split(amount);
}

/// Unlocking twice at the same slot is unlocking once: a released lock is
/// empty, and an unreleased one stays as it was.
pub proof fn unlock_is_idempotent(acc: lockit::Unlock)
    requires
        lockit::released(acc) ==> acc.to.amount + acc.lock_account.amount <= u64::MAX,
    ensures
        lockit::released(lockit::unlocked(acc)) ==> lockit::unlocked(acc).to.amount
            + lockit::unlocked(acc).lock_account.amount <= u64::MAX,
        lockit::unlocked(lockit::unlocked(acc)) == lockit::unlocked(acc),
{
}

/// The tokens a locking transfer holds back reach the recipient once an
/// unlock runs at or after the release slot, and the lock is then empty.
pub proof fn locked_tokens_are_released(acc: lockit::Transfer, amount: u64, later: lockit::Unlock)
    requires
        lockit::authorized(acc),
        lockit::transfer_in_range(acc, amount),
        later.lock_account == lockit::transferred(acc, amount).lock_account,
        later.clock.slot >= lockit::release_slot(acc.clock),
        later.to.amount + later.lock_account.amount <= u64::MAX,
    ensures
        lockit::released(later),
        lockit::unlocked(later).to.amount == later.to.amount + lockit::lock_amount(amount),
        lockit::unlocked(later).lock_account.amount == 0,
{
}

/// Burning removes 1% of the pool rounded down in both programs that burn:
/// the pool never grows, a non-empty pool never empties, and a pool of fewer
/// than a hundred tokens stays as it is.
pub proof fn burn_keeps_pool(acc: burnit::BurnLiquidity)
    ensures
        lockit::burned(lockit::BurnLiquidity { liquidity_pool: acc.liquidity_pool }).liquidity_pool
            == burnit::burned(acc).liquidity_pool,
        burnit::burned(acc).liquidity_pool.amount <= acc.liquidity_pool.amount,
        acc.liquidity_pool.amount > 0 ==> burnit::burned(acc).liquidity_pool.amount > 0,
        acc.liquidity_pool.amount < 100 ==> burnit::burned(acc).liquidity_pool
            == acc.liquidity_pool,
{
}

/// The three programs with a liquidity pool set up the mint alike and give
/// the pool 20% of the supply, rounded down; the locking program asks for
/// exactly that amount to be minted into the pool.
pub proof fn initialize_gives_pool_a_fifth(
    acc: lquiditypool::Initialize,
    supply: u64,
    decimals: u8,
)
    ensures
        ({
            let q = lquiditypool::initialized(acc, supply, decimals);
            let b = burnit::initialized(
                burnit::Initialize {
                    mint: acc.mint,
                    authority: acc.authority,
                    system_program: acc.system_program,
                    liquidity_pool: acc.liquidity_pool,
                },
                supply,
                decimals,
            );
            &&& q.liquidity_pool.amount * 5 <= supply < q.liquidity_pool.amount * 5 + 5
            &&& q.mint.mint_authority == Some(acc.authority)
            &&& b.mint == q.mint
            &&& b.liquidity_pool == q.liquidity_pool
            &&& kingwhale::initialized(
                kingwhale::Initialize {
                    mint: acc.mint,
                    authority: acc.authority,
                    system_program: acc.system_program,
                },
                supply,
                decimals,
            ).mint == q.mint
        }),
{
}

} // verus!
