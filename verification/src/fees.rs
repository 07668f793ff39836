//! The arithmetic that the transfer handlers share.
use vstd::prelude::*;

use crate::accounts::{KingWhaleWallet, Pubkey};

verus! {

/// The transfer tax: 5% of the amount, rounded down.
pub open spec fn tax(amount: u64) -> int {
    amount as int / 20
}

/// What the recipient receives of the amount: the amount less the tax.
pub open spec fn received(amount: u64) -> int {
    amount - tax(amount)
}

/// The king whale's cut: 1% of the amount, rounded down.
pub open spec fn whale_cut(amount: u64) -> int {
    amount as int / 100
}

/// The marketing cut: the tax less the king whale's cut.
pub open spec fn marketing_cut(amount: u64) -> int {
    tax(amount) - whale_cut(amount)
}

/// The king whale's share of the tax: a fifth of the tax, rounded down.
pub open spec fn whale_share(amount: u64) -> int {
    tax(amount) / 5
}

/// The marketing share of the tax: the tax less the king whale's share.
pub open spec fn marketing_share(amount: u64) -> int {
    tax(amount) - whale_share(amount)
}

/// The liquidity pool's cut: 20% of the amount, rounded down.
pub open spec fn pool_cut(amount: u64) -> int {
    amount as int / 5
}

/// The king whale record after a transfer of `amount` from `sender`: a transfer
/// larger than the record becomes the new record, and its sender the king whale.
pub open spec fn crowned(w: KingWhaleWallet, sender: Pubkey, amount: u64) -> KingWhaleWallet {
    if amount > w.highest_buy_amount {
        KingWhaleWallet { whale_wallet: sender, highest_buy_amount: amount, ..w }
    } else {
        w
    }
}

/// Whether `sender` is the king whale once the record has seen its transfer.
pub open spec fn sender_is_whale(w: KingWhaleWallet, sender: Pubkey, amount: u64) -> bool {
    crowned(w, sender, amount).whale_wallet == sender
}

/// Taking the whale's share out of the tax once more is the same as taking 1% of the amount.
pub proof fn lemma_tax_split(amount: u64)
    ensures
        tax(amount) / 5 == whale_cut(amount),
        0 <= whale_cut(amount) <= tax(amount) <= amount,
        0 <= pool_cut(amount) <= amount,
{
}

} // verus!
