use vstd::prelude::*;

verus! {

/// The address of an account: thirty-two bytes.
#[derive(Clone, Copy, Debug, PartialEq, Eq)]
pub struct Pubkey(pub [u8; 32]);

impl Pubkey {
    /// Compares two addresses byte by byte.
    pub fn same_key(&self, other: &Pubkey) -> (r: bool)
        ensures
            r == (*self == *other),
    {
        broadcast use vstd::array::group_array_axioms;

        let mut i: usize = 0;
        while i < 32
            invariant
                0 <= i <= 32,
                forall|j: int| 0 <= j < i ==> self.0[j] == other.0[j],
            decreases 32 - i,
        {
            if self.0[i] != other.0[i] {
                return false;
            }
            i = i + 1;
        }
        assert(self.0 =~= other.0);
        true
    }
}

/// The state of a token mint.
#[derive(Clone, Copy, Debug, PartialEq, Eq)]
pub struct Mint {
    pub mint_authority: Option<Pubkey>,
    pub supply: u64,
    pub decimals: u8,
}

/// The state of a token account: which mint it holds, who owns it, and its balance.
#[derive(Clone, Copy, Debug, PartialEq, Eq)]
pub struct TokenAccount {
    pub mint: Pubkey,
    pub owner: Pubkey,
    pub amount: u64,
}

/// The record of the largest transfer seen so far, the account that made it,
/// and the tokens paid to that account as its share of the tax.
#[derive(Clone, Copy, Debug, PartialEq, Eq)]
pub struct KingWhaleWallet {
    pub whale_wallet: Pubkey,
    pub highest_buy_amount: u64,
    pub amount: u64,
}

/// Tokens held back until a slot.
#[derive(Clone, Copy, Debug, PartialEq, Eq)]
pub struct LockAccount {
    pub amount: u64,
    pub release_time: i64,
}

/// The readings of the clock that the lock uses: the current slot, and the
/// tick height by which a day's worth of seconds is divided to give the lock
/// period in slots.
#[derive(Clone, Copy, Debug, PartialEq, Eq)]
pub struct Clock {
    pub slot: u64,
    pub tick_height: u64,
}

/// The one error a handler returns on its own account.
#[derive(Clone, Copy, Debug, PartialEq, Eq, Structural)]
pub enum ErrorCode {
    /// The signing authority does not own the account the tokens leave.
    Unauthorized,
}

} // verus!
