//! Four token programs that tax transfers: their instruction handlers, over
//! the account states they read and write, with the taxes, the king whale
//! record, the liquidity pool, the lock and the burn stated and proved.
use vstd::prelude::*;

pub mod accounts;
pub mod amounts;
pub mod burnit;
pub mod fees;
pub mod kingwhale;
pub mod laws;
pub mod lockit;
pub mod lquiditypool;

verus! {

} // verus!
