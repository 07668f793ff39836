//! A token with a liquidity pool of which 1% can be burned on request.
use vstd::prelude::*;

pub use crate::accounts::{Clock, ErrorCode, KingWhaleWallet, Mint, Pubkey, TokenAccount};

verus! {

/// The accounts that `initialize` reads and writes.
#[derive(Clone, Copy, Debug, PartialEq, Eq)]
pub struct Initialize {
    pub mint: Mint,
    pub authority: Pubkey,
    pub system_program: Pubkey,
    pub liquidity_pool: TokenAccount,
}

/// The accounts that `transfer` is given.
#[derive(Clone, Copy, Debug, PartialEq, Eq)]
pub struct Transfer {
    pub from: TokenAccount,
    pub to: TokenAccount,
    pub authority: Pubkey,
    pub marketing_wallet: TokenAccount,
    pub king_whale_wallet: KingWhaleWallet,
    pub liquidity_pool: TokenAccount,
    pub token_program: Pubkey,
}

/// The accounts that `burn_liquidity` reads and writes.
#[derive(Clone, Copy, Debug, PartialEq, Eq)]
pub struct BurnLiquidity {
    pub liquidity_pool: TokenAccount,
    pub clock: Clock,
}

/// The accounts after `initialize`: the mint takes the authority, the supply
/// and the decimals, and the liquidity pool holds 20% of the supply.
pub open spec fn initialized(pre: Initialize, supply: u64, decimals: u8) -> Initialize {
    Initialize {
        mint: Mint { mint_authority: Some(pre.authority), supply: supply, decimals: decimals },
        liquidity_pool: TokenAccount { amount: (supply / 5) as u64, ..pre.liquidity_pool },
        ..pre
    }
}

/// Sets up the mint with the given supply and decimals, the authority as its
/// minting authority, and sets the liquidity pool's balance to 20% of the supply.
pub fn initialize(accounts: &mut Initialize, supply: u64, decimals: u8) -> (r: Result<(), ErrorCode>)
    ensures
        r == Ok::<(), ErrorCode>(()),
        *final(accounts) == initialized(*old(accounts), supply, decimals),
{
    accounts.mint.mint_authority = Some(accounts.authority);
    accounts.mint.supply = supply;
    accounts.mint.decimals = decimals;

    let liquidity_pool_amount = supply / 5;
    accounts.liquidity_pool.amount = liquidity_pool_amount;
    Ok(())
}

/// Accepts a transfer and moves nothing: this program has no transfer logic.
pub fn transfer(accounts: &mut Transfer, amount: u64) -> (r: Result<(), ErrorCode>)
    ensures
        r == Ok::<(), ErrorCode>(()),
        *final(accounts) == *old(accounts),
{
    Ok(())
}

/// The accounts after `burn_liquidity`: 1% of the pool, rounded down, is gone.
pub open spec fn burned(acc: BurnLiquidity) -> BurnLiquidity {
    BurnLiquidity {
        liquidity_pool: TokenAccount {
            amount: (acc.liquidity_pool.amount - acc.liquidity_pool.amount / 100) as u64,
            ..acc.liquidity_pool
        },
        ..acc
    }
}

/// Removes 1% of the liquidity pool's balance, rounded down.
pub fn burn_liquidity(accounts: &mut BurnLiquidity) -> (r: Result<(), ErrorCode>)
    ensures
        r == Ok::<(), ErrorCode>(()),
        *final(accounts) == burned(*old(accounts)),
{
    let burn_amount = accounts.liquidity_pool.amount / 100;
    accounts.liquidity_pool.amount = accounts.liquidity_pool.amount - burn_amount;
    Ok(())
}

} // verus!
