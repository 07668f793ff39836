//! The taxed king whale token that also feeds a liquidity pool with 20% of every transfer.
use vstd::prelude::*;

pub use crate::accounts::{ErrorCode, KingWhaleWallet, Mint, Pubkey, TokenAccount};
use crate::fees::{crowned, marketing_share, pool_cut, received, sender_is_whale, whale_share};

verus! {

/// The accounts that `initialize` reads and writes.
#[derive(Clone, Copy, Debug, PartialEq, Eq)]
pub struct Initialize {
    pub mint: Mint,
    pub authority: Pubkey,
    pub system_program: Pubkey,
    pub liquidity_pool: TokenAccount,
}

/// The accounts that `transfer` reads and writes. `from_key` is the address of
/// the `from` account.
#[derive(Clone, Copy, Debug, PartialEq, Eq)]
pub struct Transfer {
    pub from: TokenAccount,
    pub from_key: Pubkey,
    pub to: TokenAccount,
    pub authority: Pubkey,
    pub marketing_wallet: TokenAccount,
    pub king_whale_wallet: KingWhaleWallet,
    pub liquidity_pool: TokenAccount,
    pub token_program: Pubkey,
}

/// The accounts after `initialize`: the mint takes the authority, the supply
/// and the decimals, and the liquidity pool holds 20% of the supply.
pub open spec fn initialized(pre: Initialize, supply: u64, decimals: u8) -> Initialize {
    Initialize {
        mint: Mint { mint_authority: Some(pre.authority), supply: supply, decimals: decimals },
        liquidity_pool: TokenAccount { amount: (supply / 5) as u64, ..pre.liquidity_pool },
        ..pre
    }
}

/// Sets up the mint with the given supply and decimals, the authority as its
/// minting authority, and sets the liquidity pool's balance to 20% of the supply.
pub fn initialize(accounts: &mut Initialize, supply: u64, decimals: u8) -> (r: Result<(), ErrorCode>)
    ensures
        r == Ok::<(), ErrorCode>(()),
        *final(accounts) == initialized(*old(accounts), supply, decimals),
{
    accounts.mint.mint_authority = Some(accounts.authority);
    accounts.mint.supply = supply;
    accounts.mint.decimals = decimals;

    let liquidity_pool_amount = supply / 5;
    accounts.liquidity_pool.amount = liquidity_pool_amount;
    Ok(())
}

/// A transfer is allowed when the signing authority owns the sending account.
pub open spec fn authorized(acc: Transfer) -> bool {
    acc.authority == acc.from.owner
}

/// Whether the sender is the king whale once its transfer has been recorded.
pub open spec fn pays_whale(acc: Transfer, amount: u64) -> bool {
    sender_is_whale(acc.king_whale_wallet, acc.from_key, amount)
}

/// The tax share the sender pays on top of the amount: the king whale's
/// share when it is the king whale, the marketing share otherwise.
pub open spec fn sender_fee(acc: Transfer, amount: u64) -> int {
    if pays_whale(acc, amount) {
        whale_share(amount)
    } else {
        marketing_share(amount)
    }
}

/// The balances that a transfer changes stay within `u64`: the sender holds
/// the amount, its fee and the pool's cut, and no credited balance overflows.
pub open spec fn transfer_in_range(acc: Transfer, amount: u64) -> bool {
    &&& acc.from.amount >= amount + sender_fee(acc, amount) + pool_cut(amount)
    &&& acc.to.amount + received(amount) <= u64::MAX
    &&& pays_whale(acc, amount) ==> acc.king_whale_wallet.amount + whale_share(amount) <= u64::MAX
    &&& !pays_whale(acc, amount) ==> acc.marketing_wallet.amount + marketing_share(amount)
        <= u64::MAX
    &&& acc.liquidity_pool.amount + pool_cut(amount) <= u64::MAX
}

/// The accounts after an authorized transfer of `amount`.
pub open spec fn transferred(acc: Transfer, amount: u64) -> Transfer {
    let w = crowned(acc.king_whale_wallet, acc.from_key, amount);
    let whale = pays_whale(acc, amount);
    Transfer {
        from: TokenAccount {
            amount: (acc.from.amount - amount - sender_fee(acc, amount) - pool_cut(
                amount,
            )) as u64,
            ..acc.from
        },
        to: TokenAccount { amount: (acc.to.amount + received(amount)) as u64, ..acc.to },
        marketing_wallet: if whale {
            acc.marketing_wallet
        } else {
            TokenAccount {
                amount: (acc.marketing_wallet.amount + marketing_share(amount)) as u64,
                ..acc.marketing_wallet
            }
        },
        king_whale_wallet: if whale {
            KingWhaleWallet { amount: (w.amount + whale_share(amount)) as u64, ..w }
        } else {
            w
        },
        liquidity_pool: TokenAccount {
            amount: (acc.liquidity_pool.amount + pool_cut(amount)) as u64,
            ..acc.liquidity_pool
        },
        ..acc
    }
}

/// Takes `amount` from `from` and credits `to` with it less the 5% tax, which
/// leaves circulation. On top, the sender pays a fifth of that tax to the king
/// whale account if it is the king whale after this transfer, else the other
/// four fifths to the marketing wallet, and 20% of the amount into the
/// liquidity pool. A transfer larger than the
/// record makes the sender the king whale. Fails with `Unauthorized`,
/// changing nothing, when the authority does not own `from`.
pub fn transfer(accounts: &mut Transfer, amount: u64) -> (r: Result<(), ErrorCode>)
    requires
        authorized(*old(accounts)) ==> transfer_in_range(*old(accounts), amount),
    ensures
        r == (if authorized(*old(accounts)) {
            Ok::<(), ErrorCode>(())
        } else {
            Err(ErrorCode::Unauthorized)
        }),
        *final(accounts) == (if authorized(*old(accounts)) {
            transferred(*old(accounts), amount)
        } else {
            *old(accounts)
        }),
{
    if !accounts.authority.same_key(&accounts.from.owner) {
        return Err(ErrorCode::Unauthorized);
    }
    let tax = amount / 20;
    let king_whale_tax = tax / 5;
    let marketing_tax = tax - king_whale_tax;
    let liquidity_pool_tax = amount / 5;
    let transferred_amount = amount - tax;

    accounts.from.amount = accounts.from.amount - amount;
    accounts.to.amount = accounts.to.amount + transferred_amount;

    if amount > accounts.king_whale_wallet.highest_buy_amount {
        accounts.king_whale_wallet.highest_buy_amount = amount;
        accounts.king_whale_wallet.whale_wallet = accounts.from_key;
    }
    if accounts.from_key.same_key(&accounts.king_whale_wallet.whale_wallet) {
        accounts.from.amount = accounts.from.amount - king_whale_tax;
        accounts.king_whale_wallet.amount = accounts.king_whale_wallet.amount + king_whale_tax;
    } else {
        accounts.from.amount = accounts.from.amount - marketing_tax;
        accounts.marketing_wallet.amount = accounts.marketing_wallet.amount + marketing_tax;
    }

    accounts.from.amount = accounts.from.amount - liquidity_pool_tax;
    accounts.liquidity_pool.amount = accounts.liquidity_pool.amount + liquidity_pool_tax;
    Ok(())
}

/// Tells whether `transfer` can run on these accounts without its arithmetic
/// leaving `u64`: true when the transfer is refused or stays in range.
pub fn can_transfer(accounts: &Transfer, amount: u64) -> (r: bool)
    ensures
        r == (authorized(*accounts) ==> transfer_in_range(*accounts, amount)),
{
    if !accounts.authority.same_key(&accounts.from.owner) {
        return true;
    }
    let whale = amount > accounts.king_whale_wallet.highest_buy_amount
        || accounts.from_key.same_key(&accounts.king_whale_wallet.whale_wallet);
    let tax = amount as u128 / 20;
    let cut: u128 = if whale { tax / 5 } else { tax - tax / 5 };
    let pool = amount as u128 / 5;
    let max = u64::MAX as u128;
    if (accounts.from.amount as u128) < amount as u128 + cut + pool {
        return false;
    }
    if accounts.to.amount as u128 + (amount as u128 - tax) > max {
        return false;
    }
    if accounts.liquidity_pool.amount as u128 + pool > max {
        return false;
    }
    if whale {
        accounts.king_whale_wallet.amount as u128 + cut <= max
    } else {
        accounts.marketing_wallet.amount as u128 + cut <= max
    }
}

} // verus!
