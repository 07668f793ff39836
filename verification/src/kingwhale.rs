//! A taxed token whose largest sender, the king whale, collects a share of every tax.
use vstd::prelude::*;

pub use crate::accounts::{ErrorCode, KingWhaleWallet, Mint, Pubkey, TokenAccount};
use crate::fees::{crowned, marketing_cut, received, sender_is_whale, whale_cut};

verus! {

/// The accounts that `initialize` reads and writes.
#[derive(Clone, Copy, Debug, PartialEq, Eq)]
pub struct Initialize {
    pub mint: Mint,
    pub authority: Pubkey,
    pub system_program: Pubkey,
}

/// The accounts that `transfer` reads and writes. `from_key` is the address of
/// the `from` account.
#[derive(Clone, Copy, Debug, PartialEq, Eq)]
pub struct Transfer {
    pub from: TokenAccount,
    pub from_key: Pubkey,
    pub to: TokenAccount,
    pub authority: Pubkey,
    pub marketing_wallet: TokenAccount,
    pub king_whale_wallet: KingWhaleWallet,
    pub token_program: Pubkey,
}

/// The accounts after `initialize`: the mint takes the authority, the supply and the decimals.
pub open spec fn initialized(pre: Initialize, supply: u64, decimals: u8) -> Initialize {
    Initialize {
        mint: Mint { mint_authority: Some(pre.authority), supply: supply, decimals: decimals },
        ..pre
    }
}

/// Sets up the mint with the given supply and decimals, the authority as its minting authority.
pub fn initialize(accounts: &mut Initialize, supply: u64, decimals: u8) -> (r: Result<(), ErrorCode>)
    ensures
        r == Ok::<(), ErrorCode>(()),
        *final(accounts) == initialized(*old(accounts), supply, decimals),
{
    accounts.mint.mint_authority = Some(accounts.authority);
    accounts.mint.supply = supply;
    accounts.mint.decimals = decimals;
    Ok(())
}

/// A transfer is allowed when the signing authority owns the sending account.
pub open spec fn authorized(acc: Transfer) -> bool {
    acc.authority == acc.from.owner
}

/// Whether the sender is the king whale once its transfer has been recorded.
pub open spec fn pays_whale(acc: Transfer, amount: u64) -> bool {
    sender_is_whale(acc.king_whale_wallet, acc.from_key, amount)
}

/// What the sender pays on top of the amount: the king whale's cut when it is
/// the king whale, the marketing cut otherwise.
pub open spec fn sender_fee(acc: Transfer, amount: u64) -> int {
    if pays_whale(acc, amount) {
        whale_cut(amount)
    } else {
        marketing_cut(amount)
    }
}

/// The balances that a transfer changes stay within `u64`: the sender holds
/// the amount and its fee, and no credited balance overflows.
pub open spec fn transfer_in_range(acc: Transfer, amount: u64) -> bool {
    &&& acc.from.amount >= amount + sender_fee(acc, amount)
    &&& acc.to.amount + received(amount) <= u64::MAX
    &&& pays_whale(acc, amount) ==> acc.king_whale_wallet.amount + whale_cut(amount) <= u64::MAX
    &&& !pays_whale(acc, amount) ==> acc.marketing_wallet.amount + marketing_cut(amount)
        <= u64::MAX
}

/// The accounts after an authorized transfer of `amount`.
pub open spec fn transferred(acc: Transfer, amount: u64) -> Transfer {
    let w = crowned(acc.king_whale_wallet, acc.from_key, amount);
    let whale = pays_whale(acc, amount);
    Transfer {
        from: TokenAccount {
            amount: (acc.from.amount - amount - sender_fee(acc, amount)) as u64,
            ..acc.from
        },
        to: TokenAccount { amount: (acc.to.amount + received(amount)) as u64, ..acc.to },
        marketing_wallet: if whale {
            acc.marketing_wallet
        } else {
            TokenAccount {
                amount: (acc.marketing_wallet.amount + marketing_cut(amount)) as u64,
                ..acc.marketing_wallet
            }
        },
        king_whale_wallet: if whale {
            KingWhaleWallet { amount: (w.amount + whale_cut(amount)) as u64, ..w }
        } else {
            w
        },
        ..acc
    }
}

/// Takes `amount` from `from` and credits `to` with it less the 5% tax, which
/// leaves circulation. On top, the sender pays 1% of the amount to the king
/// whale account if it is the king whale after this transfer, else 4% to the
/// marketing wallet. A transfer larger than the record makes the sender the
/// king whale.
/// Fails with `Unauthorized`, changing nothing, when the authority does not own `from`.
pub fn transfer(accounts: &mut Transfer, amount: u64) -> (r: Result<(), ErrorCode>)
    requires
        authorized(*old(accounts)) ==> transfer_in_range(*old(accounts), amount),
    ensures
        r == (if authorized(*old(accounts)) {
            Ok::<(), ErrorCode>(())
        } else {
            Err(ErrorCode::Unauthorized)
        }),
        *final(accounts) == (if authorized(*old(accounts)) {
            transferred(*old(accounts), amount)
        } else {
            *old(accounts)
        }),
{
    if !accounts.authority.same_key(&accounts.from.owner) {
        return Err(ErrorCode::Unauthorized);
    }
    let tax = amount / 20;
    let transferred_amount = amount - tax;

    accounts.from.amount = accounts.from.amount - amount;
    accounts.to.amount = accounts.to.amount + transferred_amount;

    if amount > accounts.king_whale_wallet.highest_buy_amount {
        accounts.king_whale_wallet.highest_buy_amount = amount;
        accounts.king_whale_wallet.whale_wallet = accounts.from_key;
    }
    if accounts.from_key.same_key(&accounts.king_whale_wallet.whale_wallet) {
        let king_whale_tax = amount / 100;
        accounts.from.amount = accounts.from.amount - king_whale_tax;
        accounts.king_whale_wallet.amount = accounts.king_whale_wallet.amount + king_whale_tax;
    } else {
        let marketing_tax = tax - amount / 100;
        accounts.from.amount = accounts.from.amount - marketing_tax;
        accounts.marketing_wallet.amount = accounts.marketing_wallet.amount + marketing_tax;
    }
    Ok(())
}

/// Tells whether `transfer` can run on these accounts without its arithmetic
/// leaving `u64`: true when the transfer is refused or stays in range.
pub fn can_transfer(accounts: &Transfer, amount: u64) -> (r: bool)
    ensures
        r == (authorized(*accounts) ==> transfer_in_range(*accounts, amount)),
{
    if !accounts.authority.same_key(&accounts.from.owner) {
        return true;
    }
    let whale = amount > accounts.king_whale_wallet.highest_buy_amount
        || accounts.from_key.same_key(&accounts.king_whale_wallet.whale_wallet);
    let tax = amount as u128 / 20;
    let cut: u128 = if whale { amount as u128 / 100 } else { tax - amount as u128 / 100 };
    let max = u64::MAX as u128;
    if (accounts.from.amount as u128) < amount as u128 + cut {
        return false;
    }
    if accounts.to.amount as u128 + (amount as u128 - tax) > max {
        return false;
    }
    if whale {
        accounts.king_whale_wallet.amount as u128 + cut <= max
    } else {
        accounts.marketing_wallet.amount as u128 + cut <= max
    }
}

} // verus!
