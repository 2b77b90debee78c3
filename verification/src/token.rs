//! Value-holding accounts and the transfers requested of the transfer layer.
//!
//! The library never moves value itself. Each operation that calls for a
//! transfer describes it as a `TokenTransfer`, which the caller hands to the
//! transfer layer.

use crate::pubkey::Pubkey;
use vstd::prelude::*;

verus! {

/// The decimal precision every transfer is validated against.
pub const TOKEN_DECIMALS: u8 = 9;

/// An account that holds value of one asset.
#[derive(Clone, Copy, Debug, PartialEq, Eq)]
pub struct TokenAccount {
    /// The account's own address.
    pub key: Pubkey,
    /// The asset descriptor backing the account.
    pub mint: Pubkey,
}

/// A validated transfer of `amount` from `from` to `to`, authorised by
/// `authority`, of the asset `mint` at `decimals` decimal places.
#[derive(Clone, Copy, Debug, PartialEq, Eq)]
pub struct TokenTransfer {
    pub from: Pubkey,
    pub to: Pubkey,
    pub authority: Pubkey,
    pub mint: Pubkey,
    pub amount: u64,
    pub decimals: u8,
}

/// The transfer that moves `amount` from the guest's holding account to the
/// platform treasury.
pub open spec fn spec_transfer_to_platform_treasury(
    guest_token_account: TokenAccount,
    platform_treasury: TokenAccount,
    guest_authority: Pubkey,
    mint: Pubkey,
    amount: u64,
) -> TokenTransfer {
    TokenTransfer {
        from: guest_token_account.key,
        to: platform_treasury.key,
        authority: guest_authority,
        mint,
        amount,
        decimals: TOKEN_DECIMALS,
    }
}

/// Describes the transfer of `amount` from the guest's holding account to the
/// platform treasury, on the guest's authority.
pub fn transfer_to_platform_treasury(
    guest_token_account: &TokenAccount,
    platform_treasury: &TokenAccount,
    guest_authority: &Pubkey,
    mint: &Pubkey,
    amount: u64,
) -> (transfer: TokenTransfer)
    ensures
        transfer == spec_transfer_to_platform_treasury(
            *guest_token_account,
            *platform_treasury,
            *guest_authority,
            *mint,
            amount,
        ),
{
    TokenTransfer {
        from: guest_token_account.key,
        to: platform_treasury.key,
        authority: *guest_authority,
        mint: *mint,
        amount,
        decimals: TOKEN_DECIMALS,
    }
}

} // verus!
