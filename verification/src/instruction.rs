//! The movements an operation asks for. An operation decides them; whoever
//! keeps the accounts carries them out, all of them or none.

use crate::authority::ListingSigner;
use crate::identity::Identity;
use vstd::prelude::*;

verus! {

/// Moves payment currency from one party to another.
#[derive(Clone, Copy, Debug, PartialEq, Eq)]
pub struct Transfer {
    pub from: Identity,
    pub to: Identity,
    pub lamports: u64,
}

/// Moves units of an asset from the holding account of `from`, who signs,
/// into the custody vault of `authority`.
#[derive(Clone, Copy, Debug, PartialEq, Eq)]
pub struct Deposit {
    /// The owner of the holding account that is debited.
    pub from: Identity,
    /// The authority whose vault is credited.
    pub authority: Identity,
    /// The asset that moves.
    pub mint: Identity,
    /// How many units move.
    pub amount: u64,
    /// The decimals of the asset, which the amount is checked against.
    pub decimals: u8,
}

/// Moves units of an asset out of the custody vault of `authority` into the
/// holding account of `to`, in the authority's name.
#[derive(Clone, Copy, Debug, PartialEq, Eq)]
pub struct TransferChecked {
    /// The authority whose vault is debited.
    pub authority: Identity,
    /// The owner of the holding account that is credited.
    pub to: Identity,
    /// The asset that moves.
    pub mint: Identity,
    /// How many units move.
    pub amount: u64,
    /// The decimals of the asset, which the amount is checked against.
    pub decimals: u8,
    /// The derivation inputs that stand for the authority's signature.
    pub signer: ListingSigner,
}

/// Closes the custody vault of `authority` and returns its storage allowance
/// to `destination`, in the authority's name.
#[derive(Clone, Copy, Debug, PartialEq, Eq)]
pub struct CloseAccount {
    /// The authority whose vault is closed.
    pub authority: Identity,
    /// The asset the vault was for.
    pub mint: Identity,
    /// Who receives the storage allowance.
    pub destination: Identity,
    /// The derivation inputs that stand for the authority's signature.
    pub signer: ListingSigner,
}

/// Closes a listing record and returns its storage allowance to
/// `destination`.
#[derive(Clone, Copy, Debug, PartialEq, Eq)]
pub struct CloseListing {
    /// The marketplace the listing is on.
    pub marketplace: Identity,
    /// The asset the listing was for.
    pub mint: Identity,
    /// Who receives the storage allowance.
    pub destination: Identity,
}

/// What a completed purchase has carried out.
#[derive(Clone, Copy, Debug, PartialEq, Eq)]
pub struct Sale {
    /// The payment of the proceeds to the seller.
    pub to_maker: Transfer,
    /// The payment of the fee to the treasury.
    pub to_treasury: Transfer,
    /// The release of the asset to the buyer.
    pub release: TransferChecked,
    /// The closing of the vault.
    pub close_vault: CloseAccount,
    /// The closing of the listing record.
    pub close_listing: CloseListing,
}

/// What a completed cancellation has carried out.
#[derive(Clone, Copy, Debug, PartialEq, Eq)]
pub struct Cancellation {
    /// The return of the asset to the seller.
    pub release: TransferChecked,
    /// The closing of the vault.
    pub close_vault: CloseAccount,
    /// The closing of the listing record.
    pub close_listing: CloseListing,
}

} // verus!
