//! The failures an operation of the marketplace can report.

use vstd::prelude::*;

verus! {

/// Why an operation was rejected. Every operation is all-or-nothing: when one
/// of these comes back, nothing has been changed.
#[derive(Clone, Copy, Debug, PartialEq, Eq, Structural)]
pub enum MarketplaceError {
    /// The marketplace name is longer than a derivation seed may be.
    NameTooLong,
    /// The fee rate is above one hundred percent.
    InvalidFee,
    /// No verification value yields a keyless authority for the given inputs.
    DerivationFailed,
    /// The buyer cannot cover the amount to be paid.
    InsufficientFunds,
    /// The seller does not hold a unit of the asset.
    InsufficientAssetBalance,
    /// The asset is already listed on this marketplace.
    AlreadyListed,
    /// The caller is not the recorded owner of the listing.
    Unauthorized,
    /// The presented derivation inputs do not yield the custody authority.
    AuthorityMismatch,
    /// An amount does not fit the integer type that carries it.
    ArithmeticOverflow,
    /// No listing is recorded for the marketplace and asset.
    ListingNotFound,
    /// The custody vault does not hold exactly one unit of the listed asset.
    VaultCorrupted,
}

/// The class of a failure, by what the caller can conclude from it.
#[derive(Clone, Copy, Debug, PartialEq, Eq, Structural)]
pub enum ErrorKind {
    /// The request itself cannot be served as given.
    Validation,
    /// The caller, or the presented authority, is not the required one.
    Authorization,
    /// Computing an amount left the range of its type.
    Arithmetic,
    /// A record is missing or contradicts the custody invariant.
    ResourceState,
}

impl MarketplaceError {
    /// The class each failure belongs to.
    pub open spec fn spec_kind(self) -> ErrorKind {
        match self {
            MarketplaceError::NameTooLong => ErrorKind::Validation,
            MarketplaceError::InvalidFee => ErrorKind::Validation,
            MarketplaceError::DerivationFailed => ErrorKind::Validation,
            MarketplaceError::InsufficientFunds => ErrorKind::Validation,
            MarketplaceError::InsufficientAssetBalance => ErrorKind::Validation,
            MarketplaceError::AlreadyListed => ErrorKind::Validation,
            MarketplaceError::Unauthorized => ErrorKind::Authorization,
            MarketplaceError::AuthorityMismatch => ErrorKind::Authorization,
            MarketplaceError::ArithmeticOverflow => ErrorKind::Arithmetic,
            MarketplaceError::ListingNotFound => ErrorKind::ResourceState,
            MarketplaceError::VaultCorrupted => ErrorKind::ResourceState,
        }
    }

    /// The text shown to a user for each failure.
    pub open spec fn spec_message(self) -> Seq<char> {
        match self {
            MarketplaceError::NameTooLong => "name is too long"@,
            MarketplaceError::InvalidFee => "fee exceeds the whole price"@,
            MarketplaceError::DerivationFailed => "no custody authority can be derived"@,
            MarketplaceError::InsufficientFunds => "insufficient funds"@,
            MarketplaceError::InsufficientAssetBalance => "seller does not hold the asset"@,
            MarketplaceError::AlreadyListed => "asset is already listed"@,
            MarketplaceError::Unauthorized => "caller is not the owner of the listing"@,
            MarketplaceError::AuthorityMismatch => "custody authority does not match"@,
            MarketplaceError::ArithmeticOverflow => "arithmetic overflow"@,
            MarketplaceError::ListingNotFound => "listing not found"@,
            MarketplaceError::VaultCorrupted => "vault does not hold exactly one unit"@,
        }
    }

    /// Classifies the failure.
    pub fn kind(&self) -> (res: ErrorKind)
        ensures
            res == self.spec_kind(),
    {
        match self {
            MarketplaceError::NameTooLong => ErrorKind::Validation,
            MarketplaceError::InvalidFee => ErrorKind::Validation,
            MarketplaceError::DerivationFailed => ErrorKind::Validation,
            MarketplaceError::InsufficientFunds => ErrorKind::Validation,
            MarketplaceError::InsufficientAssetBalance => ErrorKind::Validation,
            MarketplaceError::AlreadyListed => ErrorKind::Validation,
            MarketplaceError::Unauthorized => ErrorKind::Authorization,
            MarketplaceError::AuthorityMismatch => ErrorKind::Authorization,
            MarketplaceError::ArithmeticOverflow => ErrorKind::Arithmetic,
            MarketplaceError::ListingNotFound => ErrorKind::ResourceState,
            MarketplaceError::VaultCorrupted => ErrorKind::ResourceState,
        }
    }

    /// Renders the failure for a user.
    pub fn message(&self) -> (res: String)
        ensures
            res@ == self.spec_message(),
    {
        let text: &str = match self {
            MarketplaceError::NameTooLong => "name is too long",
            MarketplaceError::InvalidFee => "fee exceeds the whole price",
            MarketplaceError::DerivationFailed => "no custody authority can be derived",
            MarketplaceError::InsufficientFunds => "insufficient funds",
            MarketplaceError::InsufficientAssetBalance => "seller does not hold the asset",
            MarketplaceError::AlreadyListed => "asset is already listed",
            MarketplaceError::Unauthorized => "caller is not the owner of the listing",
            MarketplaceError::AuthorityMismatch => "custody authority does not match",
            MarketplaceError::ArithmeticOverflow => "arithmetic overflow",
            MarketplaceError::ListingNotFound => "listing not found",
            MarketplaceError::VaultCorrupted => "vault does not hold exactly one unit",
        };
        text.to_owned()
    }
}

} // verus!
