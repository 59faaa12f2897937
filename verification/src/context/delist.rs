//! Delist: the seller cancels, the vault returns the asset, and vault and
//! listing are closed.

use crate::authority::ListingSigner;
use crate::error::MarketplaceError;
use crate::identity::Identity;
use crate::instruction::{CloseAccount, CloseListing, TransferChecked};
use crate::state::{check_vault, vault_matches, Listing, Marketplace, Mint, TokenAccount};
use vstd::prelude::*;

verus! {

/// What a cancellation reads: the caller, the marketplace, the asset, and
/// the listing with its vault.
#[derive(Debug)]
pub struct Delist<'a> {
    /// The caller, who has to be the seller.
    pub maker: Identity,
    /// The marketplace the asset is listed on.
    pub marketplace: &'a Marketplace,
    /// The listed asset.
    pub maker_mint: Mint,
    /// The listing that is cancelled.
    pub listing: Listing,
    /// The vault that holds the asset.
    pub vault: TokenAccount,
}

impl<'a> Delist<'a> {
    /// The derivation inputs that authorize in the name of the vault's
    /// authority.
    pub open spec fn spec_signer(self) -> ListingSigner {
        ListingSigner {
            marketplace: self.marketplace.key,
            mint: self.maker_mint.key,
            bump: self.listing.bump,
        }
    }

    /// Which failure, if any, keeps the caller from touching the vault: first
    /// a caller who is not the recorded owner, then a vault that is not the
    /// listing's.
    pub open spec fn spec_check(self) -> Result<(), MarketplaceError> {
        if self.maker != self.listing.maker {
            Err(MarketplaceError::Unauthorized)
        } else if !vault_matches(self.listing, self.vault, self.maker_mint) {
            Err(MarketplaceError::VaultCorrupted)
        } else {
            Ok(())
        }
    }

    /// The return of the asset: one unit from the vault to the seller.
    pub open spec fn spec_delist(self) -> Result<TransferChecked, MarketplaceError> {
        match self.spec_check() {
            Err(e) => Err(e),
            Ok(_) => if self.vault.amount != 1 {
                Err(MarketplaceError::VaultCorrupted)
            } else {
                Ok(
                    TransferChecked {
                        authority: self.vault.owner,
                        to: self.maker,
                        mint: self.maker_mint.key,
                        amount: 1,
                        decimals: self.maker_mint.decimals,
                        signer: self.spec_signer(),
                    },
                )
            },
        }
    }

    /// The closing of the vault, to the benefit of the seller.
    pub open spec fn spec_close_vault(self) -> Result<CloseAccount, MarketplaceError> {
        match self.spec_check() {
            Err(e) => Err(e),
            Ok(_) => Ok(
                CloseAccount {
                    authority: self.vault.owner,
                    mint: self.maker_mint.key,
                    destination: self.maker,
                    signer: self.spec_signer(),
                },
            ),
        }
    }

    /// The closing of the listing record, to the benefit of the seller.
    pub open spec fn spec_close_listing(self) -> Result<CloseListing, MarketplaceError> {
        match self.spec_check() {
            Err(e) => Err(e),
            Ok(_) => Ok(
                CloseListing {
                    marketplace: self.marketplace.key,
                    mint: self.maker_mint.key,
                    destination: self.maker,
                },
            ),
        }
    }

    /// Which failure, if any, the accounts give rise to under `program`: first
    /// a marketplace record that is not valid or not at its derived identity,
    /// then a vault whose authority the listing's derivation inputs do not
    /// yield.
    pub open spec fn spec_check_accounts(self, program: Identity) -> Result<(), MarketplaceError> {
        match self.marketplace.spec_check_address(program) {
            Err(e) => Err(e),
            Ok(_) => if !self.spec_signer().authorizes(program, self.vault.owner) {
                Err(MarketplaceError::AuthorityMismatch)
            } else {
                Ok(())
            },
        }
    }

    /// The derivation inputs to present for the vault's authority.
    pub fn signer(&self) -> (res: ListingSigner)
        ensures
            res == self.spec_signer(),
    {
        ListingSigner {
            marketplace: self.marketplace.key,
            mint: self.maker_mint.key,
            bump: self.listing.bump,
        }
    }

    /// Checks the accounts against the addresses they have to be at under
    /// `program`: the marketplace against name and bump, and the authority of
    /// the vault against the listing's derivation inputs.
    pub fn check_accounts(&self, program: &Identity) -> (res: Result<(), MarketplaceError>)
        ensures
            res == self.spec_check_accounts(*program),
    {
        self.marketplace.check_address(program)?;
        if !self.signer().signs_for(program, &self.vault.owner) {
            Err(MarketplaceError::AuthorityMismatch)
        } else {
            Ok(())
        }
    }

    /// Checks the caller against the recorded owner, and the vault against
    /// the listing.
    pub fn check(&self) -> (res: Result<(), MarketplaceError>)
        ensures
            res == self.spec_check(),
            self.maker != self.listing.maker ==> res == Err::<(), MarketplaceError>(
                MarketplaceError::Unauthorized,
            ),
    {
        if !self.maker.same(&self.listing.maker) {
            Err(MarketplaceError::Unauthorized)
        } else if !check_vault(&self.listing, &self.vault, &self.maker_mint) {
            Err(MarketplaceError::VaultCorrupted)
        } else {
            Ok(())
        }
    }

    /// Decides the return of the asset: exactly one unit leaves the vault for
    /// the seller's holding account, in the name of the vault's authority and
    /// not of the seller. Fails for a caller other than the recorded owner,
    /// and for a vault that is not the listing's or does not hold exactly one
    /// unit.
    pub fn delist(&self) -> (res: Result<TransferChecked, MarketplaceError>)
        ensures
            res == self.spec_delist(),
            self.maker != self.listing.maker ==> res == Err::<TransferChecked, MarketplaceError>(
                MarketplaceError::Unauthorized,
            ),
            res matches Ok(release) ==> release.amount == 1 && release.to == self.maker,
            res is Ok <==> self.maker == self.listing.maker && vault_matches(
                self.listing,
                self.vault,
                self.maker_mint,
            ) && self.vault.amount == 1,
    {
        self.check()?;
        if self.vault.amount != 1 {
            Err(MarketplaceError::VaultCorrupted)
        } else {
            Ok(
                TransferChecked {
                    authority: self.vault.owner,
                    to: self.maker,
                    mint: self.maker_mint.key,
                    amount: 1,
                    decimals: self.maker_mint.decimals,
                    signer: self.signer(),
                },
            )
        }
    }

    /// Decides the closing of the vault: its storage allowance goes back to
    /// the seller. Fails for a caller other than the recorded owner, and for
    /// a vault that is not the listing's.
    pub fn close_vault(&self) -> (res: Result<CloseAccount, MarketplaceError>)
        ensures
            res == self.spec_close_vault(),
            self.maker != self.listing.maker ==> res == Err::<CloseAccount, MarketplaceError>(
                MarketplaceError::Unauthorized,
            ),
            res matches Ok(close) ==> close.destination == self.maker,
    {
        self.check()?;
        Ok(
            CloseAccount {
                authority: self.vault.owner,
                mint: self.maker_mint.key,
                destination: self.maker,
                signer: self.signer(),
            },
        )
    }

    /// Decides the closing of the listing record: its storage allowance goes
    /// back to the seller. Fails for a caller other than the recorded owner,
    /// and for a vault that is not the listing's.
    pub fn close_listing(&self) -> (res: Result<CloseListing, MarketplaceError>)
        ensures
            res == self.spec_close_listing(),
    {
        self.check()?;
        Ok(
            CloseListing {
                marketplace: self.marketplace.key,
                mint: self.maker_mint.key,
                destination: self.maker,
            },
        )
    }
}

} // verus!
