//! List: the seller puts an asset up for sale, and the asset moves into a
//! custody vault.

use crate::authority::ListingSigner;
use crate::error::MarketplaceError;
use crate::identity::Identity;
use crate::instruction::Deposit;
use crate::state::{Listing, Marketplace, Mint, TokenAccount};
use vstd::prelude::*;

verus! {

/// What a listing reads: the seller with the holding account the asset comes
/// from, the marketplace, the asset, the price, and the custody authority
/// with the bump that re-derives it.
#[derive(Debug)]
pub struct List<'a> {
    /// The seller.
    pub maker: Identity,
    /// The marketplace the asset is listed on.
    pub marketplace: &'a Marketplace,
    /// The asset to list.
    pub maker_mint: Mint,
    /// The holding account the asset is taken from.
    pub maker_ata: TokenAccount,
    /// The price asked.
    pub price: u64,
    /// The authority the vault will stand under.
    pub authority: Identity,
    /// The bump that re-derives the authority.
    pub bump: u8,
}

impl<'a> List<'a> {
    /// The derivation inputs that have to yield the custody authority.
    pub open spec fn spec_signer(self) -> ListingSigner {
        ListingSigner {
            marketplace: self.marketplace.key,
            mint: self.maker_mint.key,
            bump: self.bump,
        }
    }

    /// Which failure, if any, the accounts give rise to under `program`: first
    /// a marketplace record that is not valid or not at its derived identity,
    /// then an authority that the derivation inputs do not yield.
    pub open spec fn spec_check_accounts(self, program: Identity) -> Result<(), MarketplaceError> {
        match self.marketplace.spec_check_address(program) {
            Err(e) => Err(e),
            Ok(_) => if !self.spec_signer().authorizes(program, self.authority) {
                Err(MarketplaceError::AuthorityMismatch)
            } else {
                Ok(())
            },
        }
    }

    /// Whether the holding account is the seller's account for the asset and
    /// holds a unit of it.
    pub open spec fn funded(self) -> bool {
        &&& self.maker_ata.owner == self.maker
        &&& self.maker_ata.mint == self.maker_mint.key
        &&& self.maker_ata.amount >= 1
    }

    /// Which failure, if any, keeps the asset from being listed: a seller
    /// who does not hold a unit of the asset.
    pub open spec fn spec_check(self) -> Result<(), MarketplaceError> {
        if !self.funded() {
            Err(MarketplaceError::InsufficientAssetBalance)
        } else {
            Ok(())
        }
    }

    /// The listing record to create.
    pub open spec fn spec_create_listing(self) -> Result<Listing, MarketplaceError> {
        match self.spec_check() {
            Err(e) => Err(e),
            Ok(_) => Ok(
                Listing {
                    maker: self.maker,
                    mint: self.maker_mint.key,
                    price: self.price,
                    bump: self.bump,
                },
            ),
        }
    }

    /// The funding of the vault: one unit from the seller.
    pub open spec fn spec_deposit_nft(self) -> Result<Deposit, MarketplaceError> {
        match self.spec_check() {
            Err(e) => Err(e),
            Ok(_) => Ok(
                Deposit {
                    from: self.maker,
                    authority: self.authority,
                    mint: self.maker_mint.key,
                    amount: 1,
                    decimals: self.maker_mint.decimals,
                },
            ),
        }
    }

    /// The derivation inputs that have to yield the custody authority.
    pub fn signer(&self) -> (res: ListingSigner)
        ensures
            res == self.spec_signer(),
    {
        ListingSigner {
            marketplace: self.marketplace.key,
            mint: self.maker_mint.key,
            bump: self.bump,
        }
    }

    /// Checks the accounts against the addresses they have to be at under
    /// `program`: the marketplace against name and bump, and the custody
    /// authority against the derivation inputs.
    pub fn check_accounts(&self, program: &Identity) -> (res: Result<(), MarketplaceError>)
        ensures
            res == self.spec_check_accounts(*program),
    {
        self.marketplace.check_address(program)?;
        if !self.signer().signs_for(program, &self.authority) {
            Err(MarketplaceError::AuthorityMismatch)
        } else {
            Ok(())
        }
    }

    /// Checks the holding account against seller and asset.
    pub fn check(&self) -> (res: Result<(), MarketplaceError>)
        ensures
            res == self.spec_check(),
    {
        if !(self.maker_ata.owner.same(&self.maker) && self.maker_ata.mint.same(
            &self.maker_mint.key,
        ) && self.maker_ata.amount >= 1) {
            Err(MarketplaceError::InsufficientAssetBalance)
        } else {
            Ok(())
        }
    }

    /// Decides the listing record: the seller as its owner, the asset, the
    /// price as asked, and the bump of the custody authority. Fails for a
    /// seller who does not hold a unit of the asset.
    pub fn create_listing(&self) -> (res: Result<Listing, MarketplaceError>)
        ensures
            res == self.spec_create_listing(),
    {
        self.check()?;
        Ok(
            Listing {
                maker: self.maker,
                mint: self.maker_mint.key,
                price: self.price,
                bump: self.bump,
            },
        )
    }

    /// Decides the funding of the vault: exactly one unit leaves the seller's
    /// holding account for the vault under the custody authority. Fails as
    /// [`List::create_listing`] does.
    pub fn deposit_nft(&self) -> (res: Result<Deposit, MarketplaceError>)
        ensures
            res == self.spec_deposit_nft(),
    {
        self.check()?;
        Ok(
            Deposit {
                from: self.maker,
                authority: self.authority,
                mint: self.maker_mint.key,
                amount: 1,
                decimals: self.maker_mint.decimals,
            },
        )
    }
}

} // verus!
