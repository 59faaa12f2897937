//! Purchase: the buyer pays the seller and the treasury, the vault releases
//! the asset to the buyer, and vault and listing are closed.

use crate::authority::ListingSigner;
use crate::error::MarketplaceError;
use crate::fees::{spec_split_price, split_price};
use crate::identity::Identity;
use crate::instruction::{CloseAccount, CloseListing, Transfer, TransferChecked};
use crate::state::{check_vault, vault_matches, Listing, Marketplace, Mint, TokenAccount};
use vstd::prelude::*;

verus! {

/// What a purchase reads: the buyer, the marketplace, the asset, and the
/// listing with its vault.
#[derive(Debug)]
pub struct Purchase<'a> {
    /// The buyer.
    pub taker: Identity,
    /// The marketplace the asset is listed on.
    pub marketplace: &'a Marketplace,
    /// The asset for sale.
    pub maker_mint: Mint,
    /// The listing that is bought.
    pub listing: Listing,
    /// The vault that holds the asset.
    pub vault: TokenAccount,
}

impl<'a> Purchase<'a> {
    /// The derivation inputs that authorize in the name of the vault's
    /// authority.
    pub open spec fn spec_signer(self) -> ListingSigner {
        ListingSigner {
            marketplace: self.marketplace.key,
            mint: self.maker_mint.key,
            bump: self.listing.bump,
        }
    }

    /// The two payments of a purchase: the proceeds to the seller, then the
    /// fee to the treasury.
    pub open spec fn spec_send_sol(self) -> Result<(Transfer, Transfer), MarketplaceError> {
        match spec_split_price(self.listing.price, self.marketplace.fee) {
            Err(e) => Err(e),
            Ok(payment) => Ok(
                (
                    Transfer {
                        from: self.taker,
                        to: self.listing.maker,
                        lamports: payment.proceeds,
                    },
                    Transfer {
                        from: self.taker,
                        to: self.marketplace.treasury,
                        lamports: payment.fee,
                    },
                ),
            ),
        }
    }

    /// The release of the asset: one unit from the vault to the buyer.
    pub open spec fn spec_send_nft(self) -> Result<TransferChecked, MarketplaceError> {
        if !vault_matches(self.listing, self.vault, self.maker_mint) || self.vault.amount != 1 {
            Err(MarketplaceError::VaultCorrupted)
        } else {
            Ok(
                TransferChecked {
                    authority: self.vault.owner,
                    to: self.taker,
                    mint: self.maker_mint.key,
                    amount: 1,
                    decimals: self.maker_mint.decimals,
                    signer: self.spec_signer(),
                },
            )
        }
    }

    /// The closing of the vault, to the benefit of the seller.
    pub open spec fn spec_close_vault(self) -> Result<CloseAccount, MarketplaceError> {
        if !vault_matches(self.listing, self.vault, self.maker_mint) {
            Err(MarketplaceError::VaultCorrupted)
        } else {
            Ok(
                CloseAccount {
                    authority: self.vault.owner,
                    mint: self.maker_mint.key,
                    destination: self.listing.maker,
                    signer: self.spec_signer(),
                },
            )
        }
    }

    /// The closing of the listing record, to the benefit of the seller.
    pub open spec fn spec_close_listing(self) -> Result<CloseListing, MarketplaceError> {
        if !vault_matches(self.listing, self.vault, self.maker_mint) {
            Err(MarketplaceError::VaultCorrupted)
        } else {
            Ok(
                CloseListing {
                    marketplace: self.marketplace.key,
                    mint: self.maker_mint.key,
                    destination: self.listing.maker,
                },
            )
        }
    }

    /// Which failure, if any, the accounts give rise to under `program`: first
    /// a marketplace record that is not valid, or whose identity, treasury or
    /// reward asset is not the derived one, then a vault whose authority the
    /// listing's derivation inputs do not yield.
    pub open spec fn spec_check_accounts(self, program: Identity) -> Result<(), MarketplaceError> {
        match self.marketplace.spec_check_addresses(program) {
            Err(e) => Err(e),
            Ok(_) => if !self.spec_signer().authorizes(program, self.vault.owner) {
                Err(MarketplaceError::AuthorityMismatch)
            } else {
                Ok(())
            },
        }
    }

    /// The derivation inputs to present for the vault's authority.
    pub fn signer(&self) -> (res: ListingSigner)
        ensures
            res == self.spec_signer(),
    {
        ListingSigner {
            marketplace: self.marketplace.key,
            mint: self.maker_mint.key,
            bump: self.listing.bump,
        }
    }

    /// Checks the accounts against the addresses they have to be at under
    /// `program`: the marketplace, its treasury and its reward asset against
    /// their bumps, and the authority of the vault against the listing's
    /// derivation inputs.
    pub fn check_accounts(&self, program: &Identity) -> (res: Result<(), MarketplaceError>)
        ensures
            res == self.spec_check_accounts(*program),
    {
        self.marketplace.check_addresses(program)?;
        if !self.signer().signs_for(program, &self.vault.owner) {
            Err(MarketplaceError::AuthorityMismatch)
        } else {
            Ok(())
        }
    }

    /// Decides the payments: the fee is the marketplace's rate applied to the
    /// listed price, rounded down, and goes from the buyer to the treasury;
    /// the rest of the price goes from the buyer to the seller. Fails when
    /// the amounts cannot be computed without overflow.
    pub fn send_sol(&self) -> (res: Result<(Transfer, Transfer), MarketplaceError>)
        ensures
            res == self.spec_send_sol(),
            res matches Ok((to_maker, to_treasury)) ==> {
                &&& to_treasury.lamports + to_maker.lamports == self.listing.price
                &&& to_treasury.lamports == (self.listing.price * self.marketplace.fee) / 10000
                &&& to_maker.from == self.taker && to_maker.to == self.listing.maker
                &&& to_treasury.from == self.taker && to_treasury.to == self.marketplace.treasury
            },
            res matches Err(e) ==> e == MarketplaceError::ArithmeticOverflow,
    {
        let payment = split_price(self.listing.price, self.marketplace.fee)?;
        let to_maker = Transfer {
            from: self.taker,
            to: self.listing.maker,
            lamports: payment.proceeds,
        };
        let to_treasury = Transfer {
            from: self.taker,
            to: self.marketplace.treasury,
            lamports: payment.fee,
        };
        Ok((to_maker, to_treasury))
    }

    /// Decides the release of the asset: exactly one unit leaves the vault
    /// for the buyer's holding account, in the name of the vault's authority.
    /// Fails when the vault is not that of the listing or does not hold
    /// exactly one unit.
    pub fn send_nft(&self) -> (res: Result<TransferChecked, MarketplaceError>)
        ensures
            res == self.spec_send_nft(),
            res matches Ok(release) ==> release.amount == 1 && release.to == self.taker,
            res is Ok <==> vault_matches(self.listing, self.vault, self.maker_mint)
                && self.vault.amount == 1,
    {
        if !check_vault(&self.listing, &self.vault, &self.maker_mint) || self.vault.amount != 1 {
            Err(MarketplaceError::VaultCorrupted)
        } else {
            Ok(
                TransferChecked {
                    authority: self.vault.owner,
                    to: self.taker,
                    mint: self.maker_mint.key,
                    amount: 1,
                    decimals: self.maker_mint.decimals,
                    signer: self.signer(),
                },
            )
        }
    }

    /// Decides the closing of the vault: its storage allowance goes to the
    /// seller, who paid for it, not to the buyer.
    pub fn close_vault(&self) -> (res: Result<CloseAccount, MarketplaceError>)
        ensures
            res == self.spec_close_vault(),
            res matches Ok(close) ==> close.destination == self.listing.maker,
    {
        if !check_vault(&self.listing, &self.vault, &self.maker_mint) {
            Err(MarketplaceError::VaultCorrupted)
        } else {
            Ok(
                CloseAccount {
                    authority: self.vault.owner,
                    mint: self.maker_mint.key,
                    destination: self.listing.maker,
                    signer: self.signer(),
                },
            )
        }
    }

    /// Decides the closing of the listing record: its storage allowance goes
    /// to the seller as well.
    pub fn close_listing(&self) -> (res: Result<CloseListing, MarketplaceError>)
        ensures
            res == self.spec_close_listing(),
    {
        if !check_vault(&self.listing, &self.vault, &self.maker_mint) {
            Err(MarketplaceError::VaultCorrupted)
        } else {
            Ok(
                CloseListing {
                    marketplace: self.marketplace.key,
                    mint: self.maker_mint.key,
                    destination: self.listing.maker,
                },
            )
        }
    }
}

} // verus!
