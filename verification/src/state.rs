//! The records of the marketplace: its configuration, a listing, and the
//! accounts that hold payment currency and assets.

use crate::authority::{
    check_derivation, marketplace_seeds, rederives, reward_seeds, spec_marketplace_seeds,
    spec_reward_seeds, spec_treasury_seeds, treasury_seeds, MAX_SEED_LEN,
};
use crate::error::MarketplaceError;
use crate::identity::Identity;
use vstd::prelude::*;

verus! {

/// The most bytes a marketplace name may have: it is a derivation seed.
pub const MAX_NAME_LEN: usize = MAX_SEED_LEN;

/// The highest fee rate, in basis points: the whole price.
pub const MAX_FEE_BPS: u16 = 10000;

/// The configuration of one marketplace. It is created once and only read
/// afterwards; every operation is handed the record it works under.
#[derive(Debug)]
pub struct Marketplace {
    /// Who set the marketplace up.
    pub admin: Identity,
    /// The identity of the marketplace, derived from its name.
    pub key: Identity,
    /// The fee rate in basis points.
    pub fee: u16,
    /// The bump that re-derives `key`.
    pub bump: u8,
    /// Where collected fees go.
    pub treasury: Identity,
    /// The bump that re-derives `treasury`.
    pub treasury_bump: u8,
    /// The asset that rewards are paid in.
    pub reward_mint: Identity,
    /// The bump that re-derives `reward_mint`.
    pub reward_mint_bump: u8,
    /// The human-readable name.
    pub name: String,
}

impl Clone for Marketplace {
    fn clone(&self) -> (res: Marketplace)
        ensures
            res == *self,
    {
        Marketplace {
            admin: self.admin,
            key: self.key,
            fee: self.fee,
            bump: self.bump,
            treasury: self.treasury,
            treasury_bump: self.treasury_bump,
            reward_mint: self.reward_mint,
            reward_mint_bump: self.reward_mint_bump,
            name: self.name.clone(),
        }
    }
}

impl Marketplace {
    /// The name as the bytes that enter a derivation.
    pub open spec fn name_bytes(self) -> Seq<u8> {
        vstd::utf8::encode_utf8(self.name@)
    }

    /// Which failure, if any, the record itself gives rise to: first an
    /// overlong name, then a fee rate above the whole price.
    pub open spec fn spec_validate(self) -> Result<(), MarketplaceError> {
        if self.name_bytes().len() > MAX_NAME_LEN {
            Err(MarketplaceError::NameTooLong)
        } else if self.fee > MAX_FEE_BPS {
            Err(MarketplaceError::InvalidFee)
        } else {
            Ok(())
        }
    }

    /// Whether name and bump derive the identity of the marketplace under
    /// `program`.
    pub open spec fn located(self, program: Identity) -> bool {
        rederives(spec_marketplace_seeds(self.name_bytes()), self.bump, program, self.key)
    }

    /// Whether the identity of the marketplace and the treasury's bump derive
    /// the treasury under `program`.
    pub open spec fn treasury_located(self, program: Identity) -> bool {
        rederives(spec_treasury_seeds(self.key.bytes@), self.treasury_bump, program, self.treasury)
    }

    /// Whether the identity of the marketplace and the reward asset's bump
    /// derive the reward asset under `program`.
    pub open spec fn reward_located(self, program: Identity) -> bool {
        rederives(
            spec_reward_seeds(self.key.bytes@),
            self.reward_mint_bump,
            program,
            self.reward_mint,
        )
    }

    /// Which failure, if any, keeps an operation under `program` from
    /// relying on the identity of the marketplace: first what the record
    /// itself gives rise to, then an identity that name and bump do not
    /// derive.
    pub open spec fn spec_check_address(self, program: Identity) -> Result<(), MarketplaceError> {
        match self.spec_validate() {
            Err(e) => Err(e),
            Ok(_) => if !self.located(program) {
                Err(MarketplaceError::AuthorityMismatch)
            } else {
                Ok(())
            },
        }
    }

    /// Which failure, if any, keeps an operation under `program` from
    /// relying on the identity of the marketplace, its treasury and its
    /// reward asset: first what keeps it from relying on the identity, then
    /// a treasury or a reward asset that its bump does not derive.
    pub open spec fn spec_check_addresses(self, program: Identity) -> Result<(), MarketplaceError> {
        match self.spec_check_address(program) {
            Err(e) => Err(e),
            Ok(_) => if !self.treasury_located(program) || !self.reward_located(program) {
                Err(MarketplaceError::AuthorityMismatch)
            } else {
                Ok(())
            },
        }
    }

    /// Checks the record before an operation relies on it.
    pub fn validate(&self) -> (res: Result<(), MarketplaceError>)
        ensures
            res == self.spec_validate(),
    {
        if self.name.as_str().as_bytes().len() > MAX_NAME_LEN {
            Err(MarketplaceError::NameTooLong)
        } else if self.fee > MAX_FEE_BPS {
            Err(MarketplaceError::InvalidFee)
        } else {
            Ok(())
        }
    }

    /// Checks the record, and the identity of the marketplace against name
    /// and bump, before an operation under `program` relies on them.
    pub fn check_address(&self, program: &Identity) -> (res: Result<(), MarketplaceError>)
        ensures
            res == self.spec_check_address(*program),
    {
        self.validate()?;
        if !check_derivation(marketplace_seeds(self.name.as_str()), self.bump, program, &self.key) {
            Err(MarketplaceError::AuthorityMismatch)
        } else {
            Ok(())
        }
    }

    /// Checks the record, and the identity of the marketplace, its treasury
    /// and its reward asset against their bumps, before an operation under
    /// `program` relies on them.
    pub fn check_addresses(&self, program: &Identity) -> (res: Result<(), MarketplaceError>)
        ensures
            res == self.spec_check_addresses(*program),
    {
        self.check_address(program)?;
        if !check_derivation(treasury_seeds(&self.key), self.treasury_bump, program, &self.treasury)
            || !check_derivation(
            reward_seeds(&self.key),
            self.reward_mint_bump,
            program,
            &self.reward_mint,
        ) {
            Err(MarketplaceError::AuthorityMismatch)
        } else {
            Ok(())
        }
    }
}

/// The escrow record of one asset for sale.
#[derive(Clone, Copy, Debug, PartialEq, Eq)]
pub struct Listing {
    /// The seller, who alone may cancel.
    pub maker: Identity,
    /// The asset under escrow.
    pub mint: Identity,
    /// The price, in units of the payment currency.
    pub price: u64,
    /// The bump that re-derives the custody authority.
    pub bump: u8,
}

/// An asset: its identity and the number of decimals its amounts carry.
#[derive(Clone, Copy, Debug, PartialEq, Eq)]
pub struct Mint {
    pub key: Identity,
    pub decimals: u8,
}

/// An account that holds units of one asset for one owner. A custody vault is
/// such an account, owned by a derived authority.
#[derive(Clone, Copy, Debug, PartialEq, Eq)]
pub struct TokenAccount {
    pub owner: Identity,
    pub mint: Identity,
    pub amount: u64,
}

/// A listing together with the vault that holds its asset. The two are
/// created together and closed together.
#[derive(Clone, Copy, Debug, PartialEq, Eq)]
pub struct Escrow {
    pub listing: Listing,
    pub vault: TokenAccount,
}

/// Whether `vault` is the vault of `listing` for the asset `mint`, as far as
/// the records tell.
pub open spec fn vault_matches(listing: Listing, vault: TokenAccount, mint: Mint) -> bool {
    listing.mint == mint.key && vault.mint == mint.key
}

/// Checks that `vault` is the vault of `listing` for the asset `mint`.
pub fn check_vault(listing: &Listing, vault: &TokenAccount, mint: &Mint) -> (res: bool)
    ensures
        res == vault_matches(*listing, *vault, *mint),
{
    listing.mint.same(&mint.key) && vault.mint.same(&mint.key)
}

} // verus!
