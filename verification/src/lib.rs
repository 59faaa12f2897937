//! Escrow marketplace for unique assets: a seller locks an asset in a custody
//! vault under a published price, and a buyer pays the seller, less a fee for
//! the treasury, against the release of the asset.

use crate::authority::{
    derive_address, derives, found_address, marketplace_seeds, reward_seeds,
    spec_marketplace_seeds, spec_reward_seeds, spec_treasury_seeds, treasury_seeds,
};
use crate::error::MarketplaceError;
use crate::identity::Identity;
use crate::state::{Marketplace, MAX_FEE_BPS, MAX_NAME_LEN};
use vstd::prelude::*;

pub mod authority;
pub mod context;
pub mod error;
pub mod fees;
pub mod identity;
pub mod instruction;
pub mod laws;
pub mod ledger;
pub mod state;
pub mod table;

verus! {

/// What setting up a marketplace takes.
#[derive(Debug)]
pub struct Initialize {
    /// The program under which every address of the marketplace is derived.
    pub program: Identity,
    /// Who sets the marketplace up.
    pub admin: Identity,
    /// The name of the marketplace.
    pub name: String,
    /// The fee rate in basis points.
    pub fee: u16,
}

impl Initialize {
    /// The name as the bytes that enter a derivation.
    pub open spec fn name_bytes(self) -> Seq<u8> {
        vstd::utf8::encode_utf8(self.name@)
    }

    /// Which failure, if any, the request itself gives rise to: first an
    /// overlong name, then a fee rate above the whole price.
    pub open spec fn spec_check(self) -> Result<(), MarketplaceError> {
        if self.name_bytes().len() > MAX_NAME_LEN {
            Err(MarketplaceError::NameTooLong)
        } else if self.fee > MAX_FEE_BPS {
            Err(MarketplaceError::InvalidFee)
        } else {
            Ok(())
        }
    }

    /// Whether one of the searches for the marketplace's addresses finds
    /// nothing: that for its identity, or, from its identity, that for its
    /// treasury or for its reward asset.
    pub open spec fn derivation_fails(self) -> bool {
        match found_address(spec_marketplace_seeds(self.name_bytes()), self.program.bytes@) {
            None => true,
            Some((key, _)) => {
                ||| found_address(spec_treasury_seeds(key), self.program.bytes@) is None
                ||| found_address(spec_reward_seeds(key), self.program.bytes@) is None
            },
        }
    }

    /// Whether `market` is the record this request sets up.
    pub open spec fn yields(self, market: Marketplace) -> bool {
        &&& market.admin == self.admin
        &&& market.name@ == self.name@
        &&& market.fee == self.fee
        &&& derives(
            spec_marketplace_seeds(self.name_bytes()),
            self.program,
            market.key,
            market.bump,
        )
        &&& derives(
            spec_treasury_seeds(market.key.bytes@),
            self.program,
            market.treasury,
            market.treasury_bump,
        )
        &&& derives(
            spec_reward_seeds(market.key.bytes@),
            self.program,
            market.reward_mint,
            market.reward_mint_bump,
        )
    }
}

/// Sets up a marketplace: checks name and fee rate, and derives the
/// identity of the marketplace from its name, and its treasury and reward
/// asset from that identity.
///
/// A name of more than thirty-two bytes is rejected, then a fee rate above
/// ten thousand basis points. Past these checks the call fails only when a
/// derivation finds no address.
pub fn initialize(ctx: &Initialize) -> (res: Result<Marketplace, MarketplaceError>)
    ensures
        ctx.spec_check() matches Err(e) ==> res == Err::<Marketplace, MarketplaceError>(e),
        ctx.spec_check() is Ok ==> match res {
            Ok(market) => {
                &&& ctx.yields(market)
                &&& market.spec_check_addresses(ctx.program) is Ok
                &&& !ctx.derivation_fails()
            },
            Err(e) => e == MarketplaceError::DerivationFailed && ctx.derivation_fails(),
        },
{
    if ctx.name.as_str().as_bytes().len() > MAX_NAME_LEN {
        return Err(MarketplaceError::NameTooLong);
    }
    if ctx.fee > MAX_FEE_BPS {
        return Err(MarketplaceError::InvalidFee);
    }
    let (key, bump) = derive_address(&marketplace_seeds(ctx.name.as_str()), &ctx.program)?;
    let (treasury, treasury_bump) = derive_address(&treasury_seeds(&key), &ctx.program)?;
    let (reward_mint, reward_mint_bump) = derive_address(&reward_seeds(&key), &ctx.program)?;
    Ok(
        Marketplace {
            admin: ctx.admin,
            key,
            fee: ctx.fee,
            bump,
            treasury,
            treasury_bump,
            reward_mint,
            reward_mint_bump,
            name: ctx.name.clone(),
        },
    )
}

} // verus!
