//! The split of a sale price into the marketplace fee and the seller's proceeds.

use crate::error::MarketplaceError;
use vstd::prelude::*;

verus! {

/// The number of basis points that make up the whole price.
pub const BPS_DENOMINATOR: u64 = 10000;

/// What the buyer pays, by recipient: `proceeds` to the seller, `fee` to the
/// treasury.
#[derive(Clone, Copy, Debug, PartialEq, Eq, Structural)]
pub struct Payment {
    pub proceeds: u64,
    pub fee: u64,
}

/// The fee owed on `price` at a rate of `fee_bps` basis points, rounded down.
pub open spec fn fee_of(price: nat, fee_bps: nat) -> nat {
    (price * fee_bps) / (BPS_DENOMINATOR as nat)
}

/// The split of `price` at `fee_bps` basis points. The product of price and
/// rate has to fit sixty-four bits, and the fee may not exceed the price.
pub open spec fn spec_split_price(price: u64, fee_bps: u16) -> Result<Payment, MarketplaceError> {
    let fee = fee_of(price as nat, fee_bps as nat);
    if price * fee_bps > u64::MAX || fee > price {
        Err(MarketplaceError::ArithmeticOverflow)
    } else {
        Ok(Payment { proceeds: (price - fee) as u64, fee: fee as u64 })
    }
}

/// Splits `price` into the fee, `floor(price * fee_bps / 10000)`, and the
/// proceeds, the rest of the price. Fails rather than wraps.
pub fn split_price(price: u64, fee_bps: u16) -> (res: Result<Payment, MarketplaceError>)
    ensures
        res == spec_split_price(price, fee_bps),
        res matches Ok(payment) ==> {
            &&& payment.fee + payment.proceeds == price
            &&& payment.fee == (price * fee_bps) / 10000
        },
        res matches Err(e) ==> e == MarketplaceError::ArithmeticOverflow,
{
    let rate: u64 = fee_bps as u64;
    match rate.checked_mul(price) {
        None => {
            proof {
                assert(rate * price == price * fee_bps) by (nonlinear_arith)
                    requires
                        rate == fee_bps,
                ;
            }
            Err(MarketplaceError::ArithmeticOverflow)
        },
        Some(product) => {
            proof {
                assert(rate * price == price * fee_bps) by (nonlinear_arith)
                    requires
                        rate == fee_bps,
                ;
            }
            let fee: u64 = product / BPS_DENOMINATOR;
            match price.checked_sub(fee) {
                None => Err(MarketplaceError::ArithmeticOverflow),
                Some(proceeds) => Ok(Payment { proceeds, fee }),
            }
        },
    }
}

/// At a rate of at most one hundred percent the fee never exceeds the price.
pub proof fn lemma_fee_within_price(price: nat, fee_bps: nat)
    requires
        fee_bps <= BPS_DENOMINATOR,
    ensures
        fee_of(price, fee_bps) <= price,
{
    assert(price * fee_bps <= price * 10000) by (nonlinear_arith)
        requires
            fee_bps <= 10000,
    ;
    assert((price * fee_bps) / 10000 <= (price * 10000) / 10000) by (nonlinear_arith)
        requires
            price * fee_bps <= price * 10000,
    ;
    assert((price * 10000) / 10000 == price) by (nonlinear_arith);
}

/// Conservation: whenever a price is split, fee and proceeds add up to the
/// price exactly, and the fee is the rate applied to the price, rounded down.
pub proof fn lemma_split_conserves(price: u64, fee_bps: u16)
    ensures
        spec_split_price(price, fee_bps) matches Ok(payment) ==> {
            &&& payment.fee + payment.proceeds == price
            &&& payment.fee == (price * fee_bps) / 10000
        },
{
}

/// With a valid rate, a split fails exactly when the product of price and
/// rate leaves sixty-four bits.
pub proof fn lemma_split_succeeds(price: u64, fee_bps: u16)
    requires
        fee_bps <= BPS_DENOMINATOR,
    ensures
        spec_split_price(price, fee_bps) is Ok <==> price * fee_bps <= u64::MAX,
{
    lemma_fee_within_price(price as nat, fee_bps as nat);
}

} // verus!
