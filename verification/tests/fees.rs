use nft_marketplace::error::MarketplaceError;
use nft_marketplace::fees::{split_price, Payment, BPS_DENOMINATOR};

#[test]
fn fee_is_rounded_down_at_small_magnitudes() {
    assert_eq!(split_price(3, 1), Ok(Payment { proceeds: 3, fee: 0 }));
}

#[test]
fn fee_of_two_and_a_half_percent() {
    assert_eq!(split_price(1_000_000, 250), Ok(Payment { proceeds: 975_000, fee: 25_000 }));
}

#[test]
fn fee_and_proceeds_add_up_to_the_price() {
    let prices: [u64; 6] = [0, 1, 3, 9_999, 10_001, 123_456_789];
    let rates: [u16; 6] = [0, 1, 250, 3_333, 9_999, 10_000];
    for price in prices {
        for rate in rates {
            let payment = split_price(price, rate).unwrap();
            assert_eq!(payment.fee + payment.proceeds, price);
            assert_eq!(payment.fee, price * (rate as u64) / BPS_DENOMINATOR);
        }
    }
}

#[test]
fn zero_rate_takes_no_fee() {
    assert_eq!(split_price(500, 0), Ok(Payment { proceeds: 500, fee: 0 }));
}

#[test]
fn full_rate_takes_the_whole_price() {
    assert_eq!(split_price(500, 10_000), Ok(Payment { proceeds: 0, fee: 500 }));
}

#[test]
fn zero_price_splits_into_nothing() {
    assert_eq!(split_price(0, 250), Ok(Payment { proceeds: 0, fee: 0 }));
}

#[test]
fn overflowing_product_is_rejected() {
    assert_eq!(split_price(u64::MAX, 2), Err(MarketplaceError::ArithmeticOverflow));
}

#[test]
fn largest_product_that_fits_is_accepted() {
    let price = u64::MAX / 250;
    let payment = split_price(price, 250).unwrap();
    assert_eq!(payment.fee, price * 250 / 10_000);
    assert_eq!(split_price(price + 1, 250), Err(MarketplaceError::ArithmeticOverflow));
}

#[test]
fn fee_above_the_price_is_rejected() {
    assert_eq!(split_price(100, 20_000), Err(MarketplaceError::ArithmeticOverflow));
}
