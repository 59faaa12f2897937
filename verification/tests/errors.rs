use nft_marketplace::error::{ErrorKind, MarketplaceError};

#[test]
fn name_too_long_keeps_its_message() {
    assert_eq!(MarketplaceError::NameTooLong.message(), "name is too long");
}

#[test]
fn every_failure_has_a_message_of_its_own() {
    let all = [
        MarketplaceError::NameTooLong,
        MarketplaceError::InvalidFee,
        MarketplaceError::DerivationFailed,
        MarketplaceError::InsufficientFunds,
        MarketplaceError::InsufficientAssetBalance,
        MarketplaceError::AlreadyListed,
        MarketplaceError::Unauthorized,
        MarketplaceError::AuthorityMismatch,
        MarketplaceError::ArithmeticOverflow,
        MarketplaceError::ListingNotFound,
        MarketplaceError::VaultCorrupted,
    ];
    for (i, a) in all.iter().enumerate() {
        assert!(!a.message().is_empty());
        for b in all.iter().skip(i + 1) {
            assert_ne!(a.message(), b.message());
        }
    }
}

#[test]
fn failures_are_classified() {
    assert_eq!(MarketplaceError::NameTooLong.kind(), ErrorKind::Validation);
    assert_eq!(MarketplaceError::InvalidFee.kind(), ErrorKind::Validation);
    assert_eq!(MarketplaceError::DerivationFailed.kind(), ErrorKind::Validation);
    assert_eq!(MarketplaceError::InsufficientFunds.kind(), ErrorKind::Validation);
    assert_eq!(MarketplaceError::InsufficientAssetBalance.kind(), ErrorKind::Validation);
    assert_eq!(MarketplaceError::AlreadyListed.kind(), ErrorKind::Validation);
    assert_eq!(MarketplaceError::Unauthorized.kind(), ErrorKind::Authorization);
    assert_eq!(MarketplaceError::AuthorityMismatch.kind(), ErrorKind::Authorization);
    assert_eq!(MarketplaceError::ArithmeticOverflow.kind(), ErrorKind::Arithmetic);
    assert_eq!(MarketplaceError::ListingNotFound.kind(), ErrorKind::ResourceState);
    assert_eq!(MarketplaceError::VaultCorrupted.kind(), ErrorKind::ResourceState);
}
