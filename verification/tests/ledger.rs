use nft_marketplace::authority::derive_listing_authority;
use nft_marketplace::error::MarketplaceError;
use nft_marketplace::identity::Identity;
use nft_marketplace::ledger::Ledger;
use nft_marketplace::state::{Listing, Marketplace, TokenAccount};
use nft_marketplace::{initialize, Initialize};

fn id(byte: u8) -> Identity {
    Identity::new([byte; 32])
}

const PROGRAM: u8 = 9;
const SELLER: u8 = 20;
const BUYER: u8 = 30;
const ASSET: u8 = 40;

fn market_named(name: &str, fee: u16) -> Marketplace {
    initialize(&Initialize { program: id(PROGRAM), admin: id(1), name: name.to_string(), fee })
        .unwrap()
}

fn market(fee: u16) -> Marketplace {
    market_named("shop", fee)
}

/// A ledger in which the seller holds the asset and the buyer has `funds`.
fn ledger(funds: u64) -> Ledger {
    let mut ledger = Ledger::new(id(PROGRAM));
    ledger.deposit_asset(&id(SELLER), &id(ASSET)).unwrap();
    ledger.deposit(&id(BUYER), funds).unwrap();
    ledger
}

fn custody_holds(ledger: &Ledger, market: &Marketplace, mint: &Identity) -> bool {
    let listed = ledger.listing(&market.key, mint).is_some();
    let units = ledger.vault(&market.key, mint).map(|vault| vault.amount).unwrap_or(0);
    listed == (units == 1)
}

#[test]
fn new_ledger_is_empty() {
    let ledger = Ledger::new(id(PROGRAM));
    assert_eq!(ledger.program(), id(PROGRAM));
    assert_eq!(ledger.funds(&id(BUYER)), 0);
    assert_eq!(ledger.units(&id(SELLER), &id(ASSET)), 0);
    assert_eq!(ledger.listing(&id(1), &id(ASSET)), None);
    assert_eq!(ledger.vault(&id(1), &id(ASSET)), None);
}

#[test]
fn deposits_add_up() {
    let mut ledger = Ledger::new(id(PROGRAM));
    assert_eq!(ledger.deposit(&id(BUYER), 5), Ok(()));
    assert_eq!(ledger.deposit(&id(BUYER), 7), Ok(()));
    assert_eq!(ledger.funds(&id(BUYER)), 12);
    assert_eq!(ledger.deposit(&id(BUYER), u64::MAX), Err(MarketplaceError::ArithmeticOverflow));
    assert_eq!(ledger.funds(&id(BUYER)), 12);
    assert_eq!(ledger.deposit_asset(&id(SELLER), &id(ASSET)), Ok(()));
    assert_eq!(ledger.deposit_asset(&id(SELLER), &id(ASSET)), Ok(()));
    assert_eq!(ledger.units(&id(SELLER), &id(ASSET)), 2);
    assert_eq!(ledger.units(&id(SELLER), &id(41)), 0);
}

#[test]
fn initialize_derives_the_marketplace() {
    let market = market(250);
    assert_eq!(market.admin, id(1));
    assert_eq!(market.name, "shop");
    assert_eq!(market.fee, 250);
    assert_eq!(market.validate(), Ok(()));
    assert_ne!(market.key, market.treasury);
    assert_ne!(market.key, market.reward_mint);
    assert_ne!(market.treasury, market.reward_mint);
    let again = market_named("shop", 100);
    assert_eq!(again.key, market.key);
    assert_eq!(again.treasury, market.treasury);
    let other = market_named("stall", 250);
    assert_ne!(other.key, market.key);
}

#[test]
fn initialize_rejects_an_overlong_name() {
    let request =
        |name: String, fee| Initialize { program: id(PROGRAM), admin: id(1), name, fee };
    assert!(initialize(&request("a".repeat(32), 250)).is_ok());
    assert_eq!(
        initialize(&request("a".repeat(33), 250)).unwrap_err(),
        MarketplaceError::NameTooLong
    );
    assert_eq!(
        initialize(&request("a".repeat(33), 10_001)).unwrap_err(),
        MarketplaceError::NameTooLong
    );
}

#[test]
fn initialize_rejects_a_fee_above_the_whole_price() {
    let request = |fee| Initialize {
        program: id(PROGRAM),
        admin: id(1),
        name: "shop".to_string(),
        fee,
    };
    assert!(initialize(&request(10_000)).is_ok());
    assert_eq!(initialize(&request(10_001)).unwrap_err(), MarketplaceError::InvalidFee);
}

#[test]
fn list_moves_the_asset_into_a_vault() {
    let market = market(250);
    let mut ledger = ledger(0);
    assert_eq!(ledger.list(&market, &id(SELLER), &id(ASSET), 1_000), Ok(()));
    let (authority, bump) =
        derive_listing_authority(&id(PROGRAM), &market.key, &id(ASSET)).unwrap();
    assert_eq!(
        ledger.listing(&market.key, &id(ASSET)),
        Some(Listing { maker: id(SELLER), mint: id(ASSET), price: 1_000, bump })
    );
    assert_eq!(
        ledger.vault(&market.key, &id(ASSET)),
        Some(TokenAccount { owner: authority, mint: id(ASSET), amount: 1 })
    );
    assert_eq!(ledger.units(&id(SELLER), &id(ASSET)), 0);
    assert!(custody_holds(&ledger, &market, &id(ASSET)));
}

#[test]
fn list_with_name_of_maximum_length_succeeds() {
    let market = market_named(&"n".repeat(32), 250);
    let mut ledger = ledger(0);
    assert_eq!(ledger.list(&market, &id(SELLER), &id(ASSET), 1_000), Ok(()));
    assert!(ledger.listing(&market.key, &id(ASSET)).is_some());
}

#[test]
fn list_with_name_one_too_long_fails() {
    let mut market = market(250);
    market.name = "n".repeat(33);
    let mut ledger = ledger(0);
    assert_eq!(
        ledger.list(&market, &id(SELLER), &id(ASSET), 1_000),
        Err(MarketplaceError::NameTooLong)
    );
    assert_eq!(ledger.listing(&market.key, &id(ASSET)), None);
    assert_eq!(ledger.vault(&market.key, &id(ASSET)), None);
    assert_eq!(ledger.units(&id(SELLER), &id(ASSET)), 1);
}

#[test]
fn list_with_invalid_fee_fails() {
    let mut market = market(250);
    market.fee = 10_001;
    let mut ledger = ledger(0);
    assert_eq!(
        ledger.list(&market, &id(SELLER), &id(ASSET), 1_000),
        Err(MarketplaceError::InvalidFee)
    );
    assert_eq!(ledger.listing(&market.key, &id(ASSET)), None);
}

#[test]
fn list_needs_the_asset() {
    let market = market(250);
    let mut ledger = ledger(0);
    assert_eq!(
        ledger.list(&market, &id(BUYER), &id(ASSET), 1_000),
        Err(MarketplaceError::InsufficientAssetBalance)
    );
    assert_eq!(
        ledger.list(&market, &id(SELLER), &id(41), 1_000),
        Err(MarketplaceError::InsufficientAssetBalance)
    );
    assert_eq!(ledger.listing(&market.key, &id(ASSET)), None);
    assert_eq!(ledger.units(&id(SELLER), &id(ASSET)), 1);
}

#[test]
fn list_refuses_a_second_listing_of_the_asset() {
    let market = market(250);
    let mut ledger = ledger(0);
    ledger.deposit_asset(&id(BUYER), &id(ASSET)).unwrap();
    assert_eq!(ledger.list(&market, &id(SELLER), &id(ASSET), 1_000), Ok(()));
    assert_eq!(
        ledger.list(&market, &id(BUYER), &id(ASSET), 2_000),
        Err(MarketplaceError::AlreadyListed)
    );
    assert_eq!(ledger.units(&id(BUYER), &id(ASSET)), 1);
    assert_eq!(ledger.listing(&market.key, &id(ASSET)).unwrap().price, 1_000);
}

#[test]
fn same_asset_can_be_listed_on_two_marketplaces() {
    let first = market_named("shop", 250);
    let second = market_named("stall", 100);
    let mut ledger = ledger(0);
    ledger.deposit_asset(&id(SELLER), &id(ASSET)).unwrap();
    assert_eq!(ledger.list(&first, &id(SELLER), &id(ASSET), 1_000), Ok(()));
    assert_eq!(ledger.list(&second, &id(SELLER), &id(ASSET), 2_000), Ok(()));
    assert_ne!(
        ledger.vault(&first.key, &id(ASSET)).unwrap().owner,
        ledger.vault(&second.key, &id(ASSET)).unwrap().owner
    );
}

#[test]
fn list_at_checks_the_presented_authority() {
    let market = market(250);
    let mut ledger = ledger(0);
    let (authority, bump) =
        derive_listing_authority(&id(PROGRAM), &market.key, &id(ASSET)).unwrap();
    assert_eq!(
        ledger.list_at(&market, &id(SELLER), &id(ASSET), 1_000, &id(77), bump),
        Err(MarketplaceError::AuthorityMismatch)
    );
    assert_eq!(
        ledger.list_at(&market, &id(SELLER), &id(ASSET), 1_000, &authority, bump.wrapping_sub(1)),
        Err(MarketplaceError::AuthorityMismatch)
    );
    assert_eq!(ledger.listing(&market.key, &id(ASSET)), None);
    assert_eq!(ledger.units(&id(SELLER), &id(ASSET)), 1);
    assert_eq!(
        ledger.list_at(&market, &id(SELLER), &id(ASSET), 1_000, &authority, bump),
        Ok(())
    );
    assert_eq!(ledger.vault(&market.key, &id(ASSET)).unwrap().owner, authority);
}

#[test]
fn purchase_at_two_and_a_half_percent() {
    let market = market(250);
    let mut ledger = ledger(3_000_000);
    ledger.deposit(&id(SELLER), 10).unwrap();
    ledger.deposit(&market.treasury, 20).unwrap();
    ledger.list(&market, &id(SELLER), &id(ASSET), 1_000_000).unwrap();

    let sale = ledger.purchase(&market, &id(BUYER), &id(ASSET)).unwrap();

    assert_eq!(sale.to_treasury.lamports, 25_000);
    assert_eq!(sale.to_maker.lamports, 975_000);
    assert_eq!(ledger.funds(&id(SELLER)), 10 + 975_000);
    assert_eq!(ledger.funds(&market.treasury), 20 + 25_000);
    assert_eq!(ledger.funds(&id(BUYER)), 3_000_000 - 1_000_000);
    assert_eq!(ledger.units(&id(BUYER), &id(ASSET)), 1);
    assert_eq!(ledger.units(&id(SELLER), &id(ASSET)), 0);
    assert_eq!(ledger.listing(&market.key, &id(ASSET)), None);
    assert_eq!(ledger.vault(&market.key, &id(ASSET)), None);
    assert_eq!(sale.release.to, id(BUYER));
    assert_eq!(sale.close_vault.destination, id(SELLER));
    assert_eq!(sale.close_listing.destination, id(SELLER));
    assert!(custody_holds(&ledger, &market, &id(ASSET)));
}

#[test]
fn purchase_rounds_the_fee_down() {
    let market = market(1);
    let mut ledger = ledger(3);
    ledger.list(&market, &id(SELLER), &id(ASSET), 3).unwrap();
    let sale = ledger.purchase(&market, &id(BUYER), &id(ASSET)).unwrap();
    assert_eq!(sale.to_treasury.lamports, 0);
    assert_eq!(sale.to_maker.lamports, 3);
    assert_eq!(ledger.funds(&id(SELLER)), 3);
    assert_eq!(ledger.funds(&market.treasury), 0);
    assert_eq!(ledger.funds(&id(BUYER)), 0);
}

#[test]
fn purchase_conserves_the_price() {
    let prices: [u64; 4] = [0, 1, 9_999, 1_234_567];
    let rates: [u16; 4] = [0, 1, 250, 10_000];
    for price in prices {
        for rate in rates {
            let market = market(rate);
            let mut ledger = ledger(2_000_000);
            ledger.list(&market, &id(SELLER), &id(ASSET), price).unwrap();
            let sale = ledger.purchase(&market, &id(BUYER), &id(ASSET)).unwrap();
            assert_eq!(sale.to_treasury.lamports + sale.to_maker.lamports, price);
            assert_eq!(sale.to_treasury.lamports, price * (rate as u64) / 10_000);
            assert_eq!(
                ledger.funds(&id(BUYER)) + ledger.funds(&id(SELLER)) + ledger.funds(&market.treasury),
                2_000_000
            );
        }
    }
}

#[test]
fn purchase_needs_the_funds() {
    let market = market(250);
    let mut ledger = ledger(999_999);
    ledger.list(&market, &id(SELLER), &id(ASSET), 1_000_000).unwrap();
    assert_eq!(
        ledger.purchase(&market, &id(BUYER), &id(ASSET)),
        Err(MarketplaceError::InsufficientFunds)
    );
    assert_eq!(ledger.funds(&id(BUYER)), 999_999);
    assert_eq!(ledger.funds(&id(SELLER)), 0);
    assert_eq!(ledger.funds(&market.treasury), 0);
    assert_eq!(ledger.units(&id(BUYER), &id(ASSET)), 0);
    assert!(ledger.listing(&market.key, &id(ASSET)).is_some());
    assert_eq!(ledger.vault(&market.key, &id(ASSET)).unwrap().amount, 1);
}

#[test]
fn purchase_moves_nothing_when_the_fee_cannot_be_paid() {
    let market = market(5_000);
    let mut ledger = ledger(500);
    ledger.deposit(&id(2), 1).unwrap();
    ledger.list(&market, &id(SELLER), &id(ASSET), 1_000).unwrap();
    assert_eq!(
        ledger.purchase(&market, &id(BUYER), &id(ASSET)),
        Err(MarketplaceError::InsufficientFunds)
    );
    assert_eq!(ledger.funds(&id(BUYER)), 500);
    assert_eq!(ledger.funds(&id(SELLER)), 0);
    assert!(custody_holds(&ledger, &market, &id(ASSET)));
    assert!(ledger.listing(&market.key, &id(ASSET)).is_some());
}

#[test]
fn purchase_fails_when_the_fee_overflows() {
    let market = market(250);
    let mut ledger = ledger(u64::MAX);
    ledger.list(&market, &id(SELLER), &id(ASSET), u64::MAX).unwrap();
    assert_eq!(
        ledger.purchase(&market, &id(BUYER), &id(ASSET)),
        Err(MarketplaceError::ArithmeticOverflow)
    );
    assert_eq!(ledger.funds(&id(BUYER)), u64::MAX);
    assert!(ledger.listing(&market.key, &id(ASSET)).is_some());
}

#[test]
fn purchase_fails_when_the_seller_cannot_take_the_proceeds() {
    let market = market(0);
    let mut ledger = ledger(10);
    ledger.deposit(&id(SELLER), u64::MAX - 5).unwrap();
    ledger.list(&market, &id(SELLER), &id(ASSET), 10).unwrap();
    assert_eq!(
        ledger.purchase(&market, &id(BUYER), &id(ASSET)),
        Err(MarketplaceError::ArithmeticOverflow)
    );
    assert_eq!(ledger.funds(&id(BUYER)), 10);
    assert_eq!(ledger.funds(&id(SELLER)), u64::MAX - 5);
    assert_eq!(ledger.units(&id(BUYER), &id(ASSET)), 0);
}

#[test]
fn purchase_of_nothing_finds_no_listing() {
    let market = market(250);
    let mut ledger = ledger(1_000);
    assert_eq!(
        ledger.purchase(&market, &id(BUYER), &id(ASSET)),
        Err(MarketplaceError::ListingNotFound)
    );
    assert_eq!(ledger.funds(&id(BUYER)), 1_000);
}

#[test]
fn seller_may_buy_the_own_listing() {
    let market = market(1_000);
    let mut ledger = ledger(0);
    ledger.deposit(&id(SELLER), 1_000).unwrap();
    ledger.list(&market, &id(SELLER), &id(ASSET), 1_000).unwrap();
    let sale = ledger.purchase(&market, &id(SELLER), &id(ASSET)).unwrap();
    assert_eq!(sale.to_treasury.lamports, 100);
    assert_eq!(ledger.funds(&id(SELLER)), 900);
    assert_eq!(ledger.funds(&market.treasury), 100);
    assert_eq!(ledger.units(&id(SELLER), &id(ASSET)), 1);
}

#[test]
fn delist_returns_the_asset() {
    let market = market(250);
    let mut ledger = ledger(0);
    ledger.list(&market, &id(SELLER), &id(ASSET), 1_000).unwrap();
    let done = ledger.delist(&market, &id(SELLER), &id(ASSET)).unwrap();
    assert_eq!(done.release.to, id(SELLER));
    assert_eq!(done.release.amount, 1);
    assert_eq!(done.close_vault.destination, id(SELLER));
    assert_eq!(done.close_listing.destination, id(SELLER));
    assert_eq!(ledger.units(&id(SELLER), &id(ASSET)), 1);
    assert_eq!(ledger.listing(&market.key, &id(ASSET)), None);
    assert_eq!(ledger.vault(&market.key, &id(ASSET)), None);
    assert!(custody_holds(&ledger, &market, &id(ASSET)));
}

#[test]
fn list_then_delist_restores_the_balance() {
    let market = market(250);
    let mut ledger = ledger(0);
    ledger.deposit_asset(&id(SELLER), &id(ASSET)).unwrap();
    ledger.deposit_asset(&id(SELLER), &id(ASSET)).unwrap();
    let before = ledger.units(&id(SELLER), &id(ASSET));
    ledger.list(&market, &id(SELLER), &id(ASSET), 1_000).unwrap();
    assert_eq!(ledger.units(&id(SELLER), &id(ASSET)), before - 1);
    ledger.delist(&market, &id(SELLER), &id(ASSET)).unwrap();
    assert_eq!(ledger.units(&id(SELLER), &id(ASSET)), before);
    assert_eq!(ledger.listing(&market.key, &id(ASSET)), None);
    assert_eq!(ledger.vault(&market.key, &id(ASSET)), None);
    assert_eq!(ledger.list(&market, &id(SELLER), &id(ASSET), 2_000), Ok(()));
}

#[test]
fn delist_by_another_is_unauthorized() {
    let market = market(250);
    let mut ledger = ledger(1_000);
    ledger.list(&market, &id(SELLER), &id(ASSET), 1_000).unwrap();
    let listing = ledger.listing(&market.key, &id(ASSET));
    let vault = ledger.vault(&market.key, &id(ASSET));
    assert_eq!(
        ledger.delist(&market, &id(BUYER), &id(ASSET)),
        Err(MarketplaceError::Unauthorized)
    );
    assert_eq!(ledger.listing(&market.key, &id(ASSET)), listing);
    assert_eq!(ledger.vault(&market.key, &id(ASSET)), vault);
    assert_eq!(ledger.units(&id(BUYER), &id(ASSET)), 0);
    assert_eq!(ledger.units(&id(SELLER), &id(ASSET)), 0);
    assert_eq!(ledger.funds(&id(BUYER)), 1_000);
}

#[test]
fn delist_of_nothing_finds_no_listing() {
    let market = market(250);
    let mut ledger = ledger(0);
    assert_eq!(
        ledger.delist(&market, &id(SELLER), &id(ASSET)),
        Err(MarketplaceError::ListingNotFound)
    );
    assert_eq!(ledger.units(&id(SELLER), &id(ASSET)), 1);
}

#[test]
fn asset_is_sold_once() {
    let market = market(250);
    let mut ledger = ledger(5_000);
    ledger.deposit(&id(31), 5_000).unwrap();
    ledger.list(&market, &id(SELLER), &id(ASSET), 1_000).unwrap();
    assert!(ledger.purchase(&market, &id(BUYER), &id(ASSET)).is_ok());
    assert_eq!(
        ledger.purchase(&market, &id(31), &id(ASSET)),
        Err(MarketplaceError::ListingNotFound)
    );
    assert_eq!(
        ledger.delist(&market, &id(SELLER), &id(ASSET)),
        Err(MarketplaceError::ListingNotFound)
    );
    assert_eq!(ledger.funds(&id(31)), 5_000);
    assert_eq!(ledger.units(&id(31), &id(ASSET)), 0);
    assert_eq!(ledger.units(&id(SELLER), &id(ASSET)), 0);
    assert_eq!(ledger.units(&id(BUYER), &id(ASSET)), 1);
    assert_eq!(ledger.funds(&id(SELLER)), 975);
}

#[test]
fn cancelled_listing_cannot_be_bought() {
    let market = market(250);
    let mut ledger = ledger(5_000);
    ledger.list(&market, &id(SELLER), &id(ASSET), 1_000).unwrap();
    assert!(ledger.delist(&market, &id(SELLER), &id(ASSET)).is_ok());
    assert_eq!(
        ledger.purchase(&market, &id(BUYER), &id(ASSET)),
        Err(MarketplaceError::ListingNotFound)
    );
    assert_eq!(
        ledger.delist(&market, &id(SELLER), &id(ASSET)),
        Err(MarketplaceError::ListingNotFound)
    );
    assert_eq!(ledger.funds(&id(BUYER)), 5_000);
    assert_eq!(ledger.units(&id(SELLER), &id(ASSET)), 1);
    assert_eq!(ledger.units(&id(BUYER), &id(ASSET)), 0);
}

#[test]
fn buyer_can_list_what_was_bought() {
    let market = market(250);
    let mut ledger = ledger(5_000);
    ledger.list(&market, &id(SELLER), &id(ASSET), 1_000).unwrap();
    ledger.purchase(&market, &id(BUYER), &id(ASSET)).unwrap();
    assert_eq!(ledger.list(&market, &id(BUYER), &id(ASSET), 2_000), Ok(()));
    assert_eq!(ledger.listing(&market.key, &id(ASSET)).unwrap().maker, id(BUYER));
    assert!(custody_holds(&ledger, &market, &id(ASSET)));
}

#[test]
fn listings_are_independent() {
    let market = market(250);
    let mut ledger = ledger(5_000);
    ledger.deposit_asset(&id(21), &id(41)).unwrap();
    ledger.list(&market, &id(SELLER), &id(ASSET), 1_000).unwrap();
    ledger.list(&market, &id(21), &id(41), 2_000).unwrap();
    ledger.purchase(&market, &id(BUYER), &id(ASSET)).unwrap();
    assert_eq!(ledger.listing(&market.key, &id(41)).unwrap().price, 2_000);
    assert_eq!(ledger.vault(&market.key, &id(41)).unwrap().amount, 1);
    assert!(custody_holds(&ledger, &market, &id(ASSET)));
    assert!(custody_holds(&ledger, &market, &id(41)));
    assert_eq!(ledger.delist(&market, &id(21), &id(41)).unwrap().release.to, id(21));
}

#[test]
fn initialized_marketplace_passes_its_checks() {
    let market = market(250);
    assert_eq!(market.check_address(&id(PROGRAM)), Ok(()));
    assert_eq!(market.check_addresses(&id(PROGRAM)), Ok(()));
    assert_eq!(market.check_address(&id(8)), Err(MarketplaceError::AuthorityMismatch));
}

#[test]
fn marketplace_checks_name_and_fee_before_addresses() {
    let mut market = market(250);
    market.key = id(77);
    market.fee = 10_001;
    assert_eq!(market.check_address(&id(PROGRAM)), Err(MarketplaceError::InvalidFee));
    market.name = "n".repeat(33);
    assert_eq!(market.check_addresses(&id(PROGRAM)), Err(MarketplaceError::NameTooLong));
}

#[test]
fn marketplace_with_a_foreign_treasury_fails_its_checks() {
    let mut forged = market(250);
    forged.treasury = id(BUYER);
    assert_eq!(forged.check_address(&id(PROGRAM)), Ok(()));
    assert_eq!(forged.check_addresses(&id(PROGRAM)), Err(MarketplaceError::AuthorityMismatch));
    let mut forged = market(250);
    forged.reward_mint_bump = forged.reward_mint_bump.wrapping_sub(1);
    assert_eq!(forged.check_addresses(&id(PROGRAM)), Err(MarketplaceError::AuthorityMismatch));
}

#[test]
fn list_refuses_a_marketplace_at_a_foreign_identity() {
    let mut forged = market(250);
    forged.key = id(77);
    let mut ledger = ledger(0);
    assert_eq!(
        ledger.list(&forged, &id(SELLER), &id(ASSET), 1_000),
        Err(MarketplaceError::AuthorityMismatch)
    );
    assert_eq!(ledger.listing(&forged.key, &id(ASSET)), None);
    assert_eq!(ledger.units(&id(SELLER), &id(ASSET)), 1);
}

#[test]
fn purchase_refuses_a_foreign_treasury() {
    let market = market(250);
    let mut ledger = ledger(5_000);
    ledger.list(&market, &id(SELLER), &id(ASSET), 1_000).unwrap();
    let mut forged = market_named("shop", 250);
    forged.treasury = id(BUYER);
    assert_eq!(
        ledger.purchase(&forged, &id(BUYER), &id(ASSET)),
        Err(MarketplaceError::AuthorityMismatch)
    );
    assert_eq!(ledger.funds(&id(BUYER)), 5_000);
    assert_eq!(ledger.funds(&id(SELLER)), 0);
    assert!(ledger.listing(&market.key, &id(ASSET)).is_some());
    assert!(ledger.purchase(&market, &id(BUYER), &id(ASSET)).is_ok());
}

#[test]
fn ledger_of_another_program_refuses_the_marketplace() {
    let market = market(250);
    let mut ledger = Ledger::new(id(8));
    ledger.deposit_asset(&id(SELLER), &id(ASSET)).unwrap();
    assert_eq!(
        ledger.list(&market, &id(SELLER), &id(ASSET), 1_000),
        Err(MarketplaceError::AuthorityMismatch)
    );
    assert_eq!(
        ledger.delist(&market, &id(SELLER), &id(ASSET)),
        Err(MarketplaceError::ListingNotFound)
    );
}

#[test]
fn delist_refuses_a_forged_marketplace_record() {
    let market = market(250);
    let mut ledger = ledger(0);
    ledger.list(&market, &id(SELLER), &id(ASSET), 1_000).unwrap();
    let mut forged = market.clone();
    forged.bump = forged.bump.wrapping_sub(1);
    assert_eq!(
        ledger.delist(&forged, &id(SELLER), &id(ASSET)),
        Err(MarketplaceError::AuthorityMismatch)
    );
    forged.name = "n".repeat(33);
    assert_eq!(
        ledger.delist(&forged, &id(SELLER), &id(ASSET)),
        Err(MarketplaceError::NameTooLong)
    );
    assert_eq!(
        ledger.delist(&forged, &id(BUYER), &id(ASSET)),
        Err(MarketplaceError::Unauthorized)
    );
    assert_eq!(ledger.units(&id(SELLER), &id(ASSET)), 0);
    assert!(ledger.listing(&market.key, &id(ASSET)).is_some());
    assert!(ledger.delist(&market, &id(SELLER), &id(ASSET)).is_ok());
}

#[test]
fn holdings_of_others_are_left_alone() {
    let market = market(250);
    let mut ledger = ledger(5_000);
    ledger.deposit_asset(&id(21), &id(ASSET)).unwrap();
    ledger.deposit_asset(&id(SELLER), &id(41)).unwrap();
    ledger.deposit(&id(21), 77).unwrap();
    ledger.list(&market, &id(SELLER), &id(ASSET), 1_000).unwrap();
    ledger.purchase(&market, &id(BUYER), &id(ASSET)).unwrap();
    assert_eq!(ledger.units(&id(21), &id(ASSET)), 1);
    assert_eq!(ledger.units(&id(SELLER), &id(41)), 1);
    assert_eq!(ledger.funds(&id(21)), 77);
}
