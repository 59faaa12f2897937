//! What holds of the ledger whatever is done with it.

use crate::error::MarketplaceError;
use crate::fees::{fee_of, lemma_fee_within_price};
use crate::identity::Identity;
use crate::instruction::{Cancellation, Sale, Transfer};
use crate::ledger::{balance_in, spec_pay, LedgerView};
use crate::state::Marketplace;
use crate::table::Slot;
use vstd::prelude::*;

verus! {

/// One step on a ledger.
pub enum Step {
    /// A party receives payment currency from outside.
    Deposit { who: Identity, amount: u64 },
    /// A party receives one unit of an asset from outside.
    DepositAsset { owner: Identity, mint: Identity },
    /// A seller lists an asset.
    List {
        market: Marketplace,
        seller: Identity,
        mint: Identity,
        price: u64,
        authority: Identity,
        bump: u8,
    },
    /// A caller cancels a listing.
    Delist { market: Marketplace, caller: Identity, mint: Identity },
    /// A buyer buys a listed asset.
    Purchase { market: Marketplace, buyer: Identity, mint: Identity },
}

/// The ledger with nothing in it.
pub open spec fn empty_ledger(program: Identity) -> LedgerView {
    LedgerView { program, funds: Map::empty(), holdings: Map::empty(), escrows: Map::empty() }
}

/// The ledger after `step`: a step that fails leaves the ledger as it was.
pub open spec fn after(s: LedgerView, step: Step) -> LedgerView {
    match step {
        Step::Deposit { who, amount } => match s.deposit(who, amount) {
            Ok(t) => t,
            Err(_) => s,
        },
        Step::DepositAsset { owner, mint } => match s.deposit_asset(owner, mint) {
            Ok(t) => t,
            Err(_) => s,
        },
        Step::List { market, seller, mint, price, authority, bump } => match s.list_at(
            market,
            seller,
            mint,
            price,
            authority,
            bump,
        ) {
            Ok(t) => t,
            Err(_) => s,
        },
        Step::Delist { market, caller, mint } => match s.delist(market, caller, mint) {
            Ok((t, _)) => t,
            Err(_) => s,
        },
        Step::Purchase { market, buyer, mint } => match s.purchase(market, buyer, mint) {
            Ok((t, _)) => t,
            Err(_) => s,
        },
    }
}

/// The ledger after `steps`, one after the other, from `s`.
pub open spec fn after_all(s: LedgerView, steps: Seq<Step>) -> LedgerView
    decreases steps.len(),
{
    if steps.len() == 0 {
        s
    } else {
        after(after_all(s, steps.drop_last()), steps.last())
    }
}

/// No step breaks the custody invariant.
pub proof fn lemma_step_keeps_custody(s: LedgerView, step: Step)
    requires
        s.custody_sound(),
    ensures
        after(s, step).custody_sound(),
        after(s, step).program == s.program,
{
}

/// Where custody is sound, a listing exists for a marketplace and an asset
/// if and only if its vault holds exactly one unit of the asset.
pub proof fn lemma_listing_iff_vault(s: LedgerView, marketplace: Identity, mint: Identity)
    requires
        s.custody_sound(),
    ensures
        s.listing(marketplace, mint) is Some <==> s.vault_units(marketplace, mint) == 1,
        s.listing(marketplace, mint) is Some <==> s.vault(marketplace, mint) is Some,
{
    let slot = Slot { holder: marketplace, asset: mint };
    if s.escrows.dom().contains(slot) {
        assert(s.escrows[slot].vault.amount == 1);
    }
}

/// The invariant of custody: in every state that steps lead to from the
/// empty ledger, a listing exists for a marketplace and an asset if and only
/// if its vault holds exactly one unit of that asset.
pub proof fn lemma_reachable_custody(
    program: Identity,
    steps: Seq<Step>,
    marketplace: Identity,
    mint: Identity,
)
    ensures
        after_all(empty_ledger(program), steps).custody_sound(),
        after_all(empty_ledger(program), steps).listing(marketplace, mint) is Some <==> after_all(
            empty_ledger(program),
            steps,
        ).vault_units(marketplace, mint) == 1,
    decreases steps.len(),
{
    if steps.len() > 0 {
        lemma_reachable_custody(program, steps.drop_last(), marketplace, mint);
        lemma_step_keeps_custody(after_all(empty_ledger(program), steps.drop_last()), steps.last());
    }
    lemma_listing_iff_vault(after_all(empty_ledger(program), steps), marketplace, mint);
}

/// The listing a step is about, if it is about one.
pub open spec fn listing_of(step: Step) -> Option<Slot> {
    match step {
        Step::Deposit { .. } => None,
        Step::DepositAsset { .. } => None,
        Step::List { market, mint, .. } => Some(Slot { holder: market.key, asset: mint }),
        Step::Delist { market, mint, .. } => Some(Slot { holder: market.key, asset: mint }),
        Step::Purchase { market, mint, .. } => Some(Slot { holder: market.key, asset: mint }),
    }
}

/// Independence: a step leaves every listing but its own, with its vault, as
/// it was.
pub proof fn lemma_step_touches_one_listing(s: LedgerView, step: Step, other: Slot)
    requires
        listing_of(step) != Some(other),
    ensures
        after(s, step).escrows.get(other) == s.escrows.get(other),
{
}

/// A step moves no asset but the one it is about: the units of every other
/// asset stay with their holders.
pub proof fn lemma_step_moves_one_asset(s: LedgerView, step: Step, owner: Identity, mint: Identity)
    requires
        match step {
            Step::Deposit { .. } => true,
            Step::DepositAsset { mint: moved, .. } => moved != mint,
            Step::List { mint: moved, .. } => moved != mint,
            Step::Delist { mint: moved, .. } => moved != mint,
            Step::Purchase { mint: moved, .. } => moved != mint,
        },
    ensures
        after(s, step).units(owner, mint) == s.units(owner, mint),
{
}

/// Listing and cancelling move no payment currency.
pub proof fn lemma_only_purchases_move_funds(s: LedgerView, step: Step)
    requires
        step is List || step is Delist || step is DepositAsset,
    ensures
        after(s, step).funds == s.funds,
{
}

/// A listing takes the asset from the seller into custody: the seller holds
/// one unit less, the vault holds exactly one, and nobody else's holding
/// changes.
pub proof fn lemma_list_escrows_one_unit(
    s: LedgerView,
    market: Marketplace,
    seller: Identity,
    mint: Identity,
    price: u64,
    authority: Identity,
    bump: u8,
    other: Identity,
)
    ensures
        s.list_at(market, seller, mint, price, authority, bump) matches Ok(t) ==> {
            &&& s.units(seller, mint) >= 1
            &&& t.units(seller, mint) == s.units(seller, mint) - 1
            &&& other != seller ==> t.units(other, mint) == s.units(other, mint)
            &&& s.vault_units(market.key, mint) == 0
            &&& t.vault_units(market.key, mint) == 1
            &&& t.listing(market.key, mint) matches Some(listing)
            &&& listing.maker == seller && listing.mint == mint && listing.price == price
        },
{
}

/// A cancellation or a purchase hands the asset in custody to exactly one
/// party: that party holds one unit more, the vault is gone, and nobody
/// else's holding changes.
pub proof fn lemma_release_goes_to_one_party(
    s: LedgerView,
    market: Marketplace,
    party: Identity,
    mint: Identity,
    other: Identity,
)
    requires
        s.custody_sound(),
        other != party,
    ensures
        s.delist(market, party, mint) matches Ok((t, _)) ==> {
            &&& s.vault_units(market.key, mint) == 1
            &&& t.vault_units(market.key, mint) == 0
            &&& t.units(party, mint) == s.units(party, mint) + 1
            &&& t.units(other, mint) == s.units(other, mint)
        },
        s.purchase(market, party, mint) matches Ok((t, _)) ==> {
            &&& s.vault_units(market.key, mint) == 1
            &&& t.vault_units(market.key, mint) == 0
            &&& t.units(party, mint) == s.units(party, mint) + 1
            &&& t.units(other, mint) == s.units(other, mint)
        },
{
    let slot = Slot { holder: market.key, asset: mint };
    if s.escrows.dom().contains(slot) {
        assert(s.escrows[slot].vault.amount == 1);
    }
}

/// A payment creates and destroys nothing: what the payer loses the payee
/// gains, a payment to oneself changes nothing, and nobody else's funds
/// change.
pub proof fn lemma_payment_conserves(funds: Map<Identity, u64>, t: Transfer, other: Identity)
    requires
        other != t.from,
        other != t.to,
    ensures
        spec_pay(funds, t) matches Ok(paid) ==> {
            &&& balance_in(funds, t.from) >= t.lamports
            &&& t.from != t.to ==> balance_in(paid, t.from) == balance_in(funds, t.from) - t.lamports
            &&& t.from != t.to ==> balance_in(paid, t.to) == balance_in(funds, t.to) + t.lamports
            &&& t.from == t.to ==> paid == funds
            &&& balance_in(paid, other) == balance_in(funds, other)
        },
        spec_pay(funds, t) is Err <==> {
            ||| balance_in(funds, t.from) < t.lamports
            ||| t.from != t.to && balance_in(funds, t.to) + t.lamports > u64::MAX
        },
{
}

/// Conservation: every purchase that succeeds pays exactly the listed price,
/// split into the fee, which is the marketplace's rate applied to the price
/// and rounded down, for the treasury, and the rest for the seller; and it
/// hands the asset to the buyer and leaves neither listing nor vault.
pub proof fn lemma_purchase_conserves(
    s: LedgerView,
    market: Marketplace,
    buyer: Identity,
    mint: Identity,
)
    ensures
        s.purchase(market, buyer, mint) matches Ok((t, sale)) ==> {
            &&& s.listing(market.key, mint) matches Some(listing)
            &&& sale.to_treasury.lamports + sale.to_maker.lamports == listing.price
            &&& sale.to_treasury.lamports == (listing.price * market.fee) / 10000
            &&& sale.to_maker.from == buyer && sale.to_maker.to == listing.maker
            &&& sale.to_treasury.from == buyer && sale.to_treasury.to == market.treasury
            &&& sale.release.to == buyer && sale.release.amount == 1
            &&& sale.close_vault.destination == listing.maker
            &&& sale.close_listing.destination == listing.maker
            &&& t.units(buyer, mint) == s.units(buyer, mint) + 1
            &&& t.listing(market.key, mint) is None
            &&& t.vault(market.key, mint) is None
        },
{
}

/// Where buyer, seller and treasury are three parties, a purchase that
/// succeeds takes the price from the buyer, gives the proceeds to the seller
/// and the fee to the treasury, and leaves everyone else's funds alone.
pub proof fn lemma_purchase_moves_funds(
    s: LedgerView,
    market: Marketplace,
    buyer: Identity,
    mint: Identity,
    other: Identity,
)
    ensures
        s.purchase(market, buyer, mint) matches Ok((t, sale)) ==> {
            &&& s.listing(market.key, mint) matches Some(listing)
            &&& (buyer != listing.maker && buyer != market.treasury && listing.maker
                != market.treasury) ==> {
                &&& t.funds_of(buyer) == s.funds_of(buyer) - listing.price
                &&& t.funds_of(listing.maker) == s.funds_of(listing.maker)
                    + sale.to_maker.lamports
                &&& t.funds_of(market.treasury) == s.funds_of(market.treasury)
                    + sale.to_treasury.lamports
            }
            &&& (other != buyer && other != listing.maker && other != market.treasury)
                ==> t.funds_of(other) == s.funds_of(other)
        },
{
}

/// No purchase is refused without cause: where custody is sound, a purchase
/// among three parties succeeds as soon as the listing exists, the fee can be
/// computed, the buyer covers the price, and no balance would leave
/// sixty-four bits.
pub proof fn lemma_purchase_succeeds(
    s: LedgerView,
    market: Marketplace,
    buyer: Identity,
    mint: Identity,
)
    requires
        s.custody_sound(),
        market.spec_check_addresses(s.program) is Ok,
        s.listing(market.key, mint) is Some,
    ensures
        ({
            let listing = s.listing(market.key, mint)->Some_0;
            let fee = fee_of(listing.price as nat, market.fee as nat);
            &&& listing.price * market.fee <= u64::MAX
            &&& buyer != listing.maker && buyer != market.treasury && listing.maker
                != market.treasury
            &&& s.funds_of(buyer) >= listing.price
            &&& s.funds_of(listing.maker) + (listing.price - fee) <= u64::MAX
            &&& s.funds_of(market.treasury) + fee <= u64::MAX
            &&& s.units(buyer, mint) + 1 <= u64::MAX
        }) ==> s.purchase(market, buyer, mint) is Ok,
{
    let listing = s.listing(market.key, mint)->Some_0;
    lemma_fee_within_price(listing.price as nat, market.fee as nat);
    let slot = Slot { holder: market.key, asset: mint };
    assert(s.escrows.dom().contains(slot));
}

/// No double spend: once a purchase has succeeded, no further purchase and
/// no cancellation of the same listing can; each finds the listing gone.
pub proof fn lemma_sold_once(
    s: LedgerView,
    market: Marketplace,
    buyer: Identity,
    mint: Identity,
    later: Identity,
)
    ensures
        s.purchase(market, buyer, mint) matches Ok((t, _)) ==> {
            &&& t.purchase(market, later, mint) == Err::<
                (LedgerView, Sale),
                MarketplaceError,
            >(MarketplaceError::ListingNotFound)
            &&& t.delist(market, later, mint) == Err::<
                (LedgerView, Cancellation),
                MarketplaceError,
            >(MarketplaceError::ListingNotFound)
        },
{
}

/// No double spend: once a cancellation has succeeded, no purchase and no
/// further cancellation of the same listing can; each finds the listing
/// gone.
pub proof fn lemma_cancelled_once(
    s: LedgerView,
    market: Marketplace,
    caller: Identity,
    mint: Identity,
    later: Identity,
)
    ensures
        s.delist(market, caller, mint) matches Ok((t, _)) ==> {
            &&& t.purchase(market, later, mint) == Err::<
                (LedgerView, Sale),
                MarketplaceError,
            >(MarketplaceError::ListingNotFound)
            &&& t.delist(market, later, mint) == Err::<
                (LedgerView, Cancellation),
                MarketplaceError,
            >(MarketplaceError::ListingNotFound)
        },
{
}

/// Round trip: a cancellation by the seller right after a listing succeeds,
/// gives the seller back the units held before the listing, and leaves
/// neither listing nor vault: the ledger is again as it was before the
/// listing.
pub proof fn lemma_list_delist_round_trip(
    s: LedgerView,
    market: Marketplace,
    seller: Identity,
    mint: Identity,
    price: u64,
    authority: Identity,
    bump: u8,
)
    ensures
        s.list_at(market, seller, mint, price, authority, bump) matches Ok(t) ==> {
            &&& t.units(seller, mint) == s.units(seller, mint) - 1
            &&& t.vault_units(market.key, mint) == 1
            &&& t.delist(market, seller, mint) matches Ok((u, _))
            &&& u.units(seller, mint) == s.units(seller, mint)
            &&& u.listing(market.key, mint) is None
            &&& u.vault(market.key, mint) is None
            &&& u == s
        },
{
    if s.list_at(market, seller, mint, price, authority, bump) is Ok {
        let t = s.list_at(market, seller, mint, price, authority, bump)->Ok_0;
        let slot = Slot { holder: market.key, asset: mint };
        assert(t.escrows.dom().contains(slot));
        let u = t.delist(market, seller, mint)->Ok_0.0;
        assert(u.escrows =~= s.escrows);
        assert(u.holdings =~= s.holdings);
    }
}

/// Authorization: a cancellation by anyone but the recorded owner of the
/// listing fails as unauthorized.
pub proof fn lemma_delist_needs_owner(
    s: LedgerView,
    market: Marketplace,
    caller: Identity,
    mint: Identity,
)
    requires
        s.listing(market.key, mint) matches Some(listing) && listing.maker != caller,
    ensures
        s.delist(market, caller, mint) == Err::<
            (LedgerView, Cancellation),
            MarketplaceError,
        >(MarketplaceError::Unauthorized),
{
}

/// No asset is stuck in custody: where custody is sound, the recorded
/// owner's cancellation succeeds as soon as the holding account can take the
/// unit.
pub proof fn lemma_delist_succeeds(
    s: LedgerView,
    market: Marketplace,
    caller: Identity,
    mint: Identity,
)
    requires
        s.custody_sound(),
        market.spec_check_address(s.program) is Ok,
        s.listing(market.key, mint) matches Some(listing) && listing.maker == caller,
        s.units(caller, mint) + 1 <= u64::MAX,
    ensures
        s.delist(market, caller, mint) is Ok,
{
    let slot = Slot { holder: market.key, asset: mint };
    assert(s.escrows.dom().contains(slot));
}

} // verus!
