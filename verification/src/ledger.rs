//! The ledger: the payment currency of every party, the assets each party
//! holds, and the listings with their custody vaults. Listing, cancelling and
//! purchasing run against it, each as one step that takes effect as a whole or
//! not at all.

use crate::authority::{
    derive_listing_authority, derives, found_address, spec_listing_seeds, ListingSigner,
};
use crate::context::delist::Delist;
use crate::context::list::List;
use crate::context::purchase::Purchase;
use crate::error::MarketplaceError;
use crate::identity::Identity;
use crate::instruction::{Cancellation, Sale, Transfer, TransferChecked};
use crate::state::{Escrow, Listing, Marketplace, Mint, TokenAccount, MAX_NAME_LEN};
use crate::table::{Slot, Table};
use vstd::prelude::*;

verus! {

/// What a ledger holds, as mathematical maps.
pub struct LedgerView {
    /// The program under which custody authorities are derived.
    pub program: Identity,
    /// The payment currency of each party that has an account.
    pub funds: Map<Identity, u64>,
    /// The units in each holding account, by owner and asset.
    pub holdings: Map<Slot, u64>,
    /// The listings with their vaults, by marketplace and asset.
    pub escrows: Map<Slot, Escrow>,
}

/// The payment currency that `who` has in `funds`: nothing without an
/// account.
pub open spec fn balance_in(funds: Map<Identity, u64>, who: Identity) -> nat {
    match funds.get(who) {
        Some(amount) => amount as nat,
        None => 0,
    }
}

/// The units that the holding account `slot` has in `holdings`: nothing
/// without an account.
pub open spec fn units_in(holdings: Map<Slot, u64>, slot: Slot) -> nat {
    match holdings.get(slot) {
        Some(amount) => amount as nat,
        None => 0,
    }
}

/// The funds after a payment. The payer has to cover the amount, and the
/// payee's balance has to stay within sixty-four bits; a payment to oneself
/// changes nothing.
pub open spec fn spec_pay(funds: Map<Identity, u64>, t: Transfer) -> Result<
    Map<Identity, u64>,
    MarketplaceError,
> {
    if balance_in(funds, t.from) < t.lamports {
        Err(MarketplaceError::InsufficientFunds)
    } else if t.from == t.to {
        Ok(funds)
    } else if balance_in(funds, t.to) + t.lamports > u64::MAX {
        Err(MarketplaceError::ArithmeticOverflow)
    } else {
        Ok(
            funds.insert(t.from, (balance_in(funds, t.from) - t.lamports) as u64).insert(
                t.to,
                (balance_in(funds, t.to) + t.lamports) as u64,
            ),
        )
    }
}

/// The result of a step on a ledger that hands nothing back: the state it
/// leaves, or the failure.
pub open spec fn settled(res: Result<(), MarketplaceError>, state: LedgerView) -> Result<
    LedgerView,
    MarketplaceError,
> {
    match res {
        Ok(_) => Ok(state),
        Err(e) => Err(e),
    }
}

/// The result of a step on a ledger: the state it leaves with what the step
/// hands back, or the failure.
pub open spec fn outcome<T>(res: Result<T, MarketplaceError>, state: LedgerView) -> Result<
    (LedgerView, T),
    MarketplaceError,
> {
    match res {
        Ok(done) => Ok((state, done)),
        Err(e) => Err(e),
    }
}

impl LedgerView {
    /// The payment currency of `who`.
    pub open spec fn funds_of(self, who: Identity) -> nat {
        balance_in(self.funds, who)
    }

    /// The units of `mint` that `owner` holds.
    pub open spec fn units(self, owner: Identity, mint: Identity) -> nat {
        units_in(self.holdings, Slot { holder: owner, asset: mint })
    }

    /// The listing of `mint` on `marketplace`, if there is one.
    pub open spec fn listing(self, marketplace: Identity, mint: Identity) -> Option<Listing> {
        match self.escrows.get(Slot { holder: marketplace, asset: mint }) {
            Some(escrow) => Some(escrow.listing),
            None => None,
        }
    }

    /// The custody vault for `mint` on `marketplace`, if there is one.
    pub open spec fn vault(self, marketplace: Identity, mint: Identity) -> Option<TokenAccount> {
        match self.escrows.get(Slot { holder: marketplace, asset: mint }) {
            Some(escrow) => Some(escrow.vault),
            None => None,
        }
    }

    /// The units of `mint` in custody on `marketplace`: nothing without a
    /// vault.
    pub open spec fn vault_units(self, marketplace: Identity, mint: Identity) -> nat {
        match self.vault(marketplace, mint) {
            Some(vault) => vault.amount as nat,
            None => 0,
        }
    }

    /// The custody invariant: every listing stands with a vault that holds
    /// exactly one unit of the listed asset, under an authority that the
    /// listing's derivation inputs authorize for.
    pub open spec fn custody_sound(self) -> bool {
        forall|slot: Slot| #[trigger]
            self.escrows.dom().contains(slot) ==> {
                let escrow = self.escrows[slot];
                &&& escrow.listing.mint == slot.asset
                &&& escrow.vault.mint == slot.asset
                &&& escrow.vault.amount == 1
                &&& (ListingSigner {
                    marketplace: slot.holder,
                    mint: slot.asset,
                    bump: escrow.listing.bump,
                }).authorizes(self.program, escrow.vault.owner)
            }
    }

    /// The ledger after `who` has received `amount` of payment currency.
    pub open spec fn deposit(self, who: Identity, amount: u64) -> Result<
        LedgerView,
        MarketplaceError,
    > {
        if self.funds_of(who) + amount > u64::MAX {
            Err(MarketplaceError::ArithmeticOverflow)
        } else {
            Ok(LedgerView { funds: self.funds.insert(who, (self.funds_of(who) + amount) as u64), ..self })
        }
    }

    /// The ledger after `owner` has received one unit of `mint`.
    pub open spec fn deposit_asset(self, owner: Identity, mint: Identity) -> Result<
        LedgerView,
        MarketplaceError,
    > {
        if self.units(owner, mint) + 1 > u64::MAX {
            Err(MarketplaceError::ArithmeticOverflow)
        } else {
            Ok(
                LedgerView {
                    holdings: self.holdings.insert(
                        Slot { holder: owner, asset: mint },
                        (self.units(owner, mint) + 1) as u64,
                    ),
                    ..self
                },
            )
        }
    }

    /// The ledger after `seller` has listed `mint` on `market` at `price`,
    /// with the vault under `authority`, which `bump` re-derives.
    ///
    /// Rejected, in this order: a marketplace record that is not valid or not
    /// at its derived identity, an authority that the derivation inputs do
    /// not yield, a seller without a unit of the asset, and an asset already
    /// listed there. On success one unit has moved from the seller's holding
    /// account into the new vault.
    pub open spec fn list_at(
        self,
        market: Marketplace,
        seller: Identity,
        mint: Identity,
        price: u64,
        authority: Identity,
        bump: u8,
    ) -> Result<LedgerView, MarketplaceError> {
        let slot = Slot { holder: market.key, asset: mint };
        let ctx = List {
            maker: seller,
            marketplace: &market,
            maker_mint: Mint { key: mint, decimals: 0 },
            maker_ata: TokenAccount {
                owner: seller,
                mint,
                amount: self.units(seller, mint) as u64,
            },
            price,
            authority,
            bump,
        };
        match (
            ctx.spec_check_accounts(self.program),
            ctx.spec_create_listing(),
            ctx.spec_deposit_nft(),
        ) {
            (Ok(_), Ok(listing), Ok(deposit)) => if self.escrows.dom().contains(slot) {
                Err(MarketplaceError::AlreadyListed)
            } else {
                Ok(
                    LedgerView {
                        holdings: self.holdings.insert(
                            Slot { holder: deposit.from, asset: deposit.mint },
                            (self.units(deposit.from, deposit.mint) - deposit.amount) as u64,
                        ),
                        escrows: self.escrows.insert(
                            slot,
                            Escrow {
                                listing,
                                vault: TokenAccount {
                                    owner: deposit.authority,
                                    mint: deposit.mint,
                                    amount: deposit.amount,
                                },
                            },
                        ),
                        ..self
                    },
                )
            },
            (Err(e), _, _) => Err(e),
            (_, Err(e), _) => Err(e),
            (_, _, Err(e)) => Err(e),
        }
    }

    /// The ledger after the vault at `slot` has released its asset as `t`
    /// says, and vault and listing are closed. The receiving account has to
    /// stay within sixty-four bits.
    pub open spec fn release(self, slot: Slot, t: TransferChecked) -> Result<
        LedgerView,
        MarketplaceError,
    > {
        if self.units(t.to, t.mint) + t.amount > u64::MAX {
            Err(MarketplaceError::ArithmeticOverflow)
        } else {
            Ok(
                LedgerView {
                    holdings: self.holdings.insert(
                        Slot { holder: t.to, asset: t.mint },
                        (self.units(t.to, t.mint) + t.amount) as u64,
                    ),
                    escrows: self.escrows.remove(slot),
                    ..self
                },
            )
        }
    }

    /// The ledger after `caller` has cancelled the listing of `mint` on
    /// `market`, with what was carried out.
    ///
    /// Rejected, in this order: a listing that does not exist, a caller who
    /// is not its recorded owner, a vault that is not the listing's or does
    /// not hold exactly one unit, a marketplace record that is not valid or
    /// not at its derived identity, an authority that the listing's
    /// derivation inputs do not yield, and a holding account that cannot take
    /// one more unit. On success the unit has moved from the vault to the
    /// caller's holding account, and vault and listing are gone.
    pub open spec fn delist(self, market: Marketplace, caller: Identity, mint: Identity) -> Result<
        (LedgerView, Cancellation),
        MarketplaceError,
    > {
        let slot = Slot { holder: market.key, asset: mint };
        match self.escrows.get(slot) {
            None => Err(MarketplaceError::ListingNotFound),
            Some(escrow) => {
                let ctx = Delist {
                    maker: caller,
                    marketplace: &market,
                    maker_mint: Mint { key: mint, decimals: 0 },
                    listing: escrow.listing,
                    vault: escrow.vault,
                };
                match (
                    ctx.spec_delist(),
                    ctx.spec_close_vault(),
                    ctx.spec_close_listing(),
                    ctx.spec_check_accounts(self.program),
                ) {
                    (Ok(release), Ok(close_vault), Ok(close_listing), Ok(_)) => match self.release(
                        slot,
                        release,
                    ) {
                        Err(e) => Err(e),
                        Ok(next) => Ok((next, Cancellation { release, close_vault, close_listing })),
                    },
                    (Err(e), _, _, _) => Err(e),
                    (_, Err(e), _, _) => Err(e),
                    (_, _, Err(e), _) => Err(e),
                    (_, _, _, Err(e)) => Err(e),
                }
            },
        }
    }

    /// The ledger after `buyer` has bought `mint` on `market`, with what was
    /// carried out.
    ///
    /// Rejected, in this order: a listing that does not exist, a marketplace
    /// record that is not valid or whose identity, treasury or reward asset
    /// is not the derived one, an authority that the listing's derivation
    /// inputs do not yield, a fee that cannot be computed without overflow, a
    /// vault that is not the listing's or does not hold exactly one unit, a
    /// payment that the buyer cannot cover or the payee cannot take, and a
    /// holding account that cannot take one more unit. On success the
    /// proceeds have gone to the seller and the fee to the treasury, the unit
    /// has moved from the vault to the buyer's holding account, and vault and
    /// listing are gone.
    pub open spec fn purchase(self, market: Marketplace, buyer: Identity, mint: Identity) -> Result<
        (LedgerView, Sale),
        MarketplaceError,
    > {
        let slot = Slot { holder: market.key, asset: mint };
        match self.escrows.get(slot) {
            None => Err(MarketplaceError::ListingNotFound),
            Some(escrow) => {
                let ctx = Purchase {
                    taker: buyer,
                    marketplace: &market,
                    maker_mint: Mint { key: mint, decimals: 0 },
                    listing: escrow.listing,
                    vault: escrow.vault,
                };
                match (
                    ctx.spec_check_accounts(self.program),
                    ctx.spec_send_sol(),
                    ctx.spec_send_nft(),
                    ctx.spec_close_vault(),
                    ctx.spec_close_listing(),
                ) {
                    (
                        Ok(_),
                        Ok((to_maker, to_treasury)),
                        Ok(release),
                        Ok(close_vault),
                        Ok(close_listing),
                    ) => match spec_pay(self.funds, to_maker) {
                        Err(e) => Err(e),
                        Ok(paid) => match spec_pay(paid, to_treasury) {
                            Err(e) => Err(e),
                            Ok(settled) => match self.release(slot, release) {
                                Err(e) => Err(e),
                                Ok(next) => Ok(
                                    (
                                        LedgerView { funds: settled, ..next },
                                        Sale {
                                            to_maker,
                                            to_treasury,
                                            release,
                                            close_vault,
                                            close_listing,
                                        },
                                    ),
                                ),
                            },
                        },
                    },
                    (Err(e), _, _, _, _) => Err(e),
                    (_, Err(e), _, _, _) => Err(e),
                    (_, _, Err(e), _, _) => Err(e),
                    (_, _, _, Err(e), _) => Err(e),
                    (_, _, _, _, Err(e)) => Err(e),
                }
            },
        }
    }
}

/// Carries out a payment on `wallets`, or leaves them as they are.
fn pay(wallets: &mut Table<Identity, u64>, t: &Transfer) -> (res: Result<(), MarketplaceError>)
    requires
        old(wallets).wf(),
    ensures
        final(wallets).wf(),
        res is Err ==> final(wallets)@ == old(wallets)@,
        spec_pay(old(wallets)@, *t) == match res {
            Ok(_) => Ok::<Map<Identity, u64>, MarketplaceError>(final(wallets)@),
            Err(e) => Err::<Map<Identity, u64>, MarketplaceError>(e),
        },
{
    let available: u64 = match wallets.get(&t.from) {
        Some(amount) => amount,
        None => 0,
    };
    if available < t.lamports {
        return Err(MarketplaceError::InsufficientFunds);
    }
    if t.from.same(&t.to) {
        return Ok(());
    }
    let held: u64 = match wallets.get(&t.to) {
        Some(amount) => amount,
        None => 0,
    };
    match held.checked_add(t.lamports) {
        None => Err(MarketplaceError::ArithmeticOverflow),
        Some(raised) => {
            wallets.put(t.from, available - t.lamports);
            wallets.put(t.to, raised);
            Ok(())
        },
    }
}

/// The ledger of a marketplace program.
pub struct Ledger {
    program: Identity,
    wallets: Table<Identity, u64>,
    holdings: Table<Slot, u64>,
    escrows: Table<Slot, Escrow>,
}

impl View for Ledger {
    type V = LedgerView;

    closed spec fn view(&self) -> LedgerView {
        LedgerView {
            program: self.program,
            funds: self.wallets@,
            holdings: self.holdings@,
            escrows: self.escrows@,
        }
    }
}

impl Ledger {
    /// The invariant of the ledger: its tables are in order, and custody is
    /// sound.
    pub closed spec fn wf(&self) -> bool {
        &&& self.wallets.wf()
        &&& self.holdings.wf()
        &&& self.escrows.wf()
        &&& self@.custody_sound()
    }

    /// In every ledger that the operations can reach, custody is sound.
    pub proof fn lemma_custody_sound(&self)
        requires
            self.wf(),
        ensures
            self@.custody_sound(),
    {
    }

    /// An empty ledger for the marketplace program `program`.
    pub fn new(program: Identity) -> (res: Ledger)
        ensures
            res.wf(),
            res@.custody_sound(),
            res@ == (LedgerView {
                program,
                funds: Map::empty(),
                holdings: Map::empty(),
                escrows: Map::empty(),
            }),
    {
        Ledger {
            program,
            wallets: Table::new(),
            holdings: Table::new(),
            escrows: Table::new(),
        }
    }

    /// The program under which custody authorities are derived.
    pub fn program(&self) -> (res: Identity)
        ensures
            res == self@.program,
    {
        self.program
    }

    /// The payment currency of `who`.
    pub fn funds(&self, who: &Identity) -> (res: u64)
        requires
            self.wf(),
        ensures
            res == self@.funds_of(*who),
    {
        match self.wallets.get(who) {
            Some(amount) => amount,
            None => 0,
        }
    }

    /// The units of `mint` that `owner` holds.
    pub fn units(&self, owner: &Identity, mint: &Identity) -> (res: u64)
        requires
            self.wf(),
        ensures
            res == self@.units(*owner, *mint),
    {
        match self.holdings.get(&Slot { holder: *owner, asset: *mint }) {
            Some(amount) => amount,
            None => 0,
        }
    }

    /// The listing of `mint` on `marketplace`, if there is one.
    pub fn listing(&self, marketplace: &Identity, mint: &Identity) -> (res: Option<Listing>)
        requires
            self.wf(),
        ensures
            res == self@.listing(*marketplace, *mint),
    {
        match self.escrows.get(&Slot { holder: *marketplace, asset: *mint }) {
            Some(escrow) => Some(escrow.listing),
            None => None,
        }
    }

    /// The custody vault for `mint` on `marketplace`, if there is one.
    pub fn vault(&self, marketplace: &Identity, mint: &Identity) -> (res: Option<TokenAccount>)
        requires
            self.wf(),
        ensures
            res == self@.vault(*marketplace, *mint),
    {
        match self.escrows.get(&Slot { holder: *marketplace, asset: *mint }) {
            Some(escrow) => Some(escrow.vault),
            None => None,
        }
    }

    /// Credits `who` with `amount` of payment currency from outside the
    /// ledger. Fails, without effect, when the balance would leave
    /// sixty-four bits.
    pub fn deposit(&mut self, who: &Identity, amount: u64) -> (res: Result<(), MarketplaceError>)
        requires
            old(self).wf(),
        ensures
            final(self).wf(),
            final(self)@.custody_sound(),
            res is Err ==> final(self)@ == old(self)@,
            old(self)@.deposit(*who, amount) == settled(res, final(self)@),
    {
        let held = self.funds(who);
        match held.checked_add(amount) {
            None => Err(MarketplaceError::ArithmeticOverflow),
            Some(raised) => {
                self.wallets.put(*who, raised);
                Ok(())
            },
        }
    }

    /// Credits `owner` with one unit of `mint` from outside the ledger.
    /// Fails, without effect, when the holding would leave sixty-four bits.
    pub fn deposit_asset(&mut self, owner: &Identity, mint: &Identity) -> (res: Result<
        (),
        MarketplaceError,
    >)
        requires
            old(self).wf(),
        ensures
            final(self).wf(),
            final(self)@.custody_sound(),
            res is Err ==> final(self)@ == old(self)@,
            old(self)@.deposit_asset(*owner, *mint) == settled(res, final(self)@),
    {
        let held = self.units(owner, mint);
        match held.checked_add(1) {
            None => Err(MarketplaceError::ArithmeticOverflow),
            Some(raised) => {
                self.holdings.put(Slot { holder: *owner, asset: *mint }, raised);
                Ok(())
            },
        }
    }

    /// Lists `mint` on `market` for `seller` at `price`, with the custody
    /// vault under `authority`, which `bump` has to re-derive: one unit moves
    /// from the seller's holding account into the new vault. Takes effect as
    /// a whole or not at all.
    pub fn list_at(
        &mut self,
        market: &Marketplace,
        seller: &Identity,
        mint: &Identity,
        price: u64,
        authority: &Identity,
        bump: u8,
    ) -> (res: Result<(), MarketplaceError>)
        requires
            old(self).wf(),
        ensures
            final(self).wf(),
            final(self)@.custody_sound(),
            res is Err ==> final(self)@ == old(self)@,
            old(self)@.list_at(*market, *seller, *mint, price, *authority, bump) == settled(
                res,
                final(self)@,
            ),
            market.name_bytes().len() > MAX_NAME_LEN ==> res == Err::<(), MarketplaceError>(
                MarketplaceError::NameTooLong,
            ),
            res is Ok ==> {
                &&& old(self)@.listing(market.key, *mint) is None
                &&& final(self)@.listing(market.key, *mint) == Some(
                    Listing { maker: *seller, mint: *mint, price, bump },
                )
                &&& final(self)@.vault(market.key, *mint) == Some(
                    TokenAccount { owner: *authority, mint: *mint, amount: 1 },
                )
                &&& final(self)@.units(*seller, *mint) == old(self)@.units(*seller, *mint) - 1
                &&& final(self)@.funds == old(self)@.funds
            },
    {
        let held = self.units(seller, mint);
        let ctx = List {
            maker: *seller,
            marketplace: market,
            maker_mint: Mint { key: *mint, decimals: 0 },
            maker_ata: TokenAccount { owner: *seller, mint: *mint, amount: held },
            price,
            authority: *authority,
            bump,
        };
        ctx.check_accounts(&self.program)?;
        let listing = ctx.create_listing()?;
        let deposit = ctx.deposit_nft()?;
        let slot = Slot { holder: market.key, asset: *mint };
        if self.escrows.get(&slot).is_some() {
            return Err(MarketplaceError::AlreadyListed);
        }
        self.holdings.put(Slot { holder: deposit.from, asset: deposit.mint }, held - deposit.amount);
        self.escrows.put(
            slot,
            Escrow {
                listing,
                vault: TokenAccount {
                    owner: deposit.authority,
                    mint: deposit.mint,
                    amount: deposit.amount,
                },
            },
        );
        Ok(())
    }

    /// Lists `mint` on `market` for `seller` at `price`: derives the custody
    /// authority for the asset, and moves one unit from the seller's holding
    /// account into a new vault under it. Takes effect as a whole or not at
    /// all.
    ///
    /// A marketplace record that is not valid, or not at its derived
    /// identity, is rejected first; then the call fails when no authority can
    /// be derived; otherwise it goes as [`Ledger::list_at`] does with the
    /// authority and bump that the derivation finds.
    pub fn list(&mut self, market: &Marketplace, seller: &Identity, mint: &Identity, price: u64) -> (res:
        Result<(), MarketplaceError>)
        requires
            old(self).wf(),
        ensures
            final(self).wf(),
            final(self)@.custody_sound(),
            res is Err ==> final(self)@ == old(self)@,
            market.spec_check_address(old(self)@.program) matches Err(e) ==> res == Err::<
                (),
                MarketplaceError,
            >(e),
            market.spec_check_address(old(self)@.program) is Ok ==> {
                ||| {
                    &&& found_address(
                        spec_listing_seeds(market.key, *mint),
                        old(self)@.program.bytes@,
                    ) is None
                    &&& res == Err::<(), MarketplaceError>(MarketplaceError::DerivationFailed)
                }
                ||| exists|authority: Identity, bump: u8|
                    {
                        &&& derives(
                            spec_listing_seeds(market.key, *mint),
                            old(self)@.program,
                            authority,
                            bump,
                        )
                        &&& #[trigger] old(self)@.list_at(
                            *market,
                            *seller,
                            *mint,
                            price,
                            authority,
                            bump,
                        ) == settled(res, final(self)@)
                    }
            },
            market.name_bytes().len() > MAX_NAME_LEN ==> res == Err::<(), MarketplaceError>(
                MarketplaceError::NameTooLong,
            ),
            res is Ok ==> {
                &&& old(self)@.listing(market.key, *mint) is None
                &&& final(self)@.listing(market.key, *mint) matches Some(listing)
                &&& listing.maker == *seller && listing.mint == *mint && listing.price == price
                &&& final(self)@.vault_units(market.key, *mint) == 1
                &&& final(self)@.units(*seller, *mint) == old(self)@.units(*seller, *mint) - 1
                &&& final(self)@.funds == old(self)@.funds
            },
    {
        market.check_address(&self.program)?;
        let (found, bump) = derive_listing_authority(&self.program, &market.key, mint)?;
        self.list_at(market, seller, mint, price, &found, bump)
    }

    /// Releases the asset of the vault at `slot` as `t` says and closes
    /// vault and listing, or leaves the ledger as it is.
    fn release(&mut self, slot: &Slot, t: &TransferChecked) -> (res: Result<(), MarketplaceError>)
        requires
            old(self).wf(),
        ensures
            final(self).wf(),
            final(self)@.funds == old(self)@.funds,
            res is Err ==> final(self)@ == old(self)@,
            old(self)@.release(*slot, *t) == settled(res, final(self)@),
    {
        let held = self.units(&t.to, &t.mint);
        match held.checked_add(t.amount) {
            None => Err(MarketplaceError::ArithmeticOverflow),
            Some(raised) => {
                self.holdings.put(Slot { holder: t.to, asset: t.mint }, raised);
                let _ = self.escrows.take(slot);
                Ok(())
            },
        }
    }

    /// Cancels the listing of `mint` on `market` for `caller`, who has to be
    /// its recorded owner: the asset returns from the vault to the caller's
    /// holding account, in the name of the vault's authority, and vault and
    /// listing are closed to the caller's benefit. Takes effect as a whole or
    /// not at all, and says what was carried out.
    pub fn delist(&mut self, market: &Marketplace, caller: &Identity, mint: &Identity) -> (res: Result<
        Cancellation,
        MarketplaceError,
    >)
        requires
            old(self).wf(),
        ensures
            final(self).wf(),
            final(self)@.custody_sound(),
            res is Err ==> final(self)@ == old(self)@,
            old(self)@.delist(*market, *caller, *mint) == outcome(res, final(self)@),
            old(self)@.listing(market.key, *mint) is None ==> res == Err::<
                Cancellation,
                MarketplaceError,
            >(MarketplaceError::ListingNotFound),
            old(self)@.listing(market.key, *mint) matches Some(listing) && listing.maker != *caller
                ==> res == Err::<Cancellation, MarketplaceError>(MarketplaceError::Unauthorized),
            res is Ok ==> {
                &&& final(self)@.listing(market.key, *mint) is None
                &&& final(self)@.vault(market.key, *mint) is None
                &&& final(self)@.units(*caller, *mint) == old(self)@.units(*caller, *mint) + 1
                &&& final(self)@.funds == old(self)@.funds
            },
    {
        let slot = Slot { holder: market.key, asset: *mint };
        let escrow = match self.escrows.get(&slot) {
            None => return Err(MarketplaceError::ListingNotFound),
            Some(escrow) => escrow,
        };
        let ctx = Delist {
            maker: *caller,
            marketplace: market,
            maker_mint: Mint { key: *mint, decimals: 0 },
            listing: escrow.listing,
            vault: escrow.vault,
        };
        let release = ctx.delist()?;
        let close_vault = ctx.close_vault()?;
        let close_listing = ctx.close_listing()?;
        ctx.check_accounts(&self.program)?;
        self.release(&slot, &release)?;
        Ok(Cancellation { release, close_vault, close_listing })
    }

    /// Buys `mint` on `market` for `buyer`: the buyer pays the proceeds to
    /// the seller and the fee to the treasury, then the asset leaves the
    /// vault for the buyer's holding account, in the name of the vault's
    /// authority, and vault and listing are closed to the seller's benefit.
    /// Takes effect as a whole or not at all, and says what was carried out.
    pub fn purchase(&mut self, market: &Marketplace, buyer: &Identity, mint: &Identity) -> (res: Result<
        Sale,
        MarketplaceError,
    >)
        requires
            old(self).wf(),
        ensures
            final(self).wf(),
            final(self)@.custody_sound(),
            res is Err ==> final(self)@ == old(self)@,
            old(self)@.purchase(*market, *buyer, *mint) == outcome(res, final(self)@),
            old(self)@.listing(market.key, *mint) is None ==> res == Err::<Sale, MarketplaceError>(
                MarketplaceError::ListingNotFound,
            ),
            res matches Ok(sale) ==> {
                &&& old(self)@.listing(market.key, *mint) matches Some(listing)
                &&& sale.to_treasury.lamports + sale.to_maker.lamports == listing.price
                &&& sale.to_treasury.lamports == (listing.price * market.fee) / 10000
                &&& sale.to_maker.to == listing.maker && sale.to_treasury.to == market.treasury
                &&& sale.close_vault.destination == listing.maker
                &&& sale.close_listing.destination == listing.maker
                &&& final(self)@.listing(market.key, *mint) is None
                &&& final(self)@.vault(market.key, *mint) is None
                &&& final(self)@.units(*buyer, *mint) == old(self)@.units(*buyer, *mint) + 1
            },
    {
        let slot = Slot { holder: market.key, asset: *mint };
        let escrow = match self.escrows.get(&slot) {
            None => return Err(MarketplaceError::ListingNotFound),
            Some(escrow) => escrow,
        };
        let ctx = Purchase {
            taker: *buyer,
            marketplace: market,
            maker_mint: Mint { key: *mint, decimals: 0 },
            listing: escrow.listing,
            vault: escrow.vault,
        };
        ctx.check_accounts(&self.program)?;
        let (to_maker, to_treasury) = ctx.send_sol()?;
        let release = ctx.send_nft()?;
        let close_vault = ctx.close_vault()?;
        let close_listing = ctx.close_listing()?;
        let mut wallets = self.wallets.snapshot();
        pay(&mut wallets, &to_maker)?;
        pay(&mut wallets, &to_treasury)?;
        self.release(&slot, &release)?;
        self.wallets = wallets;
        Ok(Sale { to_maker, to_treasury, release, close_vault, close_listing })
    }
}

} // verus!
