use vstd::prelude::*;

use crate::asset::{Asset, AssetView, Location};
use crate::table::{checked_credit, checked_debit, BalanceTable, Key};
use crate::Error;

verus! {

/// A notification recorded by each deposit and withdrawal.
#[derive(Debug)]
pub enum Event {
    /// Deposit success: asset, to.
    Deposited(Asset, Location),
    /// Deposit failed: asset, to, error.
    DepositFailed(Asset, Location, Error),
    /// Withdraw success: asset, from.
    Withdrawn(Asset, Location),
    /// Withdraw failed: asset, from, error.
    WithdrawFailed(Asset, Location, Error),
}

/// What an [`Event`] denotes.
pub enum EventView {
    Deposited(AssetView, Seq<u8>),
    DepositFailed(AssetView, Seq<u8>, Error),
    Withdrawn(AssetView, Seq<u8>),
    WithdrawFailed(AssetView, Seq<u8>, Error),
}

impl View for Event {
    type V = EventView;

    open spec fn view(&self) -> EventView {
        match self {
            Event::Deposited(a, l) => EventView::Deposited(a@, l@),
            Event::DepositFailed(a, l, e) => EventView::DepositFailed(a@, l@, *e),
            Event::Withdrawn(a, l) => EventView::Withdrawn(a@, l@),
            Event::WithdrawFailed(a, l, e) => EventView::WithdrawFailed(a@, l@, *e),
        }
    }
}

/// The state of the ledger: the two balance tables and the events recorded
/// so far, oldest first.
pub struct LedgerView {
    /// Balances keyed by (holder, location of the asset).
    pub concrete: Map<Key, u128>,
    /// Balances keyed by (holder, bytes of the asset).
    pub abstract_fungible: Map<Key, u128>,
    pub events: Seq<EventView>,
}

/// The ledger's state after depositing `asset` to `to`, and the result.
pub open spec fn deposit_outcome(s: LedgerView, asset: AssetView, to: Seq<u8>) -> (
    LedgerView,
    Result<(), Error>,
) {
    let (concrete, abstract_fungible, r) = match asset {
        AssetView::ConcreteFungible { id, amount } => match checked_credit(
            s.concrete,
            (to, id),
            amount,
        ) {
            Ok(m) => (m, s.abstract_fungible, Ok(())),
            Err(e) => (s.concrete, s.abstract_fungible, Err(e)),
        },
        AssetView::AbstractFungible { id, amount } => match checked_credit(
            s.abstract_fungible,
            (to, id),
            amount,
        ) {
            Ok(m) => (s.concrete, m, Ok(())),
            Err(e) => (s.concrete, s.abstract_fungible, Err(e)),
        },
        AssetView::Other { .. } => (s.concrete, s.abstract_fungible, Err(Error::UnhandledAsset)),
    };
    let event = match r {
        Ok(_) => EventView::Deposited(asset, to),
        Err(e) => EventView::DepositFailed(asset, to, e),
    };
    (LedgerView { concrete, abstract_fungible, events: s.events.push(event) }, r)
}

/// The ledger's state after withdrawing `asset` from `from`, and the result.
pub open spec fn withdraw_outcome(s: LedgerView, asset: AssetView, from: Seq<u8>) -> (
    LedgerView,
    Result<(), Error>,
) {
    let (concrete, abstract_fungible, r) = match asset {
        AssetView::ConcreteFungible { id, amount } => match checked_debit(
            s.concrete,
            (from, id),
            amount,
        ) {
            Ok(m) => (m, s.abstract_fungible, Ok(())),
            Err(e) => (s.concrete, s.abstract_fungible, Err(e)),
        },
        AssetView::AbstractFungible { id, amount } => match checked_debit(
            s.abstract_fungible,
            (from, id),
            amount,
        ) {
            Ok(m) => (s.concrete, m, Ok(())),
            Err(e) => (s.concrete, s.abstract_fungible, Err(e)),
        },
        AssetView::Other { .. } => (s.concrete, s.abstract_fungible, Err(Error::UnhandledAsset)),
    };
    let event = match r {
        Ok(_) => EventView::Withdrawn(asset, from),
        Err(e) => EventView::WithdrawFailed(asset, from, e),
    };
    (LedgerView { concrete, abstract_fungible, events: s.events.push(event) }, r)
}

/// Custody of assets that the chain does not otherwise recognise: balances
/// of concrete and of abstract fungible assets, each keyed by holder and
/// asset, and the log of events.
pub struct Pallet {
    concrete: BalanceTable,
    abstract_fungible: BalanceTable,
    events: Vec<Event>,
}

impl View for Pallet {
    type V = LedgerView;

    closed spec fn view(&self) -> LedgerView {
        LedgerView {
            concrete: self.concrete@,
            abstract_fungible: self.abstract_fungible@,
            events: self.events@.map_values(|e: Event| e@),
        }
    }
}

impl Pallet {
    pub closed spec fn wf(&self) -> bool {
        self.concrete.wf() && self.abstract_fungible.wf()
    }

    /// A ledger with no balances and no events.
    pub fn new() -> (r: Pallet)
        ensures
            r.wf(),
            r@.concrete == Map::<Key, u128>::empty(),
            r@.abstract_fungible == Map::<Key, u128>::empty(),
            r@.events == Seq::<EventView>::empty(),
    {
        let r = Pallet {
            concrete: BalanceTable::new(),
            abstract_fungible: BalanceTable::new(),
            events: Vec::new(),
        };
        assert(r@.events =~= Seq::<EventView>::empty());
        r
    }

    fn record(&mut self, event: Event)
        ensures
            final(self).concrete == old(self).concrete,
            final(self).abstract_fungible == old(self).abstract_fungible,
            final(self)@.events == old(self)@.events.push(event@),
    {
        self.events.push(event);
        assert(self@.events =~= old(self)@.events.push(event@));
    }

    /// Credits a concrete or abstract fungible asset to `to` and records
    /// `Deposited`, or, where that fails, records `DepositFailed` with the
    /// error and leaves the balances as they were.
    pub fn deposit(&mut self, asset: &Asset, to: &Location) -> (r: Result<(), Error>)
        requires
            old(self).wf(),
        ensures
            final(self).wf(),
            final(self)@ == deposit_outcome(old(self)@, asset@, to@).0,
            r == deposit_outcome(old(self)@, asset@, to@).1,
    {
        let result = match asset {
            Asset::ConcreteFungible { id, amount } => self.concrete.try_credit(
                to.encoded(),
                id.encoded(),
                *amount,
            ),
            Asset::AbstractFungible { id, amount } => self.abstract_fungible.try_credit(
                to.encoded(),
                id,
                *amount,
            ),
            Asset::Other { .. } => Err(Error::UnhandledAsset),
        };
        match result {
            Ok(()) => self.record(Event::Deposited(asset.clone(), to.clone())),
            Err(e) => self.record(Event::DepositFailed(asset.clone(), to.clone(), e)),
        }
        result
    }

    /// Debits a concrete or abstract fungible asset from `from` and records
    /// `Withdrawn`, or, where that fails, records `WithdrawFailed` with the
    /// error and leaves the balances as they were.
    pub fn withdraw(&mut self, asset: &Asset, from: &Location) -> (r: Result<(), Error>)
        requires
            old(self).wf(),
        ensures
            final(self).wf(),
            final(self)@ == withdraw_outcome(old(self)@, asset@, from@).0,
            r == withdraw_outcome(old(self)@, asset@, from@).1,
    {
        let result = match asset {
            Asset::ConcreteFungible { id, amount } => self.concrete.try_debit(
                from.encoded(),
                id.encoded(),
                *amount,
            ),
            Asset::AbstractFungible { id, amount } => self.abstract_fungible.try_debit(
                from.encoded(),
                id,
                *amount,
            ),
            Asset::Other { .. } => Err(Error::UnhandledAsset),
        };
        match result {
            Ok(()) => self.record(Event::Withdrawn(asset.clone(), from.clone())),
            Err(e) => self.record(Event::WithdrawFailed(asset.clone(), from.clone(), e)),
        }
        result
    }

    /// The balance of the concrete fungible asset `id` held by `who`.
    pub fn concrete_fungible(&self, who: &Location, id: &Location) -> (r: u128)
        requires
            self.wf(),
        ensures
            r == crate::table::balance_of(self@.concrete, (who@, id@)),
    {
        self.concrete.get(who.encoded(), id.encoded())
    }

    /// The balance of the abstract fungible asset `id` held by `who`.
    pub fn abstract_fungible(&self, who: &Location, id: &Vec<u8>) -> (r: u128)
        requires
            self.wf(),
        ensures
            r == crate::table::balance_of(self@.abstract_fungible, (who@, id@)),
    {
        self.abstract_fungible.get(who.encoded(), id)
    }

    /// The events recorded so far, oldest first.
    pub fn events(&self) -> (r: &Vec<Event>)
        ensures
            r@.map_values(|e: Event| e@) == self@.events,
    {
        &self.events
    }
}

} // verus!
