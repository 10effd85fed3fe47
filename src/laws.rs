use vstd::prelude::*;

use crate::asset::AssetView;
use crate::ledger::{deposit_outcome, withdraw_outcome, EventView, LedgerView};
use crate::table::{balance_of, Key};
use crate::Error;

verus! {

/// Whether the ledger holds balances of this asset's class.
pub open spec fn is_fungible(a: AssetView) -> bool {
    a is ConcreteFungible || a is AbstractFungible
}

/// The table that holds balances of the asset's class.
pub open spec fn table_of(s: LedgerView, a: AssetView) -> Map<Key, u128> {
    if a is ConcreteFungible {
        s.concrete
    } else {
        s.abstract_fungible
    }
}

/// The key under which `holder`'s balance of a fungible asset is stored
/// (other classes have no balance; their key is never read).
pub open spec fn key_of(a: AssetView, holder: Seq<u8>) -> Key {
    match a {
        AssetView::ConcreteFungible { id, .. } => (holder, id),
        AssetView::AbstractFungible { id, .. } => (holder, id),
        AssetView::Other { .. } => (holder, Seq::empty()),
    }
}

/// The quantity that a fungible asset carries (zero for other classes).
pub open spec fn amount_of(a: AssetView) -> u128 {
    match a {
        AssetView::ConcreteFungible { amount, .. } => amount,
        AssetView::AbstractFungible { amount, .. } => amount,
        AssetView::Other { .. } => 0,
    }
}

/// A deposit whose sum fits in a `u128` succeeds, raises the holder's
/// balance by the amount, touches no other balance, and records exactly
/// one `Deposited` event.
pub proof fn deposit_credits(s: LedgerView, a: AssetView, to: Seq<u8>)
    requires
        is_fungible(a),
        balance_of(table_of(s, a), key_of(a, to)) + amount_of(a) <= u128::MAX,
    ensures
        ({
            let (t, r) = deposit_outcome(s, a, to);
            &&& r == Ok::<(), Error>(())
            &&& balance_of(table_of(t, a), key_of(a, to)) == balance_of(
                table_of(s, a),
                key_of(a, to),
            ) + amount_of(a)
            &&& forall|k: Key|
                k != key_of(a, to) ==> balance_of(table_of(t, a), k) == balance_of(
                    table_of(s, a),
                    k,
                )
            &&& t.events == s.events.push(EventView::Deposited(a, to))
        }),
{
}

/// A deposit whose sum overflows fails with `BalanceOverflow`, changes no
/// balance, and records a `DepositFailed` event carrying that error.
pub proof fn deposit_overflow(s: LedgerView, a: AssetView, to: Seq<u8>)
    requires
        is_fungible(a),
        balance_of(table_of(s, a), key_of(a, to)) + amount_of(a) > u128::MAX,
    ensures
        ({
            let (t, r) = deposit_outcome(s, a, to);
            &&& r == Err::<(), Error>(Error::BalanceOverflow)
            &&& t.concrete == s.concrete
            &&& t.abstract_fungible == s.abstract_fungible
            &&& t.events == s.events.push(
                EventView::DepositFailed(a, to, Error::BalanceOverflow),
            )
        }),
{
}

/// A withdrawal of no more than the balance succeeds, lowers the holder's
/// balance by the amount, touches no other balance, and records exactly one
/// `Withdrawn` event.
pub proof fn withdraw_debits(s: LedgerView, a: AssetView, from: Seq<u8>)
    requires
        is_fungible(a),
        amount_of(a) <= balance_of(table_of(s, a), key_of(a, from)),
    ensures
        ({
            let (t, r) = withdraw_outcome(s, a, from);
            &&& r == Ok::<(), Error>(())
            &&& balance_of(table_of(t, a), key_of(a, from)) == balance_of(
                table_of(s, a),
                key_of(a, from),
            ) - amount_of(a)
            &&& forall|k: Key|
                k != key_of(a, from) ==> balance_of(table_of(t, a), k) == balance_of(
                    table_of(s, a),
                    k,
                )
            &&& t.events == s.events.push(EventView::Withdrawn(a, from))
        }),
{
}

/// A withdrawal of more than the balance fails with `BalanceTooLow`, changes
/// no balance, and records a `WithdrawFailed` event carrying that error.
pub proof fn withdraw_too_low(s: LedgerView, a: AssetView, from: Seq<u8>)
    requires
        is_fungible(a),
        amount_of(a) > balance_of(table_of(s, a), key_of(a, from)),
    ensures
        ({
            let (t, r) = withdraw_outcome(s, a, from);
            &&& r == Err::<(), Error>(Error::BalanceTooLow)
            &&& t.concrete == s.concrete
            &&& t.abstract_fungible == s.abstract_fungible
            &&& t.events == s.events.push(
                EventView::WithdrawFailed(a, from, Error::BalanceTooLow),
            )
        }),
{
}

/// An asset of any class other than concrete or abstract fungible is
/// refused by both deposit and withdraw with `UnhandledAsset`, and neither
/// table is touched.
pub proof fn unhandled_asset(s: LedgerView, a: AssetView, at: Seq<u8>)
    requires
        !is_fungible(a),
    ensures
        deposit_outcome(s, a, at).1 == Err::<(), Error>(Error::UnhandledAsset),
        deposit_outcome(s, a, at).0.concrete == s.concrete,
        deposit_outcome(s, a, at).0.abstract_fungible == s.abstract_fungible,
        withdraw_outcome(s, a, at).1 == Err::<(), Error>(Error::UnhandledAsset),
        withdraw_outcome(s, a, at).0.concrete == s.concrete,
        withdraw_outcome(s, a, at).0.abstract_fungible == s.abstract_fungible,
{
}

/// Depositing an amount and then withdrawing the same amount at the same
/// holder both succeed and leave every balance of both tables as it was
/// (where the deposit does not overflow).
pub proof fn deposit_then_withdraw(s: LedgerView, a: AssetView, at: Seq<u8>)
    requires
        is_fungible(a),
        balance_of(table_of(s, a), key_of(a, at)) + amount_of(a) <= u128::MAX,
    ensures
        ({
            let (t1, r1) = deposit_outcome(s, a, at);
            let (t2, r2) = withdraw_outcome(t1, a, at);
            &&& r1 == Ok::<(), Error>(())
            &&& r2 == Ok::<(), Error>(())
            &&& forall|k: Key| balance_of(t2.concrete, k) == balance_of(s.concrete, k)
            &&& forall|k: Key|
                balance_of(t2.abstract_fungible, k) == balance_of(s.abstract_fungible, k)
        }),
{
}

/// The two tables are independent: depositing or withdrawing a concrete
/// asset leaves the abstract table as it was, and the other way round,
/// whatever the bytes of the identifiers.
pub proof fn tables_independent(s: LedgerView, a: AssetView, at: Seq<u8>)
    ensures
        a is ConcreteFungible ==> deposit_outcome(s, a, at).0.abstract_fungible
            == s.abstract_fungible,
        a is ConcreteFungible ==> withdraw_outcome(s, a, at).0.abstract_fungible
            == s.abstract_fungible,
        a is AbstractFungible ==> deposit_outcome(s, a, at).0.concrete == s.concrete,
        a is AbstractFungible ==> withdraw_outcome(s, a, at).0.concrete == s.concrete,
{
}

} // verus!
