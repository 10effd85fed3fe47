//! Custody of assets that a chain does not otherwise recognise. Balances of
//! concrete fungible assets (named by a location) and of abstract fungible
//! assets (named by bytes) are kept per holder, changed only by checked
//! deposits and withdrawals, and each attempt records one event.
use vstd::prelude::*;

pub mod asset;
pub mod laws;
pub mod ledger;
pub mod table;

pub use asset::{Asset, Location};
pub use ledger::{Event, Pallet};

verus! {

/// Why a ledger operation was refused.
#[derive(Clone, Copy, Debug, PartialEq, Eq, Structural)]
pub enum Error {
    /// The balance is too low for the withdrawal.
    BalanceTooLow,
    /// The deposit would take the balance past the largest `u128`.
    BalanceOverflow,
    /// The asset is of a class that the ledger does not hold.
    UnhandledAsset,
}

} // verus!
