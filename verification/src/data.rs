//! Plain data carried by the ledger: identities, balances, the records held
//! in the three store tables, the error taxonomy, and the event records a
//! host may emit for observability.

use vstd::prelude::*;
use crate::table::TableKey;

verus! {

/// The caller principal distinguishing one participant from another.
pub type AccountId = u128;

/// An unsigned fixed-point quantity at the system-wide constant scale
/// (10^12 = one unit).
pub type Balance = u128;

/// Every failure a ledger operation can report. All are fatal to the
/// operation and returned as explicit values; no operation panics.
#[derive(Debug, Clone, Copy, PartialEq, Eq, Structural)]
pub enum Error {
    /// A restricted write was attempted by an identity other than the owner.
    OnlyOwner,
    /// The prediction, or the published result it needs, is absent.
    PredictionNotFound,
    /// A prediction already exists for this (identity, symbol) key.
    PredictionAlreadyExists,
    /// A withdrawal was attempted against a zero balance.
    InsufficientBalance,
    /// The submitted forecast value is structurally invalid (zero).
    InvalidPredictionValue,
}

/// One forecast, keyed by (identity, symbol). Created unsettled; settlement
/// flips `settled` to true and fills `actual_value` exactly once.
#[derive(Debug, Clone, Copy, PartialEq, Eq)]
pub struct PredictionInfo {
    /// The forecast value, strictly positive.
    pub predicted_value: Balance,
    /// When the forecast was submitted.
    pub timestamp: u64,
    /// Whether settlement has already run for this prediction.
    pub settled: bool,
    /// The published actual value, recorded at settlement.
    pub actual_value: Option<Balance>,
}

/// The authoritative realized value for one asset symbol, overwritable by
/// the owner; a later publication replaces an earlier one.
#[derive(Debug, Clone, Copy, PartialEq, Eq)]
pub struct ResultInfo {
    /// The realized value; zero and arbitrarily large values are accepted.
    pub value: Balance,
    /// When the value was published.
    pub timestamp: u64,
}

/// The composite key of the prediction table.
#[derive(Debug, Clone, PartialEq, Eq)]
pub struct PredKey {
    /// The submitting identity.
    pub account: AccountId,
    /// The asset symbol the forecast is about.
    pub symbol: String,
}

impl View for PredKey {
    type V = (AccountId, Seq<char>);

    open spec fn view(&self) -> (AccountId, Seq<char>) {
        (self.account, self.symbol@)
    }
}

impl TableKey for PredKey {
    fn key_eq(&self, other: &Self) -> (r: bool) {
        self.account == other.account && self.symbol == other.symbol
    }
}

/// Event record for a newly accepted forecast; emission is the host's
/// concern and not required for correctness.
#[derive(Debug, Clone)]
pub struct PredictionSubmitted {
    /// Who submitted.
    pub user: AccountId,
    /// The asset symbol.
    pub symbol: String,
    /// The forecast value.
    pub predicted_value: Balance,
    /// The submission timestamp.
    pub timestamp: u64,
}

/// Event record for a published result.
#[derive(Debug, Clone)]
pub struct ResultUpdated {
    /// The asset symbol.
    pub symbol: String,
    /// The realized value.
    pub actual_value: Balance,
    /// The publication timestamp.
    pub timestamp: u64,
}

/// Event record for a reward credit made by settlement.
#[derive(Debug, Clone)]
pub struct RewardDistributed {
    /// Who was credited.
    pub user: AccountId,
    /// The credited amount.
    pub amount: Balance,
}

} // verus!
