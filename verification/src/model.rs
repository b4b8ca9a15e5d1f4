//! The mathematical model of the ledger: an abstract state made of `Map`s,
//! and one pure transition function per public operation. Every executable
//! operation of [`crate::ledger::KronosPrediction`] is specified as exactly
//! one of these transitions; the laws of the system are proved about them in
//! [`crate::laws`].

use vstd::prelude::*;
use crate::data::AccountId;
use crate::data::Balance;
use crate::data::Error;
use crate::data::PredictionInfo;
use crate::data::ResultInfo;
use crate::tier::reward_of_spec;

verus! {

/// The abstract ledger state: the owner fixed at construction, the three
/// store tables, and the lifetime reward pool.
#[verifier::ext_equal]
pub struct StateView {
    /// The single identity allowed to publish results.
    pub owner: AccountId,
    /// One forecast per (identity, symbol) key.
    pub predictions: Map<(AccountId, Seq<char>), PredictionInfo>,
    /// The published realized value per symbol, last write wins.
    pub results: Map<Seq<char>, ResultInfo>,
    /// Accrued, not yet withdrawn reward per identity.
    pub rewards: Map<AccountId, Balance>,
    /// Lifetime cumulative total of all rewards ever credited.
    pub total_pool: Balance,
}

/// The state a freshly constructed ledger denotes.
pub open spec fn initial_state(owner: AccountId) -> StateView {
    StateView {
        owner,
        predictions: Map::empty(),
        results: Map::empty(),
        rewards: Map::empty(),
        total_pool: 0,
    }
}

/// The balance a rewards table assigns to an identity, zero when absent.
pub open spec fn balance_in(rewards: Map<AccountId, Balance>, account: AccountId) -> Balance {
    if rewards.contains_key(account) {
        rewards[account]
    } else {
        0
    }
}

/// Submitting a forecast: write-once per key, zero rejected, no effect on
/// failure.
pub open spec fn submit_spec(
    s: StateView,
    caller: AccountId,
    symbol: Seq<char>,
    predicted_value: Balance,
    now: u64,
) -> (StateView, Result<(), Error>) {
    if s.predictions.contains_key((caller, symbol)) {
        (s, Err(Error::PredictionAlreadyExists))
    } else if predicted_value == 0 {
        (s, Err(Error::InvalidPredictionValue))
    } else {
        let info = PredictionInfo {
            predicted_value,
            timestamp: now,
            settled: false,
            actual_value: None,
        };
        (
            StateView { predictions: s.predictions.insert((caller, symbol), info), ..s },
            Ok(()),
        )
    }
}

/// Publishing a realized value: owner only; unconditionally overwrites the
/// entry for the symbol on success.
pub open spec fn publish_spec(
    s: StateView,
    caller: AccountId,
    symbol: Seq<char>,
    actual_value: Balance,
    now: u64,
) -> (StateView, Result<(), Error>) {
    if caller != s.owner {
        (s, Err(Error::OnlyOwner))
    } else {
        let info = ResultInfo { value: actual_value, timestamp: now };
        (StateView { results: s.results.insert(symbol, info), ..s }, Ok(()))
    }
}

/// Settling a forecast against its published result: absent prediction or
/// absent result fail without effect; an already settled prediction is an
/// idempotent success; otherwise the tiered reward is credited saturating,
/// the pool grows by the same amount, and the prediction is marked settled
/// with the actual value recorded, all in one step.
pub open spec fn settle_spec(
    s: StateView,
    account: AccountId,
    symbol: Seq<char>,
) -> (StateView, Result<(), Error>) {
    let key = (account, symbol);
    if !s.predictions.contains_key(key) {
        (s, Err(Error::PredictionNotFound))
    } else if s.predictions[key].settled {
        (s, Ok(()))
    } else if !s.results.contains_key(symbol) {
        (s, Err(Error::PredictionNotFound))
    } else {
        let before = s.predictions[key];
        let actual = s.results[symbol].value;
        let reward = reward_of_spec(before.predicted_value, actual);
        let after = PredictionInfo { settled: true, actual_value: Some(actual), ..before };
        let credited = if reward > 0 {
            StateView {
                rewards: s.rewards.insert(
                    account,
                    balance_in(s.rewards, account).saturating_add(reward),
                ),
                total_pool: s.total_pool.saturating_add(reward),
                ..s
            }
        } else {
            s
        };
        (StateView { predictions: s.predictions.insert(key, after), ..credited }, Ok(()))
    }
}

/// Withdrawing: fails on a zero balance, otherwise resets the caller's
/// balance to zero. The pool records lifetime distribution and is untouched.
pub open spec fn withdraw_spec(s: StateView, caller: AccountId) -> (StateView, Result<(), Error>) {
    if balance_in(s.rewards, caller) == 0 {
        (s, Err(Error::InsufficientBalance))
    } else {
        (StateView { rewards: s.rewards.insert(caller, 0), ..s }, Ok(()))
    }
}

/// The data-model invariant: every stored forecast is strictly positive,
/// and a forecast carries a recorded actual value exactly when it is
/// settled.
pub open spec fn wf_state(s: StateView) -> bool {
    forall|key: (AccountId, Seq<char>)| #[trigger] s.predictions.contains_key(key) ==> {
        let p = s.predictions[key];
        p.predicted_value > 0 && (p.settled <==> p.actual_value is Some)
    }
}

/// One invocation of a mutating ledger operation, for stating laws over
/// arbitrary operation sequences.
pub enum LedgerOp {
    /// A forecast submission.
    Submit { caller: AccountId, symbol: Seq<char>, predicted_value: Balance, now: u64 },
    /// A result publication.
    Publish { caller: AccountId, symbol: Seq<char>, actual_value: Balance, now: u64 },
    /// A settlement.
    Settle { account: AccountId, symbol: Seq<char> },
    /// A withdrawal.
    Withdraw { caller: AccountId },
}

/// The state after one operation, whether or not it succeeded.
pub open spec fn step(s: StateView, op: LedgerOp) -> StateView {
    match op {
        LedgerOp::Submit { caller, symbol, predicted_value, now } => submit_spec(
            s,
            caller,
            symbol,
            predicted_value,
            now,
        ).0,
        LedgerOp::Publish { caller, symbol, actual_value, now } => publish_spec(
            s,
            caller,
            symbol,
            actual_value,
            now,
        ).0,
        LedgerOp::Settle { account, symbol } => settle_spec(s, account, symbol).0,
        LedgerOp::Withdraw { caller } => withdraw_spec(s, caller).0,
    }
}

/// The state after a whole sequence of operations, applied in order.
pub open spec fn run(s: StateView, ops: Seq<LedgerOp>) -> StateView
    decreases ops.len(),
{
    if ops.len() == 0 {
        s
    } else {
        run(step(s, ops[0]), ops.drop_first())
    }
}

} // verus!
