//! The executable ledger. Each public operation is verified to perform
//! exactly the transition of [`crate::model`] that specifies it: the state
//! after the call and the returned result are pinned down together, for
//! every input.

use vstd::prelude::*;
use crate::data::AccountId;
use crate::data::Balance;
use crate::data::Error;
use crate::data::PredKey;
use crate::data::PredictionInfo;
use crate::data::ResultInfo;
use crate::model::StateView;
use crate::model::balance_in;
use crate::model::initial_state;
use crate::model::publish_spec;
use crate::model::settle_spec;
use crate::model::submit_spec;
use crate::model::withdraw_spec;
use crate::table::Table;
use crate::tier::reward_of;

verus! {

/// The prediction-settlement ledger: registry, publisher, settlement engine
/// and reward ledger over one shared store.
pub struct KronosPrediction {
    owner: AccountId,
    predictions: Table<PredKey, PredictionInfo>,
    results: Table<String, ResultInfo>,
    rewards: Table<AccountId, Balance>,
    total_pool: Balance,
}

impl View for KronosPrediction {
    type V = StateView;

    closed spec fn view(&self) -> StateView {
        StateView {
            owner: self.owner,
            predictions: self.predictions@,
            results: self.results@,
            rewards: self.rewards@,
            total_pool: self.total_pool,
        }
    }
}

impl KronosPrediction {
    /// A fresh ledger with empty tables, an empty pool, and `owner` as the
    /// single identity allowed to publish results.
    pub fn new(owner: AccountId) -> (r: Self)
        ensures
            r@ == initial_state(owner),
    {
        let r = KronosPrediction {
            owner,
            predictions: Table::new(),
            results: Table::new(),
            rewards: Table::new(),
            total_pool: 0,
        };
        proof {
            assert(r@ =~= initial_state(owner));
        }
        r
    }

    /// Accepts one forecast per (identity, symbol) key. A key already
    /// holding a forecast is rejected with `PredictionAlreadyExists`, a zero
    /// value with `InvalidPredictionValue`; either failure leaves the state
    /// untouched. On success the forecast is stored unsettled with the given
    /// timestamp.
    pub fn submit_prediction(
        &mut self,
        caller: AccountId,
        symbol: String,
        predicted_value: Balance,
        now: u64,
    ) -> (result: Result<(), Error>)
        ensures
            ({
                let (s, r) = submit_spec(old(self)@, caller, symbol@, predicted_value, now);
                final(self)@ == s && result == r
            }),
    {
        let key = PredKey { account: caller, symbol };
        if self.predictions.contains(&key) {
            return Err(Error::PredictionAlreadyExists);
        }
        if predicted_value == 0 {
            return Err(Error::InvalidPredictionValue);
        }
        let info = PredictionInfo {
            predicted_value,
            timestamp: now,
            settled: false,
            actual_value: None,
        };
        self.predictions.insert(key, info);
        proof {
            assert(self@ =~= submit_spec(old(self)@, caller, key@.1, predicted_value, now).0);
        }
        Ok(())
    }

    /// Records the realized value for a symbol. Only the owner may call;
    /// any other caller gets `OnlyOwner` and the state is untouched. On
    /// success the entry for the symbol is overwritten, last write wins.
    pub fn update_result(
        &mut self,
        caller: AccountId,
        symbol: String,
        actual_value: Balance,
        now: u64,
    ) -> (result: Result<(), Error>)
        ensures
            ({
                let (s, r) = publish_spec(old(self)@, caller, symbol@, actual_value, now);
                final(self)@ == s && result == r
            }),
    {
        if caller != self.owner {
            return Err(Error::OnlyOwner);
        }
        let ghost symbol_view = symbol@;
        let info = ResultInfo { value: actual_value, timestamp: now };
        self.results.insert(symbol, info);
        proof {
            assert(self@ =~= publish_spec(old(self)@, caller, symbol_view, actual_value, now).0);
        }
        Ok(())
    }

    /// The stored forecast for a key, or `None` when none was submitted.
    pub fn get_prediction(&self, account: AccountId, symbol: String) -> (result: Option<
        PredictionInfo,
    >)
        ensures
            result == (if self@.predictions.contains_key((account, symbol@)) {
                Some(self@.predictions[(account, symbol@)])
            } else {
                None::<PredictionInfo>
            }),
    {
        let key = PredKey { account, symbol };
        self.predictions.get(&key)
    }

    /// The published realized value for a symbol, or `None` when none was
    /// published.
    pub fn get_actual_result(&self, symbol: String) -> (result: Option<Balance>)
        ensures
            result == (if self@.results.contains_key(symbol@) {
                Some(self@.results[symbol@].value)
            } else {
                None::<Balance>
            }),
    {
        match self.results.get(&symbol) {
            Some(info) => Some(info.value),
            None => None,
        }
    }

    /// Settles one forecast against the published result for its symbol.
    /// Fails with `PredictionNotFound` when the forecast, or the result it
    /// needs, is absent. A forecast already settled is an idempotent
    /// success with no further effect. Otherwise the tiered reward is
    /// credited to the identity's balance and to the pool (both saturating),
    /// and the forecast is marked settled with the actual value recorded —
    /// exactly once per prediction.
    pub fn distribute_reward(&mut self, account: AccountId, symbol: String) -> (result: Result<
        (),
        Error,
    >)
        ensures
            ({
                let (s, r) = settle_spec(old(self)@, account, symbol@);
                final(self)@ == s && result == r
            }),
    {
        let key = PredKey { account, symbol: symbol.clone() };
        let mut prediction = match self.predictions.get(&key) {
            None => {
                return Err(Error::PredictionNotFound);
            },
            Some(p) => p,
        };
        if prediction.settled {
            return Ok(());
        }
        let actual = match self.results.get(&symbol) {
            None => {
                return Err(Error::PredictionNotFound);
            },
            Some(info) => info.value,
        };
        let reward_amount = reward_of(prediction.predicted_value, actual);
        if reward_amount > 0 {
            let current = match self.rewards.get(&account) {
                Some(balance) => balance,
                None => 0,
            };
            self.rewards.insert(account, current.saturating_add(reward_amount));
            self.total_pool = self.total_pool.saturating_add(reward_amount);
        }
        prediction.settled = true;
        prediction.actual_value = Some(actual);
        self.predictions.insert(key, prediction);
        proof {
            assert(self@ =~= settle_spec(old(self)@, account, symbol@).0);
        }
        Ok(())
    }

    /// The accrued reward balance of an identity, zero when unknown.
    pub fn get_reward_balance(&self, account: AccountId) -> (result: Balance)
        ensures
            result == balance_in(self@.rewards, account),
    {
        match self.rewards.get(&account) {
            Some(balance) => balance,
            None => 0,
        }
    }

    /// Withdraws the caller's whole balance: fails with
    /// `InsufficientBalance` when it is zero, otherwise resets it to zero.
    /// The pool records lifetime distribution and is untouched.
    pub fn withdraw_reward(&mut self, caller: AccountId) -> (result: Result<(), Error>)
        ensures
            ({
                let (s, r) = withdraw_spec(old(self)@, caller);
                final(self)@ == s && result == r
            }),
    {
        let reward_amount = match self.rewards.get(&caller) {
            Some(balance) => balance,
            None => 0,
        };
        if reward_amount == 0 {
            return Err(Error::InsufficientBalance);
        }
        self.rewards.insert(caller, 0);
        proof {
            assert(self@ =~= withdraw_spec(old(self)@, caller).0);
        }
        Ok(())
    }

    /// The identity fixed at construction as the publishing authority.
    pub fn get_owner(&self) -> (result: AccountId)
        ensures
            result == self@.owner,
    {
        self.owner
    }

    /// The lifetime total of all rewards ever credited, across all
    /// identities, independent of withdrawals.
    pub fn get_total_pool(&self) -> (result: Balance)
        ensures
            result == self@.total_pool,
    {
        self.total_pool
    }
}

impl Default for KronosPrediction {
    /// A fresh ledger owned by the zero identity.
    fn default() -> (r: Self)
        ensures
            r@ == initial_state(0),
    {
        KronosPrediction::new(0)
    }
}

} // verus!
