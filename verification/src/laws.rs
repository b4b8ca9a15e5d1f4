//! The laws of the ledger, proved once and for all over the transitions of
//! [`crate::model`]. Every executable operation is verified to perform
//! exactly its transition, so each law carries over to any sequence of
//! calls on [`crate::ledger::KronosPrediction`].

use vstd::prelude::*;
use crate::data::AccountId;
use crate::data::Balance;
use crate::data::Error;
use crate::model::LedgerOp;
use crate::model::StateView;
use crate::model::balance_in;
use crate::model::publish_spec;
use crate::model::run;
use crate::model::settle_spec;
use crate::model::step;
use crate::model::submit_spec;
use crate::model::initial_state;
use crate::model::wf_state;
use crate::model::withdraw_spec;
use crate::tier::reward_of_spec;

verus! {

/// Write-once: once a submission for a key has succeeded, every further
/// submission for the same key fails with `PredictionAlreadyExists` and
/// changes nothing, regardless of the value submitted.
pub proof fn lemma_submit_write_once(
    s: StateView,
    caller: AccountId,
    symbol: Seq<char>,
    first_value: Balance,
    first_now: u64,
    second_value: Balance,
    second_now: u64,
)
    requires
        submit_spec(s, caller, symbol, first_value, first_now).1 is Ok,
    ensures
        ({
            let s1 = submit_spec(s, caller, symbol, first_value, first_now).0;
            submit_spec(s1, caller, symbol, second_value, second_now) == (
                s1,
                Err::<(), Error>(Error::PredictionAlreadyExists),
            )
        }),
{
}

/// Zero rejection: a zero forecast never changes the state and always
/// fails; when the key is still free, the error is precisely
/// `InvalidPredictionValue`.
pub proof fn lemma_submit_zero_rejected(
    s: StateView,
    caller: AccountId,
    symbol: Seq<char>,
    now: u64,
)
    ensures
        submit_spec(s, caller, symbol, 0, now).0 == s,
        submit_spec(s, caller, symbol, 0, now).1 is Err,
        !s.predictions.contains_key((caller, symbol)) ==> submit_spec(s, caller, symbol, 0, now).1
            == Err::<(), Error>(Error::InvalidPredictionValue),
{
}

/// Idempotent settlement: after a settlement succeeds, settling the same
/// key again succeeds with no effect at all — balances, pool and prediction
/// state stay exactly as the first settlement left them.
pub proof fn lemma_settle_idempotent(s: StateView, account: AccountId, symbol: Seq<char>)
    requires
        settle_spec(s, account, symbol).1 is Ok,
    ensures
        ({
            let s1 = settle_spec(s, account, symbol).0;
            settle_spec(s1, account, symbol) == (s1, Ok::<(), Error>(()))
        }),
{
}

/// Withdrawal zeroes the balance: after a withdrawal succeeds the caller's
/// balance reads zero, an immediate second withdrawal fails with
/// `InsufficientBalance` and changes nothing, and the pool is untouched.
pub proof fn lemma_withdraw_zeroes_balance(s: StateView, caller: AccountId)
    requires
        withdraw_spec(s, caller).1 is Ok,
    ensures
        ({
            let s1 = withdraw_spec(s, caller).0;
            balance_in(s1.rewards, caller) == 0 && withdraw_spec(s1, caller) == (
                s1,
                Err::<(), Error>(Error::InsufficientBalance),
            ) && s1.total_pool == s.total_pool
        }),
{
}

/// Unauthorized publish rejected: a publication from any identity other
/// than the owner fails with `OnlyOwner` and leaves the whole state, the
/// published results with it, unchanged.
pub proof fn lemma_publish_unauthorized(
    s: StateView,
    caller: AccountId,
    symbol: Seq<char>,
    actual_value: Balance,
    now: u64,
)
    requires
        caller != s.owner,
    ensures
        publish_spec(s, caller, symbol, actual_value, now) == (
            s,
            Err::<(), Error>(Error::OnlyOwner),
        ),
{
}

/// Pool monotonicity, one step: no operation, successful or not, ever
/// decreases the total pool.
pub proof fn lemma_step_pool_monotonic(s: StateView, op: LedgerOp)
    ensures
        step(s, op).total_pool >= s.total_pool,
{
}

/// Pool monotonicity: the total pool is non-decreasing across any sequence
/// of operations.
pub proof fn lemma_run_pool_monotonic(s: StateView, ops: Seq<LedgerOp>)
    ensures
        run(s, ops).total_pool >= s.total_pool,
    decreases ops.len(),
{
    if ops.len() > 0 {
        lemma_step_pool_monotonic(s, ops[0]);
        lemma_run_pool_monotonic(step(s, ops[0]), ops.drop_first());
    }
}

/// Pool accounting: a settlement that credits a reward grows the pool by
/// exactly the rewarded amount, as long as the pool accumulator does not
/// saturate; the identity's balance grows by the same amount under the same
/// proviso on the balance.
pub proof fn lemma_settle_pool_increase(s: StateView, account: AccountId, symbol: Seq<char>)
    requires
        s.predictions.contains_key((account, symbol)),
        !s.predictions[(account, symbol)].settled,
        s.results.contains_key(symbol),
    ensures
        ({
            let reward = reward_of_spec(
                s.predictions[(account, symbol)].predicted_value,
                s.results[symbol].value,
            );
            let s1 = settle_spec(s, account, symbol).0;
            (s.total_pool + reward <= Balance::MAX ==> s1.total_pool == s.total_pool + reward)
                && (balance_in(s.rewards, account) + reward <= Balance::MAX ==> balance_in(
                s1.rewards,
                account,
            ) == balance_in(s.rewards, account) + reward)
        }),
{
}

/// A fresh ledger satisfies the data-model invariant.
pub proof fn lemma_initial_wf(owner: AccountId)
    ensures
        wf_state(initial_state(owner)),
{
}

/// Every operation preserves the data-model invariant: stored forecasts
/// stay strictly positive, and a forecast carries a recorded actual value
/// exactly when it is settled.
pub proof fn lemma_step_preserves_wf(s: StateView, op: LedgerOp)
    requires
        wf_state(s),
    ensures
        wf_state(step(s, op)),
{
}

/// Settled is terminal: no operation ever deletes a prediction, and once a
/// prediction is settled no operation changes it again.
pub proof fn lemma_settled_is_terminal(s: StateView, op: LedgerOp, key: (AccountId, Seq<char>))
    requires
        s.predictions.contains_key(key),
    ensures
        step(s, op).predictions.contains_key(key),
        s.predictions[key].settled ==> step(s, op).predictions[key] == s.predictions[key],
{
}

} // verus!
