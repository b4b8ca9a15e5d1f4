use kronos_prediction::Error;
use kronos_prediction::KronosPrediction;

const OWNER: u128 = 1;
const ALICE: u128 = 2;
const BOB: u128 = 3;

const TOP: u128 = 1000000000000;
const MID: u128 = 500000000000;
const LOW: u128 = 100000000000;

#[test]
fn test_new_works() {
    let contract = KronosPrediction::new(OWNER);
    assert_eq!(contract.get_total_pool(), 0);
}

#[test]
fn test_submit_prediction() {
    let mut contract = KronosPrediction::new(OWNER);
    let result = contract.submit_prediction(ALICE, "BTC".to_string(), 50000000, 1);
    assert!(result.is_ok());
}

#[test]
fn test_duplicate_prediction() {
    let mut contract = KronosPrediction::new(OWNER);
    contract
        .submit_prediction(ALICE, "BTC".to_string(), 50000000, 1)
        .unwrap();
    let result = contract.submit_prediction(ALICE, "BTC".to_string(), 51000000, 2);
    assert_eq!(result, Err(Error::PredictionAlreadyExists));
}

#[test]
fn test_invalid_prediction_value() {
    let mut contract = KronosPrediction::new(OWNER);
    let result = contract.submit_prediction(ALICE, "BTC".to_string(), 0, 1);
    assert_eq!(result, Err(Error::InvalidPredictionValue));
}

#[test]
fn zero_submission_has_no_storage_effect() {
    let mut contract = KronosPrediction::new(OWNER);
    let result = contract.submit_prediction(ALICE, "BTC".to_string(), 0, 1);
    assert_eq!(result, Err(Error::InvalidPredictionValue));
    assert!(contract.get_prediction(ALICE, "BTC".to_string()).is_none());
    let retry = contract.submit_prediction(ALICE, "BTC".to_string(), 42, 2);
    assert!(retry.is_ok());
}

#[test]
fn submitted_prediction_is_stored_unsettled() {
    let mut contract = KronosPrediction::new(OWNER);
    contract
        .submit_prediction(ALICE, "BTC".to_string(), 50000000, 77)
        .unwrap();
    let info = contract.get_prediction(ALICE, "BTC".to_string()).unwrap();
    assert_eq!(info.predicted_value, 50000000);
    assert_eq!(info.timestamp, 77);
    assert!(!info.settled);
    assert_eq!(info.actual_value, None);
}

#[test]
fn write_once_holds_for_any_value() {
    let mut contract = KronosPrediction::new(OWNER);
    contract
        .submit_prediction(ALICE, "BTC".to_string(), 100, 1)
        .unwrap();
    for value in [0u128, 1, 100, u128::MAX] {
        let result = contract.submit_prediction(ALICE, "BTC".to_string(), value, 2);
        assert_eq!(result, Err(Error::PredictionAlreadyExists));
    }
    // A different key is free: a fresh symbol or a fresh identity.
    assert!(contract
        .submit_prediction(ALICE, "ETH".to_string(), 100, 3)
        .is_ok());
    assert!(contract
        .submit_prediction(BOB, "BTC".to_string(), 100, 3)
        .is_ok());
}

#[test]
fn unauthorized_publish_is_rejected() {
    let mut contract = KronosPrediction::new(OWNER);
    contract
        .update_result(OWNER, "BTC".to_string(), 100, 1)
        .unwrap();
    let result = contract.update_result(ALICE, "BTC".to_string(), 999, 2);
    assert_eq!(result, Err(Error::OnlyOwner));
    assert_eq!(contract.get_actual_result("BTC".to_string()), Some(100));
    assert_eq!(contract.get_actual_result("ETH".to_string()), None);
}

#[test]
fn publish_overwrites_last_write_wins() {
    let mut contract = KronosPrediction::new(OWNER);
    contract
        .update_result(OWNER, "BTC".to_string(), 100, 1)
        .unwrap();
    contract
        .update_result(OWNER, "BTC".to_string(), 0, 2)
        .unwrap();
    assert_eq!(contract.get_actual_result("BTC".to_string()), Some(0));
}

#[test]
fn settle_without_prediction_fails() {
    let mut contract = KronosPrediction::new(OWNER);
    let result = contract.distribute_reward(ALICE, "BTC".to_string());
    assert_eq!(result, Err(Error::PredictionNotFound));
}

#[test]
fn settle_without_published_result_fails() {
    let mut contract = KronosPrediction::new(OWNER);
    contract
        .submit_prediction(ALICE, "BTC".to_string(), 100, 1)
        .unwrap();
    let result = contract.distribute_reward(ALICE, "BTC".to_string());
    assert_eq!(result, Err(Error::PredictionNotFound));
    assert!(!contract.get_prediction(ALICE, "BTC".to_string()).unwrap().settled);
}

#[test]
fn tier_examples() {
    // predicted = 100 against actuals 100, 107, 126, 200:
    // error% 0, 6, 20, 50 -> rewards TOP, MID, LOW, nothing.
    let cases: [(u128, u128); 4] = [(100, TOP), (107, MID), (126, LOW), (200, 0)];
    for (actual, reward) in cases {
        let mut contract = KronosPrediction::new(OWNER);
        contract
            .submit_prediction(ALICE, "BTC".to_string(), 100, 1)
            .unwrap();
        contract
            .update_result(OWNER, "BTC".to_string(), actual, 2)
            .unwrap();
        contract.distribute_reward(ALICE, "BTC".to_string()).unwrap();
        assert_eq!(contract.get_reward_balance(ALICE), reward);
        assert_eq!(contract.get_total_pool(), reward);
    }
}

#[test]
fn tier_boundaries() {
    // Against actual = 100, each predicted value sits exactly on a boundary
    // of the tier table.
    let cases: [(u128, u128); 6] =
        [(95, TOP), (94, MID), (90, MID), (89, LOW), (80, LOW), (79, 0)];
    for (predicted, reward) in cases {
        let mut contract = KronosPrediction::new(OWNER);
        contract
            .submit_prediction(ALICE, "BTC".to_string(), predicted, 1)
            .unwrap();
        contract
            .update_result(OWNER, "BTC".to_string(), 100, 2)
            .unwrap();
        contract.distribute_reward(ALICE, "BTC".to_string()).unwrap();
        assert_eq!(contract.get_reward_balance(ALICE), reward);
    }
}

#[test]
fn zero_actual_value_gives_no_reward() {
    let mut contract = KronosPrediction::new(OWNER);
    contract
        .submit_prediction(ALICE, "BTC".to_string(), 100, 1)
        .unwrap();
    contract
        .update_result(OWNER, "BTC".to_string(), 0, 2)
        .unwrap();
    contract.distribute_reward(ALICE, "BTC".to_string()).unwrap();
    assert_eq!(contract.get_reward_balance(ALICE), 0);
    let info = contract.get_prediction(ALICE, "BTC".to_string()).unwrap();
    assert!(info.settled);
    assert_eq!(info.actual_value, Some(0));
}

#[test]
fn huge_values_are_tiered_without_overflow() {
    // diff * 100 would overflow u128; the tier decision must still be exact.
    // actual = u128::MAX, predicted = actual - actual / 25: error% = 4 -> TOP.
    let actual = u128::MAX;
    let predicted = actual - actual / 25;
    let mut contract = KronosPrediction::new(OWNER);
    contract
        .submit_prediction(ALICE, "BTC".to_string(), predicted, 1)
        .unwrap();
    contract
        .update_result(OWNER, "BTC".to_string(), actual, 2)
        .unwrap();
    contract.distribute_reward(ALICE, "BTC".to_string()).unwrap();
    assert_eq!(contract.get_reward_balance(ALICE), TOP);
}

#[test]
fn settlement_is_idempotent() {
    let mut contract = KronosPrediction::new(OWNER);
    contract
        .submit_prediction(ALICE, "BTC".to_string(), 100, 1)
        .unwrap();
    contract
        .update_result(OWNER, "BTC".to_string(), 100, 2)
        .unwrap();
    contract.distribute_reward(ALICE, "BTC".to_string()).unwrap();
    let balance_after_first = contract.get_reward_balance(ALICE);
    let pool_after_first = contract.get_total_pool();
    let prediction_after_first = contract.get_prediction(ALICE, "BTC".to_string());

    let second = contract.distribute_reward(ALICE, "BTC".to_string());
    assert!(second.is_ok());
    assert_eq!(contract.get_reward_balance(ALICE), balance_after_first);
    assert_eq!(contract.get_total_pool(), pool_after_first);
    assert_eq!(
        contract.get_prediction(ALICE, "BTC".to_string()),
        prediction_after_first
    );
}

#[test]
fn settlement_records_actual_value() {
    let mut contract = KronosPrediction::new(OWNER);
    contract
        .submit_prediction(ALICE, "BTC".to_string(), 100, 1)
        .unwrap();
    contract
        .update_result(OWNER, "BTC".to_string(), 107, 2)
        .unwrap();
    contract.distribute_reward(ALICE, "BTC".to_string()).unwrap();
    let info = contract.get_prediction(ALICE, "BTC".to_string()).unwrap();
    assert!(info.settled);
    assert_eq!(info.actual_value, Some(107));
    assert_eq!(info.predicted_value, 100);
    // A result published later does not reopen the settled prediction.
    contract
        .update_result(OWNER, "BTC".to_string(), 500, 3)
        .unwrap();
    contract.distribute_reward(ALICE, "BTC".to_string()).unwrap();
    let info = contract.get_prediction(ALICE, "BTC".to_string()).unwrap();
    assert_eq!(info.actual_value, Some(107));
    assert_eq!(contract.get_reward_balance(ALICE), MID);
}

#[test]
fn withdraw_zeroes_balance() {
    let mut contract = KronosPrediction::new(OWNER);
    contract
        .submit_prediction(ALICE, "BTC".to_string(), 100, 1)
        .unwrap();
    contract
        .update_result(OWNER, "BTC".to_string(), 100, 2)
        .unwrap();
    contract.distribute_reward(ALICE, "BTC".to_string()).unwrap();
    assert_eq!(contract.get_reward_balance(ALICE), TOP);

    contract.withdraw_reward(ALICE).unwrap();
    assert_eq!(contract.get_reward_balance(ALICE), 0);
    let second = contract.withdraw_reward(ALICE);
    assert_eq!(second, Err(Error::InsufficientBalance));
}

#[test]
fn withdraw_with_no_balance_fails() {
    let mut contract = KronosPrediction::new(OWNER);
    assert_eq!(
        contract.withdraw_reward(ALICE),
        Err(Error::InsufficientBalance)
    );
}

#[test]
fn pool_is_monotonic_and_counts_lifetime_distribution() {
    let mut contract = KronosPrediction::new(OWNER);
    let mut last_pool = contract.get_total_pool();

    contract
        .submit_prediction(ALICE, "BTC".to_string(), 100, 1)
        .unwrap();
    assert!(contract.get_total_pool() >= last_pool);
    last_pool = contract.get_total_pool();

    contract
        .submit_prediction(BOB, "BTC".to_string(), 90, 1)
        .unwrap();
    contract
        .update_result(OWNER, "BTC".to_string(), 100, 2)
        .unwrap();
    assert!(contract.get_total_pool() >= last_pool);
    last_pool = contract.get_total_pool();

    contract.distribute_reward(ALICE, "BTC".to_string()).unwrap();
    assert_eq!(contract.get_total_pool(), last_pool + TOP);
    last_pool = contract.get_total_pool();

    contract.distribute_reward(BOB, "BTC".to_string()).unwrap();
    assert_eq!(contract.get_total_pool(), last_pool + MID);
    last_pool = contract.get_total_pool();

    // Withdrawal clears the balance but never the pool.
    contract.withdraw_reward(ALICE).unwrap();
    assert_eq!(contract.get_total_pool(), last_pool);
    assert_eq!(contract.get_total_pool(), TOP + MID);
}

#[test]
fn balances_are_per_identity() {
    let mut contract = KronosPrediction::new(OWNER);
    contract
        .submit_prediction(ALICE, "BTC".to_string(), 100, 1)
        .unwrap();
    contract
        .submit_prediction(BOB, "BTC".to_string(), 200, 1)
        .unwrap();
    contract
        .update_result(OWNER, "BTC".to_string(), 100, 2)
        .unwrap();
    contract.distribute_reward(ALICE, "BTC".to_string()).unwrap();
    contract.distribute_reward(BOB, "BTC".to_string()).unwrap();
    assert_eq!(contract.get_reward_balance(ALICE), TOP);
    assert_eq!(contract.get_reward_balance(BOB), 0);
    contract.withdraw_reward(ALICE).unwrap();
    assert_eq!(contract.get_reward_balance(ALICE), 0);
    assert_eq!(contract.get_total_pool(), TOP);
}

#[test]
fn owner_is_fixed_at_construction() {
    let contract = KronosPrediction::new(OWNER);
    assert_eq!(contract.get_owner(), OWNER);
    let defaulted = KronosPrediction::default();
    assert_eq!(defaulted.get_owner(), 0);
    assert_eq!(defaulted.get_total_pool(), 0);
}
