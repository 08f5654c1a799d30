use pessimistic_estimator::{EstimatorError, ExecutionCost, PessimisticEstimator, TransactionPayload};
use std::time::{SystemTime, UNIX_EPOCH};

fn fresh_path(name: &str) -> String {
    let nanos = SystemTime::now().duration_since(UNIX_EPOCH).unwrap().as_nanos();
    format!("/tmp/pessimistic_estimator_{}_{}.sqlite", name, nanos)
}

fn class_a() -> TransactionPayload {
    TransactionPayload::ContractCall {
        contract_name: "class-a".to_string(),
        function_name: "run".to_string(),
    }
}

fn cost(runtime: u64, read_count: u64, read_length: u64, write_count: u64, write_length: u64) -> ExecutionCost {
    ExecutionCost { runtime, read_count, read_length, write_count, write_length }
}

fn stored_samples(path: &str, key: &str) -> String {
    let db = rusqlite::Connection::open(path).unwrap();
    db.query_row(
        "SELECT samples FROM pessimistic_estimator WHERE estimate_key = ?",
        &[key],
        |row| row.get(0),
    )
    .unwrap()
}

#[test]
fn single_observation_is_its_own_estimate() {
    let path = fresh_path("single");
    let mut est = PessimisticEstimator::open(&path, false).unwrap();
    let observed = cost(5, 1, 10, 1, 10);
    est.notify_event(&class_a(), &observed).unwrap();
    assert_eq!(est.estimate_cost(&class_a()).unwrap(), observed);
}

#[test]
fn eleven_observations_evict_the_smallest() {
    let path = fresh_path("eleven");
    let mut est = PessimisticEstimator::open(&path, false).unwrap();
    for v in 1..=11u64 {
        est.notify_event(&class_a(), &cost(v, 0, 0, 0, 0)).unwrap();
    }
    let text = stored_samples(&path, "cc:class-a.run:runtime");
    let mut window: Vec<u64> = serde_json::from_str(&text).unwrap();
    window.sort();
    assert_eq!(window, vec![2, 3, 4, 5, 6, 7, 8, 9, 10, 11]);
    assert_eq!(est.estimate_cost(&class_a()).unwrap().runtime, 6);
}

#[test]
fn unseen_class_has_no_estimate() {
    let path = fresh_path("unseen");
    let mut est = PessimisticEstimator::open(&path, false).unwrap();
    assert!(matches!(est.estimate_cost(&class_a()), Err(EstimatorError::NoEstimateAvailable)));
    est.notify_event(&TransactionPayload::TokenTransfer, &cost(1, 1, 1, 1, 1)).unwrap();
    assert!(matches!(est.estimate_cost(&class_a()), Err(EstimatorError::NoEstimateAvailable)));
}

#[test]
fn repeated_estimates_agree() {
    let path = fresh_path("repeat");
    let mut est = PessimisticEstimator::open(&path, false).unwrap();
    est.notify_event(&class_a(), &cost(3, 4, 5, 6, 7)).unwrap();
    est.notify_event(&class_a(), &cost(8, 1, 2, 3, 4)).unwrap();
    let first = est.estimate_cost(&class_a()).unwrap();
    let second = est.estimate_cost(&class_a()).unwrap();
    assert_eq!(first, second);
    assert_eq!(first, cost(5, 2, 3, 4, 5));
}

#[test]
fn failed_notify_changes_nothing() {
    let path = fresh_path("atomic");
    let mut est = PessimisticEstimator::open(&path, false).unwrap();
    est.notify_event(&class_a(), &cost(5, 5, 5, 5, 5)).unwrap();
    let db = rusqlite::Connection::open(&path).unwrap();
    db.execute(
        "UPDATE pessimistic_estimator SET samples = 'corrupt' WHERE estimate_key = ?",
        &["cc:class-a.run:read-count"],
    )
    .unwrap();
    let outcome = est.notify_event(&class_a(), &cost(50, 50, 50, 50, 50));
    assert!(matches!(outcome, Err(EstimatorError::DeserializationError)));
    assert_eq!(est.estimate_cost(&class_a()).unwrap(), cost(5, 5, 5, 5, 5));
    assert_eq!(stored_samples(&path, "cc:class-a.run:runtime"), "[5]");
}

#[test]
fn window_survives_reopening() {
    let path = fresh_path("reopen");
    {
        let mut est = PessimisticEstimator::open(&path, false).unwrap();
        for v in [4u64, 9, 2] {
            est.notify_event(&TransactionPayload::Coinbase, &cost(v, v, v, v, v)).unwrap();
        }
    }
    let mut est = PessimisticEstimator::open(&path, true).unwrap();
    assert_eq!(est.estimate_cost(&TransactionPayload::Coinbase).unwrap(), cost(5, 5, 5, 5, 5));
    assert_eq!(stored_samples(&path, "coinbase:write-length"), "[4,9,2]");
    est.notify_event(&TransactionPayload::Coinbase, &cost(1, 1, 1, 1, 1)).unwrap();
    assert_eq!(stored_samples(&path, "coinbase:runtime"), "[4,9,2,1]");
}

#[test]
fn open_fails_where_no_file_can_be_made() {
    let outcome = PessimisticEstimator::open("/nonexistent-directory/for/estimates.sqlite", false);
    assert!(matches!(outcome, Err(EstimatorError::StorageUnavailable(_))));
}
