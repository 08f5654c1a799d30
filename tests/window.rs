use pessimistic_estimator::codec::{estimate_from_stored, stored_estimate, to_sql_value, updated_row};
use pessimistic_estimator::samples::SAMPLE_SIZE;
use pessimistic_estimator::{get_estimate_key, CostField, EstimatorError, ExecutionCost, Samples, TransactionPayload};

fn window_of(values: &[u64]) -> Samples {
    let mut w = Samples::new();
    for v in values {
        w.update_with(*v);
    }
    w
}

fn sorted(w: &Samples) -> Vec<u64> {
    let mut v = w.items().clone();
    v.sort();
    v
}

#[test]
fn window_appends_until_full() {
    let mut w = Samples::new();
    for v in 0..SAMPLE_SIZE as u64 {
        assert!(w.update_with(100 - v));
    }
    assert_eq!(w.items().len(), SAMPLE_SIZE);
}

#[test]
fn window_never_exceeds_capacity() {
    let mut w = Samples::new();
    for v in 0..50u64 {
        w.update_with(v * 7 % 13);
        assert!(w.items().len() <= SAMPLE_SIZE);
    }
    assert_eq!(w.items().len(), SAMPLE_SIZE);
}

#[test]
fn full_window_replaces_minimum_with_larger_sample() {
    let mut w = window_of(&[5, 3, 9, 3, 7, 8, 6, 4, 10, 11]);
    assert!(w.update_with(4));
    assert_eq!(w.items(), &vec![5, 4, 9, 3, 7, 8, 6, 4, 10, 11]);
    assert!(w.update_with(12));
    assert_eq!(sorted(&w), vec![4, 4, 5, 6, 7, 8, 9, 10, 11, 12]);
}

#[test]
fn full_window_rejects_sample_not_above_minimum() {
    let mut w = window_of(&[5, 3, 9, 3, 7, 8, 6, 4, 10, 11]);
    assert!(!w.update_with(3));
    assert!(!w.update_with(0));
    assert_eq!(w.items(), &vec![5, 3, 9, 3, 7, 8, 6, 4, 10, 11]);
}

#[test]
fn window_keeps_highest_of_eleven() {
    let w = window_of(&[1, 2, 3, 4, 5, 6, 7, 8, 9, 10, 11]);
    assert_eq!(sorted(&w), vec![2, 3, 4, 5, 6, 7, 8, 9, 10, 11]);
    assert_eq!(w.mean(), 6);
}

#[test]
fn mean_of_empty_window_is_zero() {
    assert_eq!(Samples::new().mean(), 0);
}

#[test]
fn mean_of_identical_values() {
    for n in 1..=SAMPLE_SIZE {
        let w = window_of(&vec![42u64; n]);
        assert_eq!(w.mean(), 42);
    }
    let w = window_of(&vec![u64::MAX; SAMPLE_SIZE]);
    assert_eq!(w.mean(), u64::MAX);
}

#[test]
fn mean_truncates() {
    assert_eq!(window_of(&[1, 2]).mean(), 1);
    assert_eq!(window_of(&[10, 20, 31]).mean(), 20);
    assert_eq!(window_of(&[u64::MAX, u64::MAX - 1]).mean(), u64::MAX - 1);
}

#[test]
fn window_json_text() {
    assert_eq!(window_of(&[]).to_json(), "[]");
    assert_eq!(window_of(&[1, 20, 300]).to_json(), "[1,20,300]");
    assert_eq!(window_of(&[u64::MAX]).to_json(), "[18446744073709551615]");
}

#[test]
fn window_json_round_trip() {
    let w = window_of(&[9, 0, 18446744073709551615, 4, 4]);
    let back = Samples::from_json(&w.to_json()).unwrap();
    assert_eq!(back.items(), w.items());
    let read = Samples::from_json(" [ 3 , 1 ] ").unwrap();
    assert_eq!(read.items(), &vec![3, 1]);
}

#[test]
fn window_json_rejects_corrupt_text() {
    assert!(matches!(Samples::from_json("not json"), Err(EstimatorError::DeserializationError)));
    assert!(matches!(Samples::from_json("[1,-2]"), Err(EstimatorError::DeserializationError)));
    assert!(matches!(Samples::from_json("{\"a\":1}"), Err(EstimatorError::DeserializationError)));
    assert!(matches!(
        Samples::from_json("[1,2,3,4,5,6,7,8,9,10,11]"),
        Err(EstimatorError::DeserializationError)
    ));
}

#[test]
fn row_update_from_absent_row() {
    let (value, text) = updated_row(None, 7).unwrap();
    assert_eq!(value, 7);
    assert_eq!(text, "[7]");
}

#[test]
fn row_update_from_stored_row() {
    let (value, text) = updated_row(Some("[1,2,3,4,5,6,7,8,9,10]".to_string()), 11).unwrap();
    assert_eq!(value, 6);
    assert_eq!(text, "[11,2,3,4,5,6,7,8,9,10]");
    let (value, text) = updated_row(Some("[2,4]".to_string()), 9).unwrap();
    assert_eq!(value, 5);
    assert_eq!(text, "[2,4,9]");
}

#[test]
fn row_update_saturates_large_mean() {
    let (value, _) = updated_row(None, u64::MAX).unwrap();
    assert_eq!(value, i64::MAX);
    assert_eq!(to_sql_value(i64::MAX as u64 + 1), i64::MAX);
    assert_eq!(to_sql_value(12), 12);
}

#[test]
fn row_update_rejects_corrupt_row() {
    assert!(matches!(updated_row(Some("[1,".to_string()), 1), Err(EstimatorError::DeserializationError)));
}

#[test]
fn stored_estimate_cases() {
    assert!(matches!(stored_estimate(None), Err(EstimatorError::NoEstimateAvailable)));
    assert!(matches!(stored_estimate(Some(-1)), Err(EstimatorError::DeserializationError)));
    assert_eq!(stored_estimate(Some(0)).unwrap(), 0);
    assert_eq!(stored_estimate(Some(i64::MAX)).unwrap(), i64::MAX as u64);
}

#[test]
fn estimate_keys() {
    let call = TransactionPayload::ContractCall {
        contract_name: "pox".to_string(),
        function_name: "stack-stx".to_string(),
    };
    assert_eq!(get_estimate_key(&call, &CostField::RuntimeCost), "cc:pox.stack-stx:runtime");
    assert_eq!(
        get_estimate_key(&TransactionPayload::TokenTransfer, &CostField::WriteLength),
        "stx-transfer:write-length"
    );
    assert_eq!(
        get_estimate_key(&TransactionPayload::SmartContract, &CostField::WriteCount),
        "contract-publish:write-count"
    );
    assert_eq!(
        get_estimate_key(&TransactionPayload::PoisonMicroblock, &CostField::ReadLength),
        "poison-ublock:read-length"
    );
    assert_eq!(
        get_estimate_key(&TransactionPayload::Coinbase, &CostField::ReadCount),
        "coinbase:read-count"
    );
}

#[test]
fn select_key_picks_each_dimension() {
    let cost = ExecutionCost { runtime: 1, write_length: 2, write_count: 3, read_length: 4, read_count: 5 };
    let got: Vec<u64> = CostField::all().iter().map(|f| f.select_key(&cost)).collect();
    assert_eq!(got, vec![1, 2, 3, 4, 5]);
}

#[test]
fn keys_differ_across_dimensions_and_kinds() {
    let payloads = vec![
        TransactionPayload::TokenTransfer,
        TransactionPayload::ContractCall { contract_name: "a".to_string(), function_name: "b".to_string() },
        TransactionPayload::SmartContract,
        TransactionPayload::PoisonMicroblock,
        TransactionPayload::Coinbase,
    ];
    let mut keys: Vec<String> = Vec::new();
    for p in &payloads {
        for f in CostField::all() {
            keys.push(get_estimate_key(p, &f));
        }
    }
    let total = keys.len();
    keys.sort();
    keys.dedup();
    assert_eq!(keys.len(), total);
    assert_eq!(total, 25);
}

#[test]
fn estimate_fills_each_field_from_its_own_value() {
    let c = estimate_from_stored(Some(5), Some(1), Some(10), Some(2), Some(20)).unwrap();
    assert_eq!(c, ExecutionCost { runtime: 5, read_count: 1, read_length: 10, write_count: 2, write_length: 20 });
}

#[test]
fn estimate_of_unseen_class_is_unavailable() {
    assert!(matches!(estimate_from_stored(None, None, None, None, None), Err(EstimatorError::NoEstimateAvailable)));
}

#[test]
fn estimate_never_partial() {
    assert!(matches!(
        estimate_from_stored(Some(5), Some(1), Some(10), Some(2), None),
        Err(EstimatorError::NoEstimateAvailable)
    ));
    assert!(matches!(
        estimate_from_stored(Some(5), None, Some(-1), Some(2), Some(3)),
        Err(EstimatorError::NoEstimateAvailable)
    ));
    assert!(matches!(
        estimate_from_stored(Some(5), Some(-1), None, Some(2), Some(3)),
        Err(EstimatorError::DeserializationError)
    ));
}
