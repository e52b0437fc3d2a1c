use mnist_core::data::{Data, DataSingle};
use mnist_core::model::{
    count_matches, one_hot, one_hot_rows, select_class, select_classes, sync_weights, Model,
};
use mnist_core::ModelError;
use rand::Rng;

// The order key of a number: a monotone recoding of its bits, so that key
// order agrees with numeric order; used by inference over raw logits.
fn order_key(x: f64) -> u64 {
    let bits = x.to_bits();
    if x >= 0.0 {
        bits | 0x8000_0000_0000_0000
    } else {
        !bits
    }
}

fn random_codes(rows: usize, cols: usize) -> Vec<Vec<u64>> {
    let mut rng = rand::thread_rng();
    (0..rows)
        .map(|_| (0..cols).map(|_| rng.gen::<f64>().to_bits()).collect())
        .collect()
}

#[test]
fn test_export() {
    let model = Model::new(
        (random_codes(784, 128), random_codes(128, 10)),
        (0.1f64.to_bits(), 0.1f64.to_bits()),
    )
    .unwrap();
    let weights = model.export_weights();
    assert_eq!(weights.0.len(), 784);
    assert_eq!(weights.0[0].len(), 128);
    assert_eq!(weights.1.len(), 128);
    assert_eq!(weights.1[0].len(), 10);
}

#[test]
fn new_rejects_ragged_matrix() {
    let w0: Vec<Vec<u64>> = vec![vec![1, 2], vec![3]];
    let w1: Vec<Vec<u64>> = vec![vec![4], vec![5]];
    assert!(matches!(Model::new((w0, w1), (0, 0)), Err(ModelError::DimensionMismatch)));
}

#[test]
fn new_rejects_non_conforming_pair() {
    // First layer is 2 wide but the second has 3 rows.
    let w0: Vec<Vec<u64>> = vec![vec![1, 2]];
    let w1: Vec<Vec<u64>> = vec![vec![4], vec![5], vec![6]];
    assert!(matches!(Model::new((w0, w1), (0, 0)), Err(ModelError::DimensionMismatch)));
}

#[test]
fn new_rejects_empty_layer() {
    let w0: Vec<Vec<u64>> = vec![];
    let w1: Vec<Vec<u64>> = vec![vec![4]];
    assert!(matches!(Model::new((w0, w1), (0, 0)), Err(ModelError::DimensionMismatch)));
}

#[test]
fn replace_weights_keeps_learning_rates() {
    let mut model = Model::new((vec![vec![1, 2]], vec![vec![3], vec![4]]), (7, 8)).unwrap();
    model.replace_weights((vec![vec![9, 10]], vec![vec![11], vec![12]])).unwrap();
    assert_eq!(model.weights.0, vec![vec![9, 10]]);
    assert_eq!(model.weights.1, vec![vec![11], vec![12]]);
    assert_eq!(model.learning_rates, (7, 8));
    // A malformed replacement is rejected and changes nothing.
    let e = model.replace_weights((vec![vec![9, 10], vec![1]], vec![vec![11]]));
    assert!(matches!(e, Err(ModelError::DimensionMismatch)));
    assert_eq!(model.weights.0, vec![vec![9, 10]]);
}

#[test]
fn weights_flattens_row_major() {
    let model = Model::new(
        (vec![vec![1, 2], vec![3, 4]], vec![vec![5], vec![6]]),
        (0, 0),
    )
    .unwrap();
    let (a, b) = model.weights();
    assert_eq!(a, vec![1, 2, 3, 4]);
    assert_eq!(b, vec![5, 6]);
}

#[test]
fn sync_weights_copies_both_layers() {
    let model = Model::new((vec![vec![1, 2]], vec![vec![3], vec![4]]), (0, 0)).unwrap();
    let snapshot = sync_weights(&model);
    assert_eq!(snapshot.weights.0, vec![vec![1, 2]]);
    assert_eq!(snapshot.weights.1, vec![vec![3], vec![4]]);
}

fn sample(width: usize, target: u8) -> DataSingle {
    DataSingle { target, image: vec![0u64; width] }
}

#[test]
fn validate_batch_reports_each_error() {
    // Input width 2, two hidden units, three classes.
    let model = Model::new(
        (vec![vec![0, 0], vec![0, 0]], vec![vec![0, 0, 0], vec![0, 0, 0]]),
        (0, 0),
    )
    .unwrap();
    let empty = Data { data: vec![] };
    assert!(matches!(model.validate_batch(&empty), Err(ModelError::EmptyBatch)));
    let narrow = Data { data: vec![sample(2, 0), sample(1, 0)] };
    assert!(matches!(model.validate_batch(&narrow), Err(ModelError::DimensionMismatch)));
    let bad_label = Data { data: vec![sample(2, 0), sample(2, 3)] };
    assert!(matches!(model.validate_batch(&bad_label), Err(ModelError::LabelOutOfRange)));
    let good = Data { data: vec![sample(2, 0), sample(2, 2)] };
    assert!(model.validate_batch(&good).is_ok());
}

#[test]
fn infer_on_all_zero_logits_returns_class_zero() {
    // An all-zero logits vector carries no key above the zero key, so the
    // first class wins the tie.
    let floor = order_key(0.0);
    let keys: Vec<u64> = vec![floor; 10];
    assert_eq!(select_class(&keys, floor), 0);
}

#[test]
fn select_class_picks_first_maximum() {
    let floor = order_key(0.0);
    let keys: Vec<u64> = vec![order_key(1.0), order_key(3.0), order_key(3.0), order_key(2.0)];
    assert_eq!(select_class(&keys, floor), 1);
    let keys2: Vec<u64> = vec![order_key(-5.0), order_key(-1.0)];
    // Nothing exceeds the zero floor, so class 0 is reported.
    assert_eq!(select_class(&keys2, floor), 0);
}

#[test]
fn select_classes_keeps_row_order() {
    let floor = order_key(0.0);
    let rows: Vec<Vec<u64>> = vec![
        vec![order_key(0.5), order_key(2.0)],
        vec![order_key(4.0), order_key(1.0)],
    ];
    assert_eq!(select_classes(&rows, floor), vec![1, 0]);
}

#[test]
fn one_hot_marks_only_the_label() {
    let row = one_hot(3, 10);
    assert_eq!(row.len(), 10);
    for i in 0..10 {
        assert_eq!(row[i], i == 3);
    }
}

#[test]
fn one_hot_rows_follow_their_labels() {
    let labels: Vec<u8> = vec![2, 0];
    let rows = one_hot_rows(&labels, 3);
    assert_eq!(rows, vec![vec![false, false, true], vec![true, false, false]]);
}

#[test]
fn count_matches_counts_agreements() {
    let preds: Vec<u8> = vec![1, 2, 3, 4];
    let targets: Vec<u8> = vec![1, 0, 3, 0];
    assert_eq!(count_matches(&preds, &targets), 2);
    let none: Vec<u8> = vec![];
    assert_eq!(count_matches(&none, &vec![]), 0);
}
