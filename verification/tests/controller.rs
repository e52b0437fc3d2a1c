use mnist_core::controller::{ControlSignal, ModelData};
use mnist_core::counter::{CounterAction, UseCounterReducer};
use mnist_core::data::{Data, DataSingle, Weights};
use mnist_core::model::Model;
use mnist_core::sampling::{get_sample_block, random_int};
use mnist_core::ModelError;

fn tiny_model() -> Model {
    // Input width 2, two hidden units, two classes.
    Model::new(
        (vec![vec![0, 0], vec![0, 0]], vec![vec![0, 0], vec![0, 0]]),
        (1, 1),
    )
    .unwrap()
}

fn batch(size: usize) -> Data {
    let data = (0..size).map(|_| DataSingle { target: 1, image: vec![0u64, 0u64] }).collect();
    Data { data }
}

fn new_session() -> ModelData {
    ModelData::new(tiny_model(), 2)
}

#[test]
fn new_session_defaults() {
    let s = new_session();
    assert!(!s.training);
    assert_eq!(s.batch_size, 128);
    assert_eq!(s.iteration, 0);
    assert_eq!(s.loss, 0);
    assert_eq!(s.acc, 0);
    assert_eq!(s.cache.capacity, 5);
    assert_eq!(s.cache.in_flight, 0);
    assert!(s.cache.queued.is_empty());
    assert!(s.send_status);
}

#[test]
fn stop_then_start_resets_iteration() {
    let mut s = new_session();
    s.handle_signal(ControlSignal::Start).unwrap();
    s.handle_signal(ControlSignal::SetBatchSize(1)).unwrap();
    s.handle_signal(ControlSignal::AddData(batch(1))).unwrap();
    let b = s.take_training_batch().unwrap();
    assert_eq!(b.data.len(), 1);
    s.apply_train_result((vec![vec![0, 0], vec![0, 0]], vec![vec![0, 0], vec![0, 0]]), 5, 6)
        .unwrap();
    assert_eq!(s.iteration, 1);
    assert_eq!(s.loss, 5);
    assert_eq!(s.acc, 6);
    s.handle_signal(ControlSignal::Stop).unwrap();
    assert!(!s.training);
    assert_eq!(s.iteration, 1);
    s.handle_signal(ControlSignal::Start).unwrap();
    assert!(s.training);
    assert_eq!(s.iteration, 0);
}

#[test]
fn cache_load_never_exceeds_capacity() {
    // Capacity changes, completions and pops, with a refill after each
    // round: queued + in_flight stays within the capacity.
    let mut s = new_session();
    s.handle_signal(ControlSignal::SetCacheSize(3)).unwrap();
    s.handle_signal(ControlSignal::SetBatchSize(1)).unwrap();
    let n = s.cache_data();
    assert_eq!(n, 3);
    assert!(s.cache.queued.len() + s.cache.in_flight <= s.cache.capacity);
    s.on_fetch_complete(batch(1));
    s.on_fetch_complete(batch(1));
    s.on_fetch_failed();
    assert_eq!(s.cache.in_flight, 0);
    assert_eq!(s.cache.queued.len(), 2);
    let n = s.cache_data();
    assert_eq!(n, 1);
    assert!(s.cache.queued.len() + s.cache.in_flight <= s.cache.capacity);
    s.handle_signal(ControlSignal::Start).unwrap();
    let popped = s.take_training_batch();
    assert!(popped.is_some());
    let n = s.cache_data();
    assert_eq!(n, 1);
    assert!(s.cache.queued.len() + s.cache.in_flight <= s.cache.capacity);
}

#[test]
fn stale_batches_are_discarded() {
    let mut s = new_session();
    s.handle_signal(ControlSignal::SetBatchSize(2)).unwrap();
    s.handle_signal(ControlSignal::AddData(batch(1))).unwrap();
    s.handle_signal(ControlSignal::AddData(batch(2))).unwrap();
    s.handle_signal(ControlSignal::AddData(batch(3))).unwrap();
    s.handle_signal(ControlSignal::Start).unwrap();
    let b = s.take_training_batch().unwrap();
    // The stale one-sample batch was dropped, the matching batch returned,
    // and the rest of the queue kept.
    assert_eq!(b.data.len(), 2);
    assert_eq!(s.cache.queued.len(), 1);
    assert_eq!(s.cache.queued[0].data.len(), 3);
}

#[test]
fn take_training_batch_is_idle_when_stopped() {
    let mut s = new_session();
    s.handle_signal(ControlSignal::AddData(batch(128))).unwrap();
    assert!(s.take_training_batch().is_none());
    assert_eq!(s.cache.queued.len(), 1);
}

#[test]
fn no_matching_batch_drains_queue() {
    let mut s = new_session();
    s.handle_signal(ControlSignal::SetBatchSize(4)).unwrap();
    s.handle_signal(ControlSignal::AddData(batch(1))).unwrap();
    s.handle_signal(ControlSignal::AddData(batch(2))).unwrap();
    s.handle_signal(ControlSignal::Start).unwrap();
    assert!(s.take_training_batch().is_none());
    assert!(s.cache.queued.is_empty());
}

#[test]
fn set_weights_keeps_current_learning_rate() {
    let mut s = new_session();
    s.handle_signal(ControlSignal::SetLearningRate(9)).unwrap();
    assert_eq!(s.lrate, 9);
    assert_eq!(s.model.learning_rates, (9, 9));
    s.handle_signal(ControlSignal::SetWeights(Weights {
        weights: (vec![vec![1, 2], vec![3, 4]], vec![vec![5], vec![6]]),
    }))
    .unwrap();
    assert_eq!(s.model.weights.0, vec![vec![1, 2], vec![3, 4]]);
    assert_eq!(s.model.weights.1, vec![vec![5], vec![6]]);
    assert_eq!(s.model.learning_rates, (9, 9));
}

#[test]
fn set_weights_rejects_malformed_snapshot() {
    let mut s = new_session();
    let r = s.handle_signal(ControlSignal::SetWeights(Weights {
        weights: (vec![vec![1, 2], vec![3]], vec![vec![5]]),
    }));
    assert!(matches!(r, Err(ModelError::DimensionMismatch)));
    // The session is untouched.
    assert_eq!(s.model.weights.0, vec![vec![0, 0], vec![0, 0]]);
}

#[test]
fn respond_reports_session_state() {
    let mut s = new_session();
    s.handle_signal(ControlSignal::SetBatchSize(64)).unwrap();
    s.handle_signal(ControlSignal::SetCacheSize(2)).unwrap();
    s.handle_signal(ControlSignal::AddData(batch(64))).unwrap();
    let n = s.cache_data();
    assert_eq!(n, 1);
    let status = s.respond();
    assert_eq!(status.batch_size, 64);
    assert_eq!(status.cache_size, 2);
    assert_eq!(status.data_len, 1);
    assert_eq!(status.data_futures_len, 1);
    assert_eq!(status.iteration, 0);
    assert_eq!(status.lrate, 2);
    assert_eq!(status.weights.weights.0, vec![vec![0, 0], vec![0, 0]]);
}

#[test]
fn get_status_marks_emission_due() {
    let mut s = new_session();
    s.set_send_status(false);
    assert!(!s.send_status);
    s.handle_signal(ControlSignal::GetStatus).unwrap();
    assert!(s.send_status);
}

#[test]
fn counter_reducer_follows_each_action() {
    let c = UseCounterReducer { value: 5, default: 5 };
    assert_eq!(c.reduce(CounterAction::Increase).value, 6);
    assert_eq!(c.reduce(CounterAction::IncreaseBy(10)).value, 15);
    assert_eq!(c.reduce(CounterAction::Decrease).value, 4);
    assert_eq!(c.reduce(CounterAction::DecreaseBy(7)).value, 0);
    assert_eq!(c.reduce(CounterAction::SetValue(42)).value, 42);
    let moved = c.reduce(CounterAction::SetValue(42));
    assert_eq!(moved.reduce(CounterAction::Reset).value, 5);
    let low = UseCounterReducer { value: 0, default: 3 };
    assert_eq!(low.reduce(CounterAction::Decrease).value, 0);
}

#[test]
fn sample_block_draws_from_the_data() {
    let source = Data {
        data: vec![
            DataSingle { target: 0, image: vec![10] },
            DataSingle { target: 1, image: vec![11] },
            DataSingle { target: 2, image: vec![12] },
        ],
    };
    let block = get_sample_block(&source, 2);
    assert_eq!(block.len(), 2);
    for s in &block {
        assert!(source.data.iter().any(|d| d.target == s.target && d.image == s.image));
    }
}

#[test]
fn random_int_stays_below_ten() {
    let block = random_int(4, 6);
    assert_eq!(block.len(), 4);
    for row in &block {
        assert_eq!(row.len(), 6);
        for &v in row {
            assert!(v < 10);
        }
    }
}
