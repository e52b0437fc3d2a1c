//! The training controller: one engine, one prefetch cache, and the
//! message protocol that drives them. A tick runs at most one training
//! step and one cache-refill round: the caller takes a batch with
//! [`ModelData::take_training_batch`], hands it to the numeric layer, and
//! records the outcome with [`ModelData::apply_train_result`]; then
//! [`ModelData::cache_data`] says how many fetches to dispatch, and
//! [`ModelData::respond`] builds the status snapshot when one is due.

use vstd::prelude::*;

use crate::cache::{cache_step, pop_result, BatchCache, CacheEvent, CacheModel};
use crate::data::{mat_of, Data, SampleView, Scalar, Weights};
use crate::model::{valid_weight_shapes, Model};
use crate::ModelError;

verus! {

/// A control message for the training session.
#[derive(Debug)]
pub enum ControlSignal {
    /// Enable training and restart the iteration count.
    Start,
    /// Disable training; the iteration count is retained.
    Stop,
    /// Mark a status emission as due; no state change.
    GetStatus,
    /// Replace the engine weights, keeping the current learning rate.
    SetWeights(Weights),
    /// Set the sample count future fetches ask for.
    SetBatchSize(usize),
    /// Adopt a new learning rate without touching the weights.
    SetLearningRate(Scalar),
    /// Set the prefetch cache's capacity.
    SetCacheSize(usize),
    /// Push an externally supplied batch onto the cache queue.
    AddData(Data),
}

/// The status snapshot published to observers after a state change.
#[derive(Debug)]
pub struct ResponseSignal {
    pub weights: Weights,
    pub loss: Scalar,
    pub acc: Scalar,
    pub batch_size: usize,
    pub lrate: Scalar,
    pub data_len: usize,
    pub data_futures_len: usize,
    pub iteration: usize,
    pub cache_size: usize,
}

/// Mathematical state of a training session.
pub struct ControllerModel {
    pub training: bool,
    pub batch_size: nat,
    pub lrate: Scalar,
    pub loss: Scalar,
    pub acc: Scalar,
    pub iteration: nat,
    pub send_status: bool,
    pub cache: CacheModel,
    pub weights: (Seq<Seq<Scalar>>, Seq<Seq<Scalar>>),
    pub learning_rates: (Scalar, Scalar),
}

/// The session after one control message. A weight replacement with
/// ragged, empty or non-conforming matrices leaves the session unchanged
/// (the executable handler also reports the rejection).
pub open spec fn signal_step(s: ControllerModel, signal: ControlSignal) -> ControllerModel {
    match signal {
        ControlSignal::Start => ControllerModel { training: true, iteration: 0, ..s },
        ControlSignal::Stop => ControllerModel { training: false, ..s },
        ControlSignal::GetStatus => ControllerModel { send_status: true, ..s },
        ControlSignal::SetWeights(w) => if valid_weight_shapes(
            mat_of(w.weights.0),
            mat_of(w.weights.1),
        ) {
            ControllerModel {
                weights: (mat_of(w.weights.0), mat_of(w.weights.1)),
                learning_rates: (s.lrate, s.lrate),
                ..s
            }
        } else {
            s
        },
        ControlSignal::SetBatchSize(n) => ControllerModel { batch_size: n as nat, ..s },
        ControlSignal::SetLearningRate(r) => ControllerModel {
            lrate: r,
            learning_rates: (r, r),
            ..s
        },
        ControlSignal::SetCacheSize(n) => ControllerModel {
            cache: cache_step(s.cache, CacheEvent::SetCapacity(n as nat)),
            ..s
        },
        ControlSignal::AddData(b) => ControllerModel {
            cache: cache_step(s.cache, CacheEvent::Push(b@)),
            ..s
        },
    }
}

/// Stopping and then starting training resets the iteration counter to
/// zero, whatever it had reached before the stop.
pub proof fn lemma_stop_start_resets_iteration(s: ControllerModel)
    ensures
        signal_step(signal_step(s, ControlSignal::Stop), ControlSignal::Start).iteration == 0,
        signal_step(signal_step(s, ControlSignal::Stop), ControlSignal::Start).training,
{
}

/// No control message breaks the engine's shape invariant: a session
/// whose two layers are non-empty, rectangular and conforming keeps such
/// a pair through every message, because a malformed replacement is
/// rejected wholesale.
pub proof fn lemma_signal_step_preserves_shapes(s: ControllerModel, signal: ControlSignal)
    requires
        valid_weight_shapes(s.weights.0, s.weights.1),
    ensures
        valid_weight_shapes(
            signal_step(s, signal).weights.0,
            signal_step(s, signal).weights.1,
        ),
{
}

/// A popped batch has exactly the size that was asked for.
proof fn lemma_pop_result_size(queued: Seq<Seq<SampleView>>, size: nat)
    ensures
        pop_result(queued, size).0 matches Some(b) ==> b.len() == size,
    decreases queued.len(),
{
    if queued.len() > 0 && queued.first().len() != size {
        lemma_pop_result_size(queued.drop_first(), size);
    }
}

/// The training session: engine, cache, and the bookkeeping a status
/// snapshot reports.
#[derive(Debug)]
pub struct ModelData {
    pub training: bool,
    pub batch_size: usize,
    pub lrate: Scalar,
    pub loss: Scalar,
    pub acc: Scalar,
    pub iteration: usize,
    pub send_status: bool,
    pub cache: BatchCache,
    pub model: Model,
}

impl View for ModelData {
    type V = ControllerModel;

    open spec fn view(&self) -> ControllerModel {
        ControllerModel {
            training: self.training,
            batch_size: self.batch_size as nat,
            lrate: self.lrate,
            loss: self.loss,
            acc: self.acc,
            iteration: self.iteration as nat,
            send_status: self.send_status,
            cache: self.cache@,
            weights: (mat_of(self.model.weights.0), mat_of(self.model.weights.1)),
            learning_rates: self.model.learning_rates,
        }
    }
}

impl ModelData {
    /// A fresh idle session around the given engine: nothing queued or in
    /// flight, batch size 128, cache capacity 5, iteration zero, loss and
    /// accuracy at the zero code, and a first status emission due.
    pub fn new(model: Model, lrate: Scalar) -> (r: Self)
        ensures
            r@.training == false,
            r@.batch_size == 128,
            r@.lrate == lrate,
            r@.loss == 0,
            r@.acc == 0,
            r@.iteration == 0,
            r@.send_status == true,
            r@.cache.queued.len() == 0,
            r@.cache.in_flight == 0,
            r@.cache.capacity == 5,
            r@.weights == (mat_of(model.weights.0), mat_of(model.weights.1)),
            r@.learning_rates == model.learning_rates,
    {
        ModelData {
            training: false,
            batch_size: 128,
            lrate,
            loss: 0,
            acc: 0,
            iteration: 0,
            send_status: true,
            cache: BatchCache::new(5),
            model,
        }
    }

    /// Apply one control message. Every message except a malformed weight
    /// replacement succeeds; a malformed replacement changes nothing and
    /// reports the dimension mismatch.
    pub fn handle_signal(&mut self, signal: ControlSignal) -> (r: Result<(), ModelError>)
        ensures
            r is Ok ==> final(self)@ == signal_step(old(self)@, signal),
            r is Err ==> *final(self) == *old(self),
            r is Err <==> (signal matches ControlSignal::SetWeights(w) && !valid_weight_shapes(
                mat_of(w.weights.0),
                mat_of(w.weights.1),
            )),
            r matches Err(e) ==> e == ModelError::DimensionMismatch,
    {
        match signal {
            ControlSignal::Start => {
                self.training = true;
                self.iteration = 0;
                Ok(())
            },
            ControlSignal::Stop => {
                self.training = false;
                Ok(())
            },
            ControlSignal::GetStatus => {
                self.send_status = true;
                Ok(())
            },
            ControlSignal::SetWeights(w) => {
                match self.model.replace_weights(w.weights) {
                    Ok(()) => {
                        self.model.learning_rates = (self.lrate, self.lrate);
                        Ok(())
                    },
                    Err(e) => Err(e),
                }
            },
            ControlSignal::SetBatchSize(n) => {
                self.batch_size = n;
                Ok(())
            },
            ControlSignal::SetLearningRate(r) => {
                self.lrate = r;
                self.model.learning_rates = (r, r);
                Ok(())
            },
            ControlSignal::SetCacheSize(n) => {
                self.cache.set_capacity(n);
                Ok(())
            },
            ControlSignal::AddData(b) => {
                self.cache.push_batch(b);
                Ok(())
            },
        }
    }

    /// The training half of a tick: when training is enabled, take the
    /// first queued batch of the configured size, discarding stale ones;
    /// when it is disabled, leave everything untouched.
    pub fn take_training_batch(&mut self) -> (r: Option<Data>)
        ensures
            !old(self)@.training ==> *final(self) == *old(self) && r is None,
            old(self)@.training ==> final(self)@ == (ControllerModel {
                cache: cache_step(old(self)@.cache, CacheEvent::Pop(old(self)@.batch_size)),
                ..old(self)@
            }),
            old(self)@.training ==> match r {
                Some(b) => pop_result(old(self)@.cache.queued, old(self)@.batch_size).0 == Some(
                    b@,
                ),
                None => pop_result(old(self)@.cache.queued, old(self)@.batch_size).0 is None,
            },
            r matches Some(b) ==> b@.len() == old(self)@.batch_size,
    {
        if !self.training {
            return None;
        }
        let r = self.cache.pop_matching(self.batch_size);
        proof {
            lemma_pop_result_size(old(self)@.cache.queued, old(self)@.batch_size);
        }
        r
    }

    /// Record one training step's outcome: adopt the engine's updated
    /// weights, store the step's loss and accuracy, advance the iteration
    /// count, and mark a status emission as due. Malformed weights are
    /// rejected and nothing changes.
    pub fn apply_train_result(
        &mut self,
        new_weights: (Vec<Vec<Scalar>>, Vec<Vec<Scalar>>),
        loss: Scalar,
        acc: Scalar,
    ) -> (r: Result<(), ModelError>)
        requires
            old(self)@.iteration < usize::MAX,
        ensures
            r is Ok <==> valid_weight_shapes(mat_of(new_weights.0), mat_of(new_weights.1)),
            r is Ok ==> final(self)@ == (ControllerModel {
                weights: (mat_of(new_weights.0), mat_of(new_weights.1)),
                loss: loss,
                acc: acc,
                iteration: old(self)@.iteration + 1,
                send_status: true,
                ..old(self)@
            }),
            r is Err ==> *final(self) == *old(self),
            r matches Err(e) ==> e == ModelError::DimensionMismatch,
    {
        match self.model.replace_weights(new_weights) {
            Ok(()) => {
                self.loss = loss;
                self.acc = acc;
                self.iteration = self.iteration + 1;
                self.send_status = true;
                Ok(())
            },
            Err(e) => Err(e),
        }
    }

    /// The refill half of a tick: bring queued plus in-flight back up to
    /// the cache capacity and say how many fetches to dispatch.
    pub fn cache_data(&mut self) -> (n: usize)
        ensures
            final(self)@ == (ControllerModel {
                cache: cache_step(old(self)@.cache, CacheEvent::Refill),
                ..old(self)@
            }),
            n as nat == if old(self)@.cache.load() < old(self)@.cache.capacity {
                (old(self)@.cache.capacity - old(self)@.cache.load()) as nat
            } else {
                0nat
            },
    {
        self.cache.refill()
    }

    /// A dispatched fetch resolved with a batch.
    pub fn on_fetch_complete(&mut self, batch: Data)
        requires
            old(self)@.cache.in_flight > 0,
        ensures
            final(self)@ == (ControllerModel {
                cache: cache_step(old(self)@.cache, CacheEvent::Complete(batch@)),
                ..old(self)@
            }),
    {
        self.cache.on_fetch_complete(batch);
    }

    /// A dispatched fetch failed; the slot is retired and the next refill
    /// re-requests.
    pub fn on_fetch_failed(&mut self)
        requires
            old(self)@.cache.in_flight > 0,
        ensures
            final(self)@ == (ControllerModel {
                cache: cache_step(old(self)@.cache, CacheEvent::Fail),
                ..old(self)@
            }),
    {
        self.cache.on_fetch_failed();
    }

    /// Mark whether a status emission is due.
    pub fn set_send_status(&mut self, status: bool)
        ensures
            final(self)@ == (ControllerModel { send_status: status, ..old(self)@ }),
    {
        self.send_status = status;
    }

    /// Build the status snapshot: a read-only copy of the weights and the
    /// session bookkeeping, consistent with one state of the session.
    pub fn respond(&self) -> (r: ResponseSignal)
        ensures
            mat_of(r.weights.weights.0) == self@.weights.0,
            mat_of(r.weights.weights.1) == self@.weights.1,
            r.loss == self@.loss,
            r.acc == self@.acc,
            r.batch_size as nat == self@.batch_size,
            r.lrate == self@.lrate,
            r.data_len as nat == self@.cache.queued.len(),
            r.data_futures_len as nat == self@.cache.in_flight,
            r.iteration as nat == self@.iteration,
            r.cache_size as nat == self@.cache.capacity,
    {
        let pair = self.model.export_weights();
        ResponseSignal {
            weights: Weights { weights: pair },
            loss: self.loss,
            acc: self.acc,
            batch_size: self.batch_size,
            lrate: self.lrate,
            data_len: self.cache.queued_len(),
            data_futures_len: self.cache.in_flight_count(),
            iteration: self.iteration,
            cache_size: self.cache.capacity,
        }
    }
}

} // verus!
