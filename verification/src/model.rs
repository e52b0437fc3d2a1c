//! The model engine's verified core: a dimension-checked store for the two
//! dense layers, the class-selection rule of inference, the one-hot targets
//! of training, and batch validation.
//!
//! The numeric layer outside this library carries out the matrix products
//! and activations on the scalar codes; everything here that reads a code
//! treats it as opaque, except for order keys, which the numeric layer
//! produces so that key order agrees with numeric order.

use vstd::prelude::*;

use crate::data::{copy_matrix, is_matrix, mat_of, Data, SampleView, Scalar, Weights};
use crate::ModelError;

verus! {

/// Both layers are non-empty rectangles and the first layer's width equals
/// the second layer's height, so a forward pass is well-shaped end to end.
pub open spec fn valid_weight_shapes(w0: Seq<Seq<Scalar>>, w1: Seq<Seq<Scalar>>) -> bool {
    &&& w0.len() > 0
    &&& w1.len() > 0
    &&& w1[0].len() > 0
    &&& is_matrix(w0, w0.len() as int, w0[0].len() as int)
    &&& is_matrix(w1, w1.len() as int, w1[0].len() as int)
    &&& w0[0].len() == w1.len()
}

/// A non-empty training batch whose feature vectors all have the input
/// width and whose labels all name one of the output classes.
pub open spec fn batch_conforms(batch: Seq<SampleView>, input_dim: int, output_dim: int) -> bool {
    &&& batch.len() > 0
    &&& forall|i: int| 0 <= i < batch.len() ==> #[trigger] batch[i].image.len() == input_dim
    &&& forall|i: int| 0 <= i < batch.len() ==> (#[trigger] batch[i].target as int) < output_dim
}

/// The two dense layers and their step sizes. The weight entries and the
/// learning rates are scalar codes owned by the numeric layer.
#[derive(Debug)]
pub struct Model {
    pub weights: (Vec<Vec<Scalar>>, Vec<Vec<Scalar>>),
    pub learning_rates: (Scalar, Scalar),
}

impl Model {
    /// Number of input features the first layer expects.
    pub open spec fn input_dim(self) -> int {
        mat_of(self.weights.0).len() as int
    }

    /// Width of the hidden layer.
    pub open spec fn hidden_dim(self) -> int {
        mat_of(self.weights.1).len() as int
    }

    /// Number of output classes.
    pub open spec fn output_dim(self) -> int {
        mat_of(self.weights.1)[0].len() as int
    }

    /// The shape invariant every constructed model keeps.
    pub open spec fn wf(self) -> bool {
        valid_weight_shapes(mat_of(self.weights.0), mat_of(self.weights.1))
    }

    /// Build an engine from the two layers and their step sizes, rejecting
    /// ragged, empty or non-conforming matrices.
    pub fn new(
        weights: (Vec<Vec<Scalar>>, Vec<Vec<Scalar>>),
        learning_rates: (Scalar, Scalar),
    ) -> (r: Result<Model, ModelError>)
        ensures
            r is Ok <==> valid_weight_shapes(mat_of(weights.0), mat_of(weights.1)),
            r matches Ok(m) ==> m.weights == weights && m.learning_rates == learning_rates
                && m.wf(),
            r matches Err(e) ==> e == ModelError::DimensionMismatch,
    {
        let d0 = uniform_dims(&weights.0);
        let d1 = uniform_dims(&weights.1);
        match (d0, d1) {
            (Some(a), Some(b)) => {
                if a.1 == b.0 {
                    Ok(Model { weights, learning_rates })
                } else {
                    Err(ModelError::DimensionMismatch)
                }
            },
            _ => Err(ModelError::DimensionMismatch),
        }
    }

    /// A deep copy of both layers, fit for transmission or storage.
    pub fn export_weights(&self) -> (r: (Vec<Vec<Scalar>>, Vec<Vec<Scalar>>))
        ensures
            mat_of(r.0) == mat_of(self.weights.0),
            mat_of(r.1) == mat_of(self.weights.1),
    {
        (copy_matrix(&self.weights.0), copy_matrix(&self.weights.1))
    }

    /// Swap in a new pair of layers, keeping the learning rates. A ragged,
    /// empty or non-conforming pair is rejected and the model is unchanged.
    pub fn replace_weights(&mut self, new_weights: (Vec<Vec<Scalar>>, Vec<Vec<Scalar>>)) -> (r:
        Result<(), ModelError>)
        ensures
            r is Ok <==> valid_weight_shapes(mat_of(new_weights.0), mat_of(new_weights.1)),
            r is Ok ==> final(self).weights == new_weights && final(self).learning_rates == old(
                self,
            ).learning_rates && final(self).wf(),
            r is Err ==> *final(self) == *old(self),
            r matches Err(e) ==> e == ModelError::DimensionMismatch,
    {
        let d0 = uniform_dims(&new_weights.0);
        let d1 = uniform_dims(&new_weights.1);
        match (d0, d1) {
            (Some(a), Some(b)) => {
                if a.1 == b.0 {
                    self.weights = new_weights;
                    Ok(())
                } else {
                    Err(ModelError::DimensionMismatch)
                }
            },
            _ => Err(ModelError::DimensionMismatch),
        }
    }

    /// Both layers flattened row-major, the form the page displays.
    pub fn weights(&self) -> (r: (Vec<Scalar>, Vec<Scalar>))
        ensures
            r.0@ == mat_of(self.weights.0).flatten(),
            r.1@ == mat_of(self.weights.1).flatten(),
    {
        (flatten_matrix(&self.weights.0), flatten_matrix(&self.weights.1))
    }

    /// Check a training batch against this model's shapes: it must be
    /// non-empty, every feature vector as wide as the input layer, and
    /// every label below the class count.
    pub fn validate_batch(&self, batch: &Data) -> (r: Result<(), ModelError>)
        requires
            self.wf(),
        ensures
            r is Ok <==> batch_conforms(batch@, self.input_dim(), self.output_dim()),
            r == Result::<(), ModelError>::Err(ModelError::EmptyBatch) <==> batch@.len() == 0,
            r == Result::<(), ModelError>::Err(ModelError::DimensionMismatch) <==> (batch@.len()
                > 0 && exists|i: int|
                0 <= i < batch@.len() && #[trigger] batch@[i].image.len() != self.input_dim()),
            r == Result::<(), ModelError>::Err(ModelError::LabelOutOfRange) <==> (batch@.len() > 0
                && (forall|i: int|
                0 <= i < batch@.len() ==> #[trigger] batch@[i].image.len() == self.input_dim())
                && exists|i: int|
                0 <= i < batch@.len() && (#[trigger] batch@[i].target as int)
                    >= self.output_dim()),
    {
        if batch.data.len() == 0 {
            return Err(ModelError::EmptyBatch);
        }
        let d = self.weights.0.len();
        let c = self.weights.1[0].len();
        let mut i: usize = 0;
        while i < batch.data.len()
            invariant
                i <= batch@.len(),
                0 < batch@.len() == batch.data@.len(),
                d as int == self.input_dim(),
                forall|j: int| 0 <= j < i ==> #[trigger] batch@[j].image.len() == d as int,
                forall|j: int| 0 <= j < batch@.len() ==> batch@[j] == batch.data@[j]@,
            decreases batch@.len() - i,
        {
            if batch.data[i].image.len() != d {
                proof {
                    assert(batch@[i as int].image.len() != d as int);
                }
                return Err(ModelError::DimensionMismatch);
            }
            i = i + 1;
        }
        let mut i: usize = 0;
        while i < batch.data.len()
            invariant
                i <= batch@.len(),
                0 < batch@.len() == batch.data@.len(),
                d as int == self.input_dim(),
                c as int == self.output_dim(),
                forall|j: int| 0 <= j < batch@.len() ==> #[trigger] batch@[j].image.len()
                    == d as int,
                forall|j: int| 0 <= j < i ==> (#[trigger] batch@[j].target as int) < c as int,
                forall|j: int| 0 <= j < batch@.len() ==> batch@[j] == batch.data@[j]@,
            decreases batch@.len() - i,
        {
            if batch.data[i].target as usize >= c {
                proof {
                    assert(batch@[i as int].target as int >= c as int);
                }
                return Err(ModelError::LabelOutOfRange);
            }
            i = i + 1;
        }
        Ok(())
    }
}

/// The snapshot of an engine's layers that the storage collaborator
/// persists; the writer renames a finished temporary file over the
/// canonical path so readers never see a half-written snapshot.
pub fn sync_weights(model: &Model) -> (r: Weights)
    ensures
        mat_of(r.weights.0) == mat_of(model.weights.0),
        mat_of(r.weights.1) == mat_of(model.weights.1),
{
    let pair = model.export_weights();
    Weights { weights: pair }
}

/// The rows of `m` all have one width; hand the row and column counts back.
fn uniform_dims(m: &Vec<Vec<Scalar>>) -> (r: Option<(usize, usize)>)
    ensures
        r is Some <==> (mat_of(*m).len() > 0 && mat_of(*m)[0].len() > 0 && is_matrix(
            mat_of(*m),
            mat_of(*m).len() as int,
            mat_of(*m)[0].len() as int,
        )),
        r matches Some(d) ==> d.0 == mat_of(*m).len() && d.1 as int == mat_of(*m)[0].len()
            && is_matrix(mat_of(*m), d.0 as int, d.1 as int),
{
    if m.len() == 0 {
        return None;
    }
    let cols = m[0].len();
    if cols == 0 {
        return None;
    }
    let mut i: usize = 0;
    while i < m.len()
        invariant
            i <= m@.len(),
            cols as int == mat_of(*m)[0].len(),
            forall|j: int| 0 <= j < i ==> #[trigger] mat_of(*m)[j].len() == cols as int,
        decreases m@.len() - i,
    {
        if m[i].len() != cols {
            proof {
                assert(mat_of(*m)[i as int].len() != cols as int);
            }
            return None;
        }
        i = i + 1;
    }
    Some((m.len(), cols))
}

/// Append every entry of every row of `m`, row-major, onto one vector.
fn flatten_matrix(m: &Vec<Vec<Scalar>>) -> (r: Vec<Scalar>)
    ensures
        r@ == mat_of(*m).flatten(),
{
    let mut r: Vec<Scalar> = Vec::new();
    let mut i: usize = 0;
    proof {
        assert(mat_of(*m).take(0) =~= Seq::<Seq<Scalar>>::empty());
        assert(Seq::<Seq<Scalar>>::empty().flatten() =~= Seq::<Scalar>::empty());
    }
    while i < m.len()
        invariant
            i <= m@.len(),
            r@ == mat_of(*m).take(i as int).flatten(),
        decreases m@.len() - i,
    {
        let row = &m[i];
        let mut j: usize = 0;
        while j < row.len()
            invariant
                j <= row@.len(),
                i < m@.len(),
                row@ == mat_of(*m)[i as int],
                r@ == mat_of(*m).take(i as int).flatten() + row@.take(j as int),
            decreases row@.len() - j,
        {
            r.push(row[j]);
            proof {
                assert(row@.take(j + 1) =~= row@.take(j as int).push(row@[j as int]));
                assert(mat_of(*m).take(i as int).flatten() + row@.take(j + 1) =~= (mat_of(
                    *m,
                ).take(i as int).flatten() + row@.take(j as int)).push(row@[j as int]));
            }
            j = j + 1;
        }
        proof {
            let gm = mat_of(*m);
            assert(row@.take(row@.len() as int) =~= gm[i as int]);
            gm.take(i as int).lemma_flatten_push(gm[i as int]);
            assert(gm.take(i + 1) =~= gm.take(i as int).push(gm[i as int]));
        }
        i = i + 1;
    }
    proof {
        assert(mat_of(*m).take(m@.len() as int) =~= mat_of(*m));
    }
    r
}

/// `k` is the class the inference rule picks from `keys`: the first index
/// holding the maximum among the keys strictly above `floor`, and class 0
/// when no key exceeds `floor`.
pub open spec fn is_first_argmax(keys: Seq<u64>, floor: u64, k: int) -> bool {
    if forall|i: int| 0 <= i < keys.len() ==> #[trigger] keys[i] <= floor {
        k == 0
    } else {
        &&& 0 <= k < keys.len()
        &&& keys[k] > floor
        &&& forall|i: int| 0 <= i < keys.len() ==> #[trigger] keys[i] <= keys[k]
        &&& forall|i: int| 0 <= i < k ==> #[trigger] keys[i] < keys[k]
    }
}

/// Pick the predicted class from one row of logit order keys: a running
/// best starts at `floor` and only a strictly greater key replaces it, so
/// the first (lowest) index with the maximum value wins and an all-`floor`
/// row yields class 0.
pub fn select_class(logit_keys: &Vec<u64>, floor: u64) -> (r: u8)
    requires
        logit_keys@.len() <= 256,
    ensures
        is_first_argmax(logit_keys@, floor, r as int),
{
    let mut best: u64 = floor;
    let mut best_index: usize = 0;
    let mut i: usize = 0;
    while i < logit_keys.len()
        invariant
            logit_keys@.len() <= 256,
            i <= logit_keys@.len(),
            best_index < 256,
            best >= floor,
            best == floor ==> best_index == 0,
            best > floor ==> best_index < i && logit_keys@[best_index as int] == best,
            forall|j: int| 0 <= j < i ==> #[trigger] logit_keys@[j] <= best,
            best > floor ==> forall|j: int| 0 <= j < best_index ==> #[trigger] logit_keys@[j]
                < best,
        decreases logit_keys@.len() - i,
    {
        if logit_keys[i] > best {
            best = logit_keys[i];
            best_index = i;
        }
        i = i + 1;
    }
    best_index as u8
}

/// Pick the predicted class of every row of a batch of logit order keys;
/// output order matches input order.
pub fn select_classes(logit_keys: &Vec<Vec<u64>>, floor: u64) -> (r: Vec<u8>)
    requires
        forall|i: int| 0 <= i < logit_keys@.len() ==> #[trigger] logit_keys@[i]@.len() <= 256,
    ensures
        r@.len() == logit_keys@.len(),
        forall|i: int| 0 <= i < logit_keys@.len() ==> is_first_argmax(
            logit_keys@[i]@,
            floor,
            #[trigger] r@[i] as int,
        ),
{
    let mut r: Vec<u8> = Vec::new();
    let mut i: usize = 0;
    while i < logit_keys.len()
        invariant
            i <= logit_keys@.len(),
            r@.len() == i,
            forall|k: int| 0 <= k < logit_keys@.len() ==> #[trigger] logit_keys@[k]@.len() <= 256,
            forall|k: int| 0 <= k < i ==> is_first_argmax(
                logit_keys@[k]@,
                floor,
                #[trigger] r@[k] as int,
            ),
        decreases logit_keys@.len() - i,
    {
        let c = select_class(&logit_keys[i], floor);
        r.push(c);
        i = i + 1;
    }
    r
}

/// The one-hot target row for a label: true exactly at the label's index.
pub fn one_hot(target: u8, width: usize) -> (r: Vec<bool>)
    requires
        (target as usize) < width,
    ensures
        r@.len() == width,
        forall|i: int| 0 <= i < width ==> (#[trigger] r@[i] <==> i == target as int),
{
    let mut r: Vec<bool> = Vec::new();
    let mut i: usize = 0;
    while i < width
        invariant
            i <= width,
            r@.len() == i,
            forall|j: int| 0 <= j < i ==> (#[trigger] r@[j] <==> j == target as int),
        decreases width - i,
    {
        r.push(i == target as usize);
        i = i + 1;
    }
    r
}

/// One one-hot target row per label, each of the same width.
pub fn one_hot_rows(targets: &Vec<u8>, width: usize) -> (r: Vec<Vec<bool>>)
    requires
        forall|i: int| 0 <= i < targets@.len() ==> (#[trigger] targets@[i] as usize) < width,
    ensures
        r@.len() == targets@.len(),
        forall|i: int| 0 <= i < targets@.len() ==> #[trigger] r@[i]@.len() == width,
        forall|i: int, j: int| 0 <= i < targets@.len() && 0 <= j < width ==> (#[trigger] r@[i]@[j]
            <==> j == targets@[i] as int),
    {
    let mut r: Vec<Vec<bool>> = Vec::new();
    let mut i: usize = 0;
    while i < targets.len()
        invariant
            i <= targets@.len(),
            r@.len() == i,
            forall|k: int| 0 <= k < targets@.len() ==> (#[trigger] targets@[k] as usize) < width,
            forall|k: int| 0 <= k < i ==> #[trigger] r@[k]@.len() == width,
            forall|k: int, j: int| 0 <= k < i && 0 <= j < width ==> (#[trigger] r@[k]@[j] <==> j
                == targets@[k] as int),
        decreases targets@.len() - i,
    {
        let row = one_hot(targets[i], width);
        r.push(row);
        i = i + 1;
    }
    r
}

/// How many predictions agree with their targets, pair by pair.
pub open spec fn match_count(preds: Seq<u8>, targets: Seq<u8>) -> int
    decreases preds.len(),
{
    if preds.len() == 0 || targets.len() == 0 {
        0
    } else {
        match_count(preds.drop_last(), targets.drop_last()) + if preds.last() == targets.last() {
            1int
        } else {
            0int
        }
    }
}

/// Count the positions where prediction and target agree: the numerator
/// of a batch's accuracy.
pub fn count_matches(preds: &Vec<u8>, targets: &Vec<u8>) -> (n: usize)
    requires
        preds@.len() == targets@.len(),
    ensures
        n == match_count(preds@, targets@),
        n <= preds@.len(),
{
    let mut n: usize = 0;
    let mut i: usize = 0;
    proof {
        assert(match_count(preds@.take(0), targets@.take(0)) == 0);
    }
    while i < preds.len()
        invariant
            preds@.len() == targets@.len(),
            i <= preds@.len(),
            n <= i,
            n == match_count(preds@.take(i as int), targets@.take(i as int)),
        decreases preds@.len() - i,
    {
        proof {
            assert(preds@.take(i + 1).drop_last() =~= preds@.take(i as int));
            assert(targets@.take(i + 1).drop_last() =~= targets@.take(i as int));
            assert(preds@.take(i + 1).last() == preds@[i as int]);
            assert(targets@.take(i + 1).last() == targets@[i as int]);
        }
        if preds[i] == targets[i] {
            n = n + 1;
        }
        i = i + 1;
    }
    proof {
        assert(preds@.take(preds@.len() as int) =~= preds@);
        assert(targets@.take(targets@.len() as int) =~= targets@);
    }
    n
}

} // verus!
