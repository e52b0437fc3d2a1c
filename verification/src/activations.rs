//! The gating rule the rectified-linear activation and its backward pass
//! share. The numeric layer compares each pre-activation value against
//! zero and hands the result over as a mask of strictly-positive entries;
//! the functions here keep a masked position's value and replace an
//! unmasked one with the zero code.

use vstd::prelude::*;

use crate::data::Scalar;

verus! {

/// Stateless holder for the activation functions.
pub struct ActivationFunctions;

impl ActivationFunctions {
    /// Rectify one vector: where the mask marks the entry strictly
    /// positive the entry stays, elsewhere it becomes the zero code.
    pub fn relu1d(mask: &Vec<bool>, x: &Vec<Scalar>) -> (r: Vec<Scalar>)
        requires
            mask@.len() == x@.len(),
        ensures
            r@.len() == x@.len(),
            forall|i: int| 0 <= i < x@.len() ==> #[trigger] r@[i] == (if mask@[i] {
                x@[i]
            } else {
                0u64
            }),
    {
        gate1d(mask, x)
    }

    /// Rectify a row-batch, row by row.
    pub fn relu2d(mask: &Vec<Vec<bool>>, x: &Vec<Vec<Scalar>>) -> (r: Vec<Vec<Scalar>>)
        requires
            mask@.len() == x@.len(),
            forall|i: int| 0 <= i < x@.len() ==> #[trigger] mask@[i]@.len() == x@[i]@.len(),
        ensures
            r@.len() == x@.len(),
            forall|i: int| 0 <= i < x@.len() ==> #[trigger] r@[i]@.len() == x@[i]@.len(),
            forall|i: int, j: int|
                0 <= i < x@.len() && 0 <= j < x@[i]@.len() ==> #[trigger] r@[i]@[j] == (if mask@[i]@[j] {
                    x@[i]@[j]
                } else {
                    0u64
                }),
    {
        gate2d(mask, x)
    }

    /// Gate an upstream gradient vector: where the pre-activation was
    /// strictly positive the gradient passes through unchanged, elsewhere
    /// it is the zero code.
    pub fn relu_backward1d(mask: &Vec<bool>, upstream: &Vec<Scalar>) -> (r: Vec<Scalar>)
        requires
            mask@.len() == upstream@.len(),
        ensures
            r@.len() == upstream@.len(),
            forall|i: int| 0 <= i < upstream@.len() ==> #[trigger] r@[i] == (if mask@[i] {
                upstream@[i]
            } else {
                0u64
            }),
    {
        gate1d(mask, upstream)
    }

    /// Gate an upstream gradient row-batch, row by row.
    pub fn relu_backward2d(mask: &Vec<Vec<bool>>, upstream: &Vec<Vec<Scalar>>) -> (r: Vec<
        Vec<Scalar>,
    >)
        requires
            mask@.len() == upstream@.len(),
            forall|i: int| 0 <= i < upstream@.len() ==> #[trigger] mask@[i]@.len()
                == upstream@[i]@.len(),
        ensures
            r@.len() == upstream@.len(),
            forall|i: int| 0 <= i < upstream@.len() ==> #[trigger] r@[i]@.len()
                == upstream@[i]@.len(),
            forall|i: int, j: int|
                0 <= i < upstream@.len() && 0 <= j < upstream@[i]@.len() ==> #[trigger] r@[i]@[j]
                    == (if mask@[i]@[j] {
                    upstream@[i]@[j]
                } else {
                    0u64
                }),
    {
        gate2d(mask, upstream)
    }
}

/// Pass masked entries through; replace the rest with the zero code.
fn gate1d(mask: &Vec<bool>, x: &Vec<Scalar>) -> (r: Vec<Scalar>)
    requires
        mask@.len() == x@.len(),
    ensures
        r@.len() == x@.len(),
        forall|i: int| 0 <= i < x@.len() ==> #[trigger] r@[i] == (if mask@[i] {
            x@[i]
        } else {
            0u64
        }),
{
    let mut r: Vec<Scalar> = Vec::new();
    let mut i: usize = 0;
    while i < x.len()
        invariant
            mask@.len() == x@.len(),
            i <= x@.len(),
            r@.len() == i,
            forall|j: int| 0 <= j < i ==> #[trigger] r@[j] == (if mask@[j] {
                x@[j]
            } else {
                0u64
            }),
        decreases x@.len() - i,
    {
        if mask[i] {
            r.push(x[i]);
        } else {
            r.push(0);
        }
        i = i + 1;
    }
    r
}

/// Gate every row of a row-batch.
fn gate2d(mask: &Vec<Vec<bool>>, x: &Vec<Vec<Scalar>>) -> (r: Vec<Vec<Scalar>>)
    requires
        mask@.len() == x@.len(),
        forall|i: int| 0 <= i < x@.len() ==> #[trigger] mask@[i]@.len() == x@[i]@.len(),
    ensures
        r@.len() == x@.len(),
        forall|i: int| 0 <= i < x@.len() ==> #[trigger] r@[i]@.len() == x@[i]@.len(),
        forall|i: int, j: int|
            0 <= i < x@.len() && 0 <= j < x@[i]@.len() ==> #[trigger] r@[i]@[j] == (if mask@[i]@[j] {
                x@[i]@[j]
            } else {
                0u64
            }),
{
    let mut r: Vec<Vec<Scalar>> = Vec::new();
    let mut i: usize = 0;
    while i < x.len()
        invariant
            mask@.len() == x@.len(),
            forall|k: int| 0 <= k < x@.len() ==> #[trigger] mask@[k]@.len() == x@[k]@.len(),
            i <= x@.len(),
            r@.len() == i,
            forall|k: int| 0 <= k < i ==> #[trigger] r@[k]@.len() == x@[k]@.len(),
            forall|k: int, j: int|
                0 <= k < i && 0 <= j < x@[k]@.len() ==> #[trigger] r@[k]@[j] == (if mask@[k]@[j] {
                    x@[k]@[j]
                } else {
                    0u64
                }),
        decreases x@.len() - i,
    {
        let row = gate1d(&mask[i], &x[i]);
        r.push(row);
        i = i + 1;
    }
    r
}

} // verus!
