//! Core of a small feed-forward classifier service: a dimension-checked
//! weight store, selection and gating steps of the forward/backward pass,
//! a bounded batch-prefetch cache, and the training controller that drives
//! them under a message protocol.
//!
//! Numeric values (weights, losses, learning rates) are carried as opaque
//! 64-bit codes; the arithmetic that produces them runs outside this
//! library, which validates shapes, routes batches, and keeps the session
//! bookkeeping sound.

pub mod activations;
pub mod cache;
pub mod controller;
pub mod counter;
pub mod data;
pub mod model;
pub mod sampling;

use vstd::prelude::*;

verus! {

/// A boxed value handed across a worker boundary.
pub struct Sendable<T: ?Sized>(pub Box<T>);

/// Why an engine operation was rejected instead of performed.
#[derive(Clone, Copy, Debug, PartialEq, Eq, Structural)]
pub enum ModelError {
    /// A feature vector, weight matrix or batch had the wrong shape.
    DimensionMismatch,
    /// A label named a class outside the configured output width.
    LabelOutOfRange,
    /// A training batch carried no samples.
    EmptyBatch,
}

} // verus!
