//! Univariate linear regression trained by batch gradient descent.
//!
//! The trainer consumes a flat, ordered sequence of single-precision values
//! given as raw IEEE 754 bit patterns (`u32`), reshapes it into a two-column
//! matrix of `(feature, target)` rows, splits off a trailing held-out block,
//! and runs a fixed number of gradient-descent epochs, yielding a scalar
//! weight and a scalar bias.
//!
//! All single-precision arithmetic goes through the scalar operations in
//! [`scalar`]; everything above them — shapes, splits, the epoch loop — is
//! verified.

use vstd::prelude::*;

pub mod laws;
pub mod matrix;
pub mod scalar;
pub mod trainer;

verus! {

/// Why a training run was rejected.
#[derive(Debug, Clone, Copy, PartialEq, Eq, Structural)]
pub enum TrainError {
    /// The flat input has odd length or reshapes to zero rows.
    MalformedInput,
    /// The reshaped input has no more rows than the held-out sample count.
    InsufficientData,
}

} // verus!
