//! Library-wide laws, each proved from the contracts the modules state.

use crate::matrix::{spec_column, spec_flatten, spec_rows};
use crate::trainer::{spec_fit, spec_train_block, N_SAMPLES};
use vstd::prelude::*;

verus! {

/// Determinism modulo randomness: once the single random draw is injected,
/// training is a pure function of the data and the initial weight, so two
/// runs over the same inputs yield bit-identical final parameters.
pub proof fn lemma_training_deterministic(
    data: Seq<u32>,
    init_w: u32,
    r1: (u32, u32),
    r2: (u32, u32),
)
    requires
        r1 == spec_fit(data, init_w),
        r2 == spec_fit(data, init_w),
    ensures
        r1 == r2,
{
}

/// Shape invariant: a valid flat input of even length `2k` with
/// `k > N_SAMPLES` reshapes to exactly `k` two-column rows, and the
/// training block holds exactly `k - N_SAMPLES` rows in each column.
pub proof fn lemma_shape_invariant(data: Seq<u32>)
    requires
        data.len() % 2 == 0,
        spec_rows(data.len()) > N_SAMPLES,
    ensures
        spec_rows(data.len()) == data.len() / 2,
        spec_train_block(data).len() == data.len() - 2 * (N_SAMPLES as int),
        spec_column(spec_train_block(data), 0).len() == spec_rows(data.len()) - (
        N_SAMPLES as int),
        spec_column(spec_train_block(data), 1).len() == spec_rows(data.len()) - (
        N_SAMPLES as int),
{
}

/// Idempotence of the load path's reshaping: flattening the same record
/// sequence twice yields identical flat sequences.
pub proof fn lemma_flatten_deterministic(recs: Seq<(u32, u32)>, r1: Seq<u32>, r2: Seq<u32>)
    requires
        r1 == spec_flatten(recs),
        r2 == spec_flatten(recs),
    ensures
        r1 == r2,
{
}

} // verus!
