//! The regression trainer: a fixed number of batch gradient-descent epochs
//! over the training block of a reshaped two-column dataset.
//!
//! Each epoch predicts the targets, takes the signed elementwise error,
//! forms the raw (sample-count-unnormalized) gradient as the sum of
//! feature-error products, and steps the weight and the bias by the fixed
//! learning rate. The whole run is pinned, bit pattern for bit pattern, to
//! the recurrence [`spec_train`], so a run is a pure function of the data
//! and the initial parameters.

use crate::matrix::{
    column_of, predict, spec_column, spec_diff, spec_predict, spec_prod, spec_rows, spec_sum,
    split_rows, sum_vec, vec_diff, vec_prod, NCOLS,
};
use crate::scalar::{f_mul, f_sub, mul_bits, sub_bits, LR_BITS, ONE_BITS, SQRT2_BITS};
use crate::TrainError;
use vstd::prelude::*;

verus! {

/// Rows reserved at the tail of the dataset as the held-out block.
pub const N_SAMPLES: usize = 60;

/// Fixed number of gradient-descent epochs.
pub const EPOCHS: usize = 100;

/// The signed error vector of one epoch: prediction minus target.
pub open spec fn spec_errors(x: Seq<u32>, y: Seq<u32>, w: u32, b: u32) -> Seq<u32> {
    spec_diff(spec_predict(x, w, b), y)
}

/// One epoch: predict, take the signed error, form the raw gradient
/// (sum of feature-error products), and step weight and bias by the
/// learning rate. Returns the updated `(weight, bias)`.
pub open spec fn spec_epoch(x: Seq<u32>, y: Seq<u32>, w: u32, b: u32) -> (u32, u32) {
    let e = spec_errors(x, y, w, b);
    let g = spec_sum(spec_prod(x, e));
    (f_sub(w, f_mul(LR_BITS, g)), f_sub(b, f_mul(LR_BITS, spec_sum(e))))
}

/// `n` epochs applied in order from the given parameters.
pub open spec fn spec_train(x: Seq<u32>, y: Seq<u32>, w: u32, b: u32, n: nat) -> (u32, u32)
    decreases n,
{
    if n == 0 {
        (w, b)
    } else {
        let next = spec_epoch(x, y, w, b);
        spec_train(x, y, next.0, next.1, (n - 1) as nat)
    }
}

/// The training block: all rows except the trailing held-out block, still
/// flat and row-major.
pub open spec fn spec_train_block(data: Seq<u32>) -> Seq<u32> {
    data.subrange(0, data.len() - 2 * (N_SAMPLES as int))
}

/// A flat input reshapes cleanly: even length and at least one row.
pub open spec fn well_shaped(len: nat) -> bool {
    len % 2 == 0 && len > 0
}

/// The reshaped input has strictly more rows than the held-out block.
pub open spec fn enough_rows(len: nat) -> bool {
    spec_rows(len) > N_SAMPLES
}

/// The fitted `(weight, bias)` of the whole pipeline on a valid flat input:
/// split off the held-out block, separate the training columns, scale the
/// drawn initial weight by the square root of two, start the bias at one,
/// and run the fixed number of epochs.
pub open spec fn spec_fit(data: Seq<u32>, init_w: u32) -> (u32, u32) {
    let block = spec_train_block(data);
    spec_train(
        spec_column(block, 0),
        spec_column(block, 1),
        f_mul(init_w, SQRT2_BITS),
        ONE_BITS,
        EPOCHS as nat,
    )
}

/// One gradient-descent epoch over the training columns.
pub fn epoch_step(x: &Vec<u32>, y: &Vec<u32>, w: u32, b: u32) -> (r: (u32, u32))
    requires
        x@.len() == y@.len(),
        x@.len() > 0,
    ensures
        r == spec_epoch(x@, y@, w, b),
{
    let y_pred = predict(x, w, b);
    let e = vec_diff(&y_pred, y);
    let prods = vec_prod(x, &e);
    let g = sum_vec(&prods);
    let e_sum = sum_vec(&e);
    (sub_bits(w, mul_bits(LR_BITS, g)), sub_bits(b, mul_bits(LR_BITS, e_sum)))
}

/// Runs `epochs` gradient-descent epochs from the given initial parameters.
pub fn fit_params(x: &Vec<u32>, y: &Vec<u32>, w0: u32, b0: u32, epochs: usize) -> (r: (u32, u32))
    requires
        x@.len() == y@.len(),
        x@.len() > 0,
    ensures
        r == spec_train(x@, y@, w0, b0, epochs as nat),
{
    let mut w = w0;
    let mut b = b0;
    let mut k: usize = 0;
    while k < epochs
        invariant
            k <= epochs,
            x@.len() == y@.len(),
            x@.len() > 0,
            spec_train(x@, y@, w, b, (epochs - k) as nat) == spec_train(
                x@,
                y@,
                w0,
                b0,
                epochs as nat,
            ),
        decreases epochs - k,
    {
        proof {
            let n = (epochs - k) as nat;
            let next = spec_epoch(x@, y@, w, b);
            assert(spec_train(x@, y@, w, b, n) == spec_train(x@, y@, next.0, next.1, (n - 1) as nat));
        }
        let st = epoch_step(x, y, w, b);
        w = st.0;
        b = st.1;
        k = k + 1;
    }
    (w, b)
}

/// Trains the univariate model on a flat, ordered `(feature, target)`
/// sequence of bit-pattern scalars, with the drawn initial weight injected
/// by the caller.
///
/// Rejects an input of odd length or zero rows, and an input whose row
/// count does not exceed the held-out sample count; otherwise returns the
/// fitted `(weight, bias)`, pinned exactly by [`spec_fit`].
pub fn linear_regression(data: &Vec<u32>, init_w: u32) -> (r: Result<(u32, u32), TrainError>)
    ensures
        r == Err::<(u32, u32), TrainError>(TrainError::MalformedInput) <==> !well_shaped(
            data@.len(),
        ),
        r == Err::<(u32, u32), TrainError>(TrainError::InsufficientData) <==> (well_shaped(
            data@.len(),
        ) && !enough_rows(data@.len())),
        r == Ok::<(u32, u32), TrainError>(spec_fit(data@, init_w)) <==> (well_shaped(data@.len())
            && enough_rows(data@.len())),
{
    let len = data.len();
    if len == 0 || len % 2 != 0 {
        return Err(TrainError::MalformedInput);
    }
    let rows = len / NCOLS;
    if rows <= N_SAMPLES {
        return Err(TrainError::InsufficientData);
    }
    let (train_block, _held_out) = split_rows(data, N_SAMPLES);
    proof {
        assert(train_block@ == spec_train_block(data@));
    }
    let x = column_of(&train_block, 0);
    let y = column_of(&train_block, 1);
    let w0 = mul_bits(init_w, SQRT2_BITS);
    let fitted = fit_params(&x, &y, w0, ONE_BITS, EPOCHS);
    Ok(fitted)
}

/// The sum of squared errors of the given parameters over the training
/// columns, accumulated left to right in single precision.
pub open spec fn spec_sse(x: Seq<u32>, y: Seq<u32>, w: u32, b: u32) -> u32 {
    let e = spec_errors(x, y, w, b);
    spec_sum(spec_prod(e, e))
}

/// Evaluates the sum of squared errors of `(w, b)` over one feature column
/// and one target column.
pub fn sum_squared_error(x: &Vec<u32>, y: &Vec<u32>, w: u32, b: u32) -> (r: u32)
    requires
        x@.len() == y@.len(),
        x@.len() > 0,
    ensures
        r == spec_sse(x@, y@, w, b),
{
    let y_pred = predict(x, w, b);
    let e = vec_diff(&y_pred, y);
    let sq = vec_prod(&e, &e);
    sum_vec(&sq)
}

} // verus!
