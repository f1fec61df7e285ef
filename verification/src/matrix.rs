//! Flat row-major two-column matrices and the numeric-array primitives the
//! trainer composes: reshape bookkeeping, row splits, column extraction,
//! elementwise arithmetic and sum reduction over bit-pattern scalars.

use crate::scalar::{add_bits, f_add, f_mul, f_sub, mul_bits, sub_bits};
use vstd::prelude::*;

verus! {

/// Columns of the design matrix: one feature column and one target column.
pub const NCOLS: usize = 2;

/// Rows that a flat sequence of the given length reshapes to.
pub open spec fn spec_rows(len: nat) -> nat {
    len / 2
}

/// Column `c` of a flat row-major two-column block.
pub open spec fn spec_column(s: Seq<u32>, c: int) -> Seq<u32> {
    Seq::new(s.len() / 2, |i: int| s[2 * i + c])
}

/// The flat row-major sequence of a sequence of `(feature, target)` records.
pub open spec fn spec_flatten(recs: Seq<(u32, u32)>) -> Seq<u32> {
    Seq::new(
        2 * recs.len(),
        |i: int| if i % 2 == 0 { recs[i / 2].0 } else { recs[i / 2].1 },
    )
}

/// The forward prediction `x[i] * w + b` over a feature column.
pub open spec fn spec_predict(x: Seq<u32>, w: u32, b: u32) -> Seq<u32> {
    Seq::new(x.len(), |i: int| f_add(f_mul(x[i], w), b))
}

/// Elementwise single-precision difference of two equally long sequences.
pub open spec fn spec_diff(a: Seq<u32>, b: Seq<u32>) -> Seq<u32> {
    Seq::new(a.len(), |i: int| f_sub(a[i], b[i]))
}

/// Elementwise single-precision product of two equally long sequences.
pub open spec fn spec_prod(a: Seq<u32>, b: Seq<u32>) -> Seq<u32> {
    Seq::new(a.len(), |i: int| f_mul(a[i], b[i]))
}

/// Single-precision sum of a nonempty sequence, accumulated left to right.
pub open spec fn spec_sum(s: Seq<u32>) -> u32
    recommends
        s.len() > 0,
    decreases s.len(),
{
    if s.len() <= 1 {
        s[0]
    } else {
        f_add(spec_sum(s.drop_last()), s.last())
    }
}

/// Flattens ordered `(feature, target)` records row-major into one flat
/// sequence, exactly as the trainer's reshape expects it.
pub fn flatten_pairs(recs: &Vec<(u32, u32)>) -> (r: Vec<u32>)
    requires
        recs@.len() * 2 <= usize::MAX,
    ensures
        r@ == spec_flatten(recs@),
{
    let mut r: Vec<u32> = Vec::new();
    let mut i: usize = 0;
    while i < recs.len()
        invariant
            i <= recs@.len(),
            recs@.len() * 2 <= usize::MAX,
            r@.len() == 2 * i,
            forall|j: int|
                0 <= j < i ==> r@[2 * j] == recs@[j].0 && r@[2 * j + 1] == recs@[j].1,
        decreases recs@.len() - i,
    {
        let rec = recs[i];
        r.push(rec.0);
        r.push(rec.1);
        i = i + 1;
    }
    proof {
        assert forall|k: int| 0 <= k < 2 * recs@.len() implies r@[k] == spec_flatten(recs@)[k] by {
            if k % 2 == 0 {
                assert(k == 2 * (k / 2));
            } else {
                assert(k == 2 * (k / 2) + 1);
            }
        }
        assert(r@ =~= spec_flatten(recs@));
    }
    r
}

/// Splits a flat two-column block into a leading training block and a
/// trailing held-out block of `holdout` rows.
pub fn split_rows(data: &Vec<u32>, holdout: usize) -> (r: (Vec<u32>, Vec<u32>))
    requires
        data@.len() % 2 == 0,
        2 * holdout <= data@.len(),
    ensures
        r.0@ == data@.subrange(0, data@.len() - 2 * holdout),
        r.1@ == data@.subrange(data@.len() - 2 * holdout, data@.len() as int),
{
    let n = data.len();
    let cut = n - 2 * holdout;
    let mut head: Vec<u32> = Vec::new();
    let mut i: usize = 0;
    while i < cut
        invariant
            i <= cut <= data@.len(),
            head@.len() == i,
            forall|j: int| 0 <= j < i ==> head@[j] == data@[j],
        decreases cut - i,
    {
        head.push(data[i]);
        i = i + 1;
    }
    let mut tail: Vec<u32> = Vec::new();
    let mut k: usize = cut;
    while k < n
        invariant
            cut <= k <= n == data@.len(),
            tail@.len() == k - cut,
            forall|j: int| 0 <= j < k - cut ==> tail@[j] == data@[cut + j],
        decreases n - k,
    {
        tail.push(data[k]);
        k = k + 1;
    }
    proof {
        assert(head@ =~= data@.subrange(0, data@.len() - 2 * holdout));
        assert(tail@ =~= data@.subrange(data@.len() - 2 * holdout, data@.len() as int));
    }
    (head, tail)
}

/// Extracts one column of a flat row-major two-column block.
pub fn column_of(block: &Vec<u32>, c: usize) -> (r: Vec<u32>)
    requires
        block@.len() % 2 == 0,
        c < 2,
    ensures
        r@ == spec_column(block@, c as int),
        r@.len() == spec_rows(block@.len()),
{
    let rows = block.len() / NCOLS;
    let mut r: Vec<u32> = Vec::new();
    let mut i: usize = 0;
    while i < rows
        invariant
            i <= rows,
            2 * rows == block@.len(),
            block@.len() <= usize::MAX,
            c < 2,
            r@.len() == i,
            forall|j: int| 0 <= j < i ==> r@[j] == block@[2 * j + c],
        decreases rows - i,
    {
        r.push(block[2 * i + c]);
        i = i + 1;
    }
    proof {
        assert(r@ =~= spec_column(block@, c as int));
    }
    r
}

/// The forward prediction `x[i] * w + b` for every row of the feature column:
/// a matrix-vector product with the scalar weight followed by a row-broadcast
/// addition of the scalar bias.
pub fn predict(x: &Vec<u32>, w: u32, b: u32) -> (r: Vec<u32>)
    ensures
        r@ == spec_predict(x@, w, b),
{
    let mut r: Vec<u32> = Vec::new();
    let mut i: usize = 0;
    while i < x.len()
        invariant
            i <= x@.len(),
            r@.len() == i,
            forall|j: int| 0 <= j < i ==> r@[j] == f_add(f_mul(x@[j], w), b),
        decreases x@.len() - i,
    {
        r.push(add_bits(mul_bits(x[i], w), b));
        i = i + 1;
    }
    proof {
        assert(r@ =~= spec_predict(x@, w, b));
    }
    r
}

/// Elementwise difference of two equally long column vectors.
pub fn vec_diff(a: &Vec<u32>, b: &Vec<u32>) -> (r: Vec<u32>)
    requires
        a@.len() == b@.len(),
    ensures
        r@ == spec_diff(a@, b@),
{
    let mut r: Vec<u32> = Vec::new();
    let mut i: usize = 0;
    while i < a.len()
        invariant
            i <= a@.len() == b@.len(),
            r@.len() == i,
            forall|j: int| 0 <= j < i ==> r@[j] == f_sub(a@[j], b@[j]),
        decreases a@.len() - i,
    {
        r.push(sub_bits(a[i], b[i]));
        i = i + 1;
    }
    proof {
        assert(r@ =~= spec_diff(a@, b@));
    }
    r
}

/// Elementwise product of two equally long column vectors.
pub fn vec_prod(a: &Vec<u32>, b: &Vec<u32>) -> (r: Vec<u32>)
    requires
        a@.len() == b@.len(),
    ensures
        r@ == spec_prod(a@, b@),
{
    let mut r: Vec<u32> = Vec::new();
    let mut i: usize = 0;
    while i < a.len()
        invariant
            i <= a@.len() == b@.len(),
            r@.len() == i,
            forall|j: int| 0 <= j < i ==> r@[j] == f_mul(a@[j], b@[j]),
        decreases a@.len() - i,
    {
        r.push(mul_bits(a[i], b[i]));
        i = i + 1;
    }
    proof {
        assert(r@ =~= spec_prod(a@, b@));
    }
    r
}

/// Left-to-right single-precision sum of a nonempty column vector.
pub fn sum_vec(v: &Vec<u32>) -> (r: u32)
    requires
        v@.len() > 0,
    ensures
        r == spec_sum(v@),
{
    let mut acc = v[0];
    let mut i: usize = 1;
    while i < v.len()
        invariant
            1 <= i <= v@.len(),
            acc == spec_sum(v@.subrange(0, i as int)),
        decreases v@.len() - i,
    {
        proof {
            let s = v@.subrange(0, i + 1);
            assert(s.drop_last() =~= v@.subrange(0, i as int));
            assert(s.last() == v@[i as int]);
        }
        acc = add_bits(acc, v[i]);
        i = i + 1;
    }
    proof {
        assert(v@.subrange(0, v@.len() as int) =~= v@);
    }
    acc
}

} // verus!
