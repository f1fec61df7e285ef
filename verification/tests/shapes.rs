//! Shape handling: reshape validation, row splits, column extraction, and
//! the flat layout of loaded records.

use linreg::matrix::{column_of, flatten_pairs, split_rows};
use linreg::trainer::linear_regression;
use linreg::TrainError;

#[test]
fn rejects_empty_input() {
    let data: Vec<u32> = Vec::new();
    let r = linear_regression(&data, 0.5f32.to_bits());
    assert_eq!(r, Err(TrainError::MalformedInput));
}

#[test]
fn rejects_odd_length_input() {
    let data: Vec<u32> = vec![1.0f32.to_bits(), 2.0f32.to_bits(), 3.0f32.to_bits()];
    let r = linear_regression(&data, 0.5f32.to_bits());
    assert_eq!(r, Err(TrainError::MalformedInput));
}

#[test]
fn rejects_insufficient_rows() {
    // Exactly 60 rows: not strictly more than the held-out sample count.
    let mut data: Vec<u32> = Vec::new();
    for i in 0..60u32 {
        data.push((i as f32).to_bits());
        data.push((i as f32 + 1.0).to_bits());
    }
    let r = linear_regression(&data, 0.5f32.to_bits());
    assert_eq!(r, Err(TrainError::InsufficientData));
}

#[test]
fn accepts_sixty_one_rows() {
    // 61 rows: one training row beyond the held-out block.
    let mut data: Vec<u32> = Vec::new();
    for i in 0..61u32 {
        data.push((i as f32).to_bits());
        data.push((2.0 * i as f32).to_bits());
    }
    let r = linear_regression(&data, 0.5f32.to_bits());
    assert!(r.is_ok());
}

#[test]
fn split_keeps_leading_and_trailing_rows() {
    // Three rows, one held out: the first two rows train, the last is held out.
    let data: Vec<u32> = vec![1, 2, 3, 4, 5, 6];
    let (train, held_out) = split_rows(&data, 1);
    assert_eq!(train, vec![1, 2, 3, 4]);
    assert_eq!(held_out, vec![5, 6]);
}

#[test]
fn split_shapes_for_valid_input() {
    // 2k values with k = 63 rows: the training block must hold k - 60 rows.
    let mut data: Vec<u32> = Vec::new();
    for i in 0..126u32 {
        data.push(i);
    }
    let (train, held_out) = split_rows(&data, 60);
    assert_eq!(train.len(), 6);
    assert_eq!(held_out.len(), 120);
    let x = column_of(&train, 0);
    let y = column_of(&train, 1);
    assert_eq!(x.len(), 3);
    assert_eq!(y.len(), 3);
    assert_eq!(x, vec![0, 2, 4]);
    assert_eq!(y, vec![1, 3, 5]);
}

#[test]
fn flatten_lays_records_out_row_major() {
    let recs: Vec<(u32, u32)> = vec![(1, 2), (3, 4), (5, 6)];
    let flat = flatten_pairs(&recs);
    assert_eq!(flat, vec![1, 2, 3, 4, 5, 6]);
}

#[test]
fn flatten_twice_yields_identical_sequences() {
    let recs: Vec<(u32, u32)> = vec![
        (1.5f32.to_bits(), 7.25f32.to_bits()),
        (0.0f32.to_bits(), 3.0f32.to_bits()),
    ];
    let first = flatten_pairs(&recs);
    let second = flatten_pairs(&recs);
    assert_eq!(first, second);
}
