use std::sync::Arc;

use arrow::array::{ArrayRef, Float32Array, Int32Array, StringArray};
use arrow::record_batch::RecordBatch;
use parquet::arrow::arrow_writer::ArrowWriter;

use colscan::{scan_container, BenchError};

/// A three-column container whose Float32 column of interest sits at
/// position 2, as the harness expects.
fn container_bytes(temps: &[f32]) -> Vec<u8> {
    let n = temps.len();
    let ids: Vec<i32> = (0..n as i32).collect();
    let names: Vec<String> = (0..n).map(|i| format!("station-{i}")).collect();
    let batch = RecordBatch::try_from_iter(vec![
        ("id", Arc::new(Int32Array::from(ids)) as ArrayRef),
        ("name", Arc::new(StringArray::from(names)) as ArrayRef),
        ("temperature", Arc::new(Float32Array::from(temps.to_vec())) as ArrayRef),
    ])
    .unwrap();
    let mut out: Vec<u8> = Vec::new();
    let mut writer = ArrowWriter::try_new(&mut out, batch.schema(), None).unwrap();
    writer.write(&batch).unwrap();
    writer.close().unwrap();
    out
}

#[test]
fn three_rows_both_strategies_agree() {
    let data = container_bytes(&[1.0, 2.0, 3.0]);
    let report = scan_container(data, 1_000_000, 2).unwrap();
    assert_eq!(report.batches.len(), 1);
    assert_eq!(report.batches[0].rows, 3);
    assert_eq!(f32::from_bits(report.batches[0].naive_bits), 6.0);
    assert_eq!(f32::from_bits(report.batches[0].vectorized_bits), 6.0);
    assert_eq!(f32::from_bits(report.total_naive_bits), 6.0);
}

#[test]
fn batch_boundaries_do_not_change_the_total() {
    let temps: Vec<f32> = vec![1.5, 2.25, 3.0, 4.5, 5.125];
    let whole = scan_container(container_bytes(&temps), 1_000_000, 2).unwrap();
    let split = scan_container(container_bytes(&temps), 2, 2).unwrap();
    assert_eq!(whole.batches.len(), 1);
    assert_eq!(split.batches.len(), 3);
    assert_eq!(split.batches[0].rows, 2);
    assert_eq!(split.batches[1].rows, 2);
    assert_eq!(split.batches[2].rows, 1);
    assert_eq!(split.total_naive_bits, whole.total_naive_bits);
    assert_eq!(f32::from_bits(split.total_naive_bits), 16.375);
}

#[test]
fn garbage_bytes_fail_with_container_open_error() {
    let data: Vec<u8> = vec![0, 1, 2, 3, 4, 5, 6, 7];
    let r = scan_container(data, 1_000_000, 2);
    assert_eq!(r.unwrap_err(), BenchError::ContainerOpenError);
}

#[test]
fn truncated_container_fails_with_container_open_error() {
    let mut data = container_bytes(&[1.0, 2.0, 3.0]);
    data.truncate(data.len() / 2);
    let r = scan_container(data, 1_000_000, 2);
    assert_eq!(r.unwrap_err(), BenchError::ContainerOpenError);
}

#[test]
fn wrong_column_type_fails_with_type_mismatch() {
    let data = container_bytes(&[1.0, 2.0, 3.0]);
    let r = scan_container(data, 1_000_000, 0);
    assert_eq!(r.unwrap_err(), BenchError::TypeMismatchError);
}

#[test]
fn column_position_out_of_range_fails_with_type_mismatch() {
    let data = container_bytes(&[1.0, 2.0, 3.0]);
    let r = scan_container(data, 1_000_000, 9);
    assert_eq!(r.unwrap_err(), BenchError::TypeMismatchError);
}

#[test]
fn empty_container_yields_no_batches() {
    let data = container_bytes(&[]);
    let report = scan_container(data, 1_000_000, 2).unwrap();
    assert_eq!(report.batches.len(), 0);
    assert_eq!(f32::from_bits(report.total_naive_bits), 0.0);
}

#[test]
fn negative_and_positive_values_sum_left_to_right() {
    let temps: Vec<f32> = vec![-1.0, -2.0, 7.5];
    let report = scan_container(container_bytes(&temps), 1_000_000, 2).unwrap();
    assert_eq!(f32::from_bits(report.total_naive_bits), 4.5);
}

#[test]
fn collected_columns_match_the_rows_in_order() {
    let temps: Vec<f32> = vec![1.0, 2.0, 3.0, 4.0, 5.0];
    let cols = colscan::collect_columns(container_bytes(&temps), 2, 2).unwrap();
    assert_eq!(cols.len(), 3);
    let flat: Vec<f32> = cols.iter().flatten().map(|b| f32::from_bits(*b)).collect();
    assert_eq!(flat, temps);
}
