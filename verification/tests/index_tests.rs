use tantivy::schema::{Schema, FAST, STORED, TEXT};
use tantivy::{Index, IndexWriter, TantivyDocument};

use colscan::{open_index, read_fast_field, scan_fast_field, BenchError};

/// A one-segment in-memory index with a fast 64-bit float field named
/// `temperature_c` holding the given values, one document each, in order.
fn single_segment_index(temps: &[f64]) -> Index {
    let mut builder = Schema::builder();
    let temperature = builder.add_f64_field("temperature_c", FAST);
    builder.add_text_field("station", TEXT | STORED);
    let schema = builder.build();
    let index = Index::create_in_ram(schema);
    let mut writer: IndexWriter = index.writer_with_num_threads(1, 50_000_000).unwrap();
    for t in temps {
        let mut doc = TantivyDocument::default();
        doc.add_f64(temperature, *t);
        writer.add_document(doc).unwrap();
    }
    writer.commit().unwrap();
    index
}

#[test]
fn three_docs_sum_and_count() {
    let index = single_segment_index(&[10.0, 20.0, 30.0]);
    let handle = open_index(index).unwrap();
    let report = scan_fast_field(&handle, "temperature_c").unwrap();
    assert_eq!(report.num_docs, 3);
    assert_eq!(f64::from_bits(report.sum_bits), 60.0);
}

#[test]
fn every_ordinal_visited_once_in_order() {
    let index = single_segment_index(&[1.0, 2.0, 3.0]);
    let handle = open_index(index).unwrap();
    let values = read_fast_field(&handle, "temperature_c").unwrap();
    let values: Vec<f64> = values.into_iter().map(f64::from_bits).collect();
    assert_eq!(values, vec![1.0, 2.0, 3.0]);
    assert_eq!(values[0], 1.0);
}

#[test]
fn negative_values_decode_exactly() {
    let index = single_segment_index(&[-1.5, 2.5, -0.25]);
    let handle = open_index(index).unwrap();
    let values = read_fast_field(&handle, "temperature_c").unwrap();
    let values: Vec<f64> = values.into_iter().map(f64::from_bits).collect();
    assert_eq!(values, vec![-1.5, 2.5, -0.25]);
    let report = scan_fast_field(&handle, "temperature_c").unwrap();
    assert_eq!(f64::from_bits(report.sum_bits), 0.75);
}

#[test]
fn unknown_field_fails_with_unknown_field_error() {
    let index = single_segment_index(&[10.0]);
    let handle = open_index(index).unwrap();
    let r = scan_fast_field(&handle, "humidity");
    assert_eq!(r.unwrap_err(), BenchError::UnknownFieldError);
}

#[test]
fn field_without_fast_column_fails_with_fast_field_unavailable() {
    let index = single_segment_index(&[10.0]);
    let handle = open_index(index).unwrap();
    let r = scan_fast_field(&handle, "station");
    assert_eq!(r.unwrap_err(), BenchError::FastFieldUnavailableError);
}

#[test]
fn two_segments_fail_with_unexpected_segment_count() {
    let mut builder = Schema::builder();
    let temperature = builder.add_f64_field("temperature_c", FAST);
    let schema = builder.build();
    let index = Index::create_in_ram(schema);
    let mut writer: IndexWriter = index.writer_with_num_threads(1, 50_000_000).unwrap();
    let mut doc = TantivyDocument::default();
    doc.add_f64(temperature, 1.0);
    writer.add_document(doc).unwrap();
    writer.commit().unwrap();
    let mut doc = TantivyDocument::default();
    doc.add_f64(temperature, 2.0);
    writer.add_document(doc).unwrap();
    writer.commit().unwrap();
    let handle = open_index(index).unwrap();
    let r = scan_fast_field(&handle, "temperature_c");
    assert_eq!(r.unwrap_err(), BenchError::UnexpectedSegmentCountError);
}

#[test]
fn empty_index_has_no_single_segment() {
    let mut builder = Schema::builder();
    builder.add_f64_field("temperature_c", FAST);
    let schema = builder.build();
    let index = Index::create_in_ram(schema);
    let mut writer: IndexWriter = index.writer_with_num_threads(1, 50_000_000).unwrap();
    writer.commit().unwrap();
    let handle = open_index(index).unwrap();
    let r = scan_fast_field(&handle, "temperature_c");
    assert_eq!(r.unwrap_err(), BenchError::UnexpectedSegmentCountError);
}
