mod columnar;
mod driver;
mod errors;
mod fsum;
mod indexed;

pub use columnar::{
    batch_col, batch_col32, batch_ok, batch_report_matches, batch_width, concat_col32,
    collect_columns, container_batches, container_decodes, container_ok, extract_column,
    fold_batches, fold_clean_batches, lemma_fold_batches_concat, lemma_fold_clean_batches_concat,
    scan_container, Batch, BatchSums, ScanReport,
};
pub use driver::{is_done, lemma_driver_order, next_phase, phase_after, phase_at, phase_rank, Phase};
pub use errors::BenchError;
pub use indexed::{
    check_single_segment, col_firsts, doc_bits, doc_bits_seq, ieee_of_mapped, index_f64_mapped,
    index_fields, index_seg_count, index_seg_docs, mapped_to_ieee, open_index, resolve_field,
    read_fast_field, scan_fast_field, FastColumn, FieldToken, IndexHandle, IndexScanReport,
};
pub use fsum::{
    add32, add64, fold_clean32, fold_clean64, is_inf32, is_inf64, is_nan32, is_nan64,
    lemma_fold_clean32_concat, lemma_sum32_concat, nan_case32, nan_case64, sum32_from, sum64_from,
    sum_naive32, sum_naive64, sum_vectorized,
};
