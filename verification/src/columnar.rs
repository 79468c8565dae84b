use vstd::prelude::*;
use crate::errors::BenchError;
use crate::fsum::{
    fold_clean32, is_nan32, lemma_fold_clean32_concat, lemma_sum32_concat, nan_case32,
    sum32_continue, sum32_from, sum_naive32, sum_vectorized,
};

verus! {

// A columnar container is modelled from its raw bytes.  Each record batch is
// a sequence over column positions; the entry at a position is `Some(bits)`
// when that column's runtime type is the expected 32-bit float type, with
// its values as IEEE-754 bit patterns in row order, and `None` otherwise.

/// A handle on an opened container: parquet's record-batch reader.  Held in
/// an opaque struct because the reader's type cannot be declared to Verus.
#[verifier::external_body]
pub struct Container {
    inner: parquet::arrow::arrow_reader::ParquetRecordBatchReader,
}

/// One record batch of the container: arrow's in-memory batch, opaque to
/// Verus for the same reason, read only through the wrappers below.
#[verifier::external_body]
pub struct Batch {
    inner: arrow::record_batch::RecordBatch,
}

/// What one pull on the container's reader produced.
pub enum BatchStep {
    /// The next batch, decoded.
    Got(Batch),
    /// A batch failed to decode.
    Failed,
    /// Every batch has been consumed.
    End,
}

/// Whether the container bytes open: the footer and metadata parse, and a
/// reader with default options can be built over the row groups.  Outcome of
/// parquet's `ParquetRecordBatchReaderBuilder` on the bytes alone.
pub uninterp spec fn container_ok(data: Seq<u8>) -> bool;

/// The record batches, of up to `batch_size` rows each, that a freshly built
/// reader over the container bytes yields in storage order, each modelled
/// column by column as described above.
pub uninterp spec fn container_batches(data: Seq<u8>, batch_size: int) -> Seq<Seq<Option<Seq<u32>>>>;

/// Whether every batch of a freshly built reader over the container bytes
/// decodes cleanly, so that pulling batches reaches the end without a
/// decode error.  Outcome of the reads on the bytes and batch size alone.
pub uninterp spec fn container_decodes(data: Seq<u8>, batch_size: int) -> bool;

/// What a container handle still holds: the models of the batches it will
/// yield from here on, so long as every yield decodes cleanly.
pub uninterp spec fn reader_rem(r: Container) -> Seq<Seq<Option<Seq<u32>>>>;

/// Whether none of the pulls a container handle still has before it will
/// report a decode error.
pub uninterp spec fn reader_decodes(r: Container) -> bool;

/// The number of columns of a record batch.
pub uninterp spec fn batch_width(b: Batch) -> nat;

/// The column of a record batch at a 0-based position: `Some` of its values
/// as bit patterns when its runtime type is the 32-bit float type, `None`
/// otherwise.
pub uninterp spec fn batch_col32(b: Batch, pos: int) -> Option<Seq<u32>>;

/// Relies on parquet's `ParquetRecordBatchReaderBuilder`: `try_new` parses
/// the footer and metadata of the given bytes, and `build`, with default
/// options and the given batch size, yields a reader over all row groups
/// whose batches hold at most `batch_size` rows each.  Whether the two
/// calls succeed, and whether every batch later decodes, depend on the
/// bytes (and batch size) alone; any error here is collapsed to `None`.
#[verifier::external_body]
fn try_reader(data: Vec<u8>, batch_size: usize) -> (r: Option<Container>)
    requires
        batch_size >= 1,
    ensures
        r is Some <==> container_ok(data@),
        r is Some ==> reader_rem(r->0) == container_batches(data@, batch_size as int),
        r is Some ==> (reader_decodes(r->0) <==> container_decodes(data@, batch_size as int)),
        r is Some ==> ({
            let gb = container_batches(data@, batch_size as int);
            forall|k: int, p: int|
                0 <= k < gb.len() && 0 <= p < gb[k].len() && #[trigger] gb[k][p] is Some
                    ==> gb[k][p]->0.len() <= batch_size
        }),
{
    let builder = parquet::arrow::arrow_reader::ParquetRecordBatchReaderBuilder::try_new(
        bytes::Bytes::from(data),
    ).ok()?;
    let reader = builder.with_batch_size(batch_size).build().ok()?;
    Some(Container { inner: reader })
}

/// Relies on `ParquetRecordBatchReader` as an iterator (`Iterator::next`):
/// it yields the remaining record batches in storage order, a decode error,
/// or `None` once every batch has been consumed.
#[verifier::external_body]
fn next_batch(r: &mut Container) -> (res: BatchStep)
    ensures
        match res {
            BatchStep::End => reader_rem(*old(r)).len() == 0 && reader_rem(*final(r))
                == reader_rem(*old(r)) && reader_decodes(*old(r)) && reader_decodes(*final(r)),
            BatchStep::Failed => !reader_decodes(*old(r)),
            BatchStep::Got(b) => reader_rem(*old(r)).len() > 0 && reader_rem(*final(r))
                == reader_rem(*old(r)).skip(1) && (reader_decodes(*final(r)) <==> reader_decodes(
                *old(r),
            )) && batch_width(b) as int == reader_rem(*old(r))[0].len() && (forall|p: int|
                0 <= p < reader_rem(*old(r))[0].len() ==> #[trigger] batch_col32(b, p)
                    == reader_rem(*old(r))[0][p]),
        },
{
    match r.inner.next() {
        Some(Ok(b)) => BatchStep::Got(Batch { inner: b }),
        Some(Err(_)) => BatchStep::Failed,
        None => BatchStep::End,
    }
}

/// Relies on `RecordBatch::num_columns`.
#[verifier::external_body]
fn batch_num_columns(b: &Batch) -> (n: usize)
    ensures
        n as nat == batch_width(*b),
{
    b.inner.num_columns()
}

/// Relies on `RecordBatch::column` and on `Float32Array` (the downcast tells
/// the column's runtime type; `values` hands its buffer out): the column at
/// `pos`, read out one bit pattern per row, if it is a Float32 column.
#[verifier::external_body]
fn batch_column_f32_bits(b: &Batch, pos: usize) -> (r: Option<Vec<u32>>)
    requires
        (pos as nat) < batch_width(*b),
    ensures
        r is Some <==> batch_col32(*b, pos as int) is Some,
        r is Some ==> r->0@ == batch_col32(*b, pos as int)->0,
{
    let col = b.inner.column(pos);
    let arr = col.as_any().downcast_ref::<arrow::array::Float32Array>()?;
    Some(arr.values().iter().map(|v| v.to_bits()).collect())
}

/// Whether a batch, at the given column position, holds the expected
/// float column.
pub open spec fn batch_ok(b: Seq<Option<Seq<u32>>>, pos: int) -> bool {
    &&& 0 <= pos < b.len()
    &&& b[pos] is Some
}

/// The bit patterns of a batch's column at the given position.
pub open spec fn batch_col(b: Seq<Option<Seq<u32>>>, pos: int) -> Seq<u32> {
    b[pos]->0
}

/// Batch-by-batch accumulation: each batch's column at `pos` is folded left
/// to right, and the accumulator is carried across batch boundaries.
pub open spec fn fold_batches(acc: u32, batches: Seq<Seq<Option<Seq<u32>>>>, pos: int) -> u32
    decreases batches.len(),
{
    if batches.len() == 0 {
        acc
    } else {
        fold_batches(sum32_from(acc, batch_col(batches[0], pos)), batches.skip(1), pos)
    }
}

/// One logical column: the concatenation, in batch order, of every batch's
/// column at `pos`.
pub open spec fn concat_col32(batches: Seq<Seq<Option<Seq<u32>>>>, pos: int) -> Seq<u32>
    decreases batches.len(),
{
    if batches.len() == 0 {
        Seq::empty()
    } else {
        batch_col(batches[0], pos) + concat_col32(batches.skip(1), pos)
    }
}

/// Whether the batch-by-batch accumulation from `acc` never hits a NaN
/// case, batch boundaries included.
pub open spec fn fold_clean_batches(acc: u32, batches: Seq<Seq<Option<Seq<u32>>>>, pos: int) -> bool
    decreases batches.len(),
{
    if batches.len() == 0 {
        true
    } else {
        fold_clean32(acc, batch_col(batches[0], pos)) && fold_clean_batches(
            sum32_from(acc, batch_col(batches[0], pos)),
            batches.skip(1),
            pos,
        )
    }
}

/// Law: a naive scan's total is insensitive to batch boundaries.  Folding
/// batch by batch, carrying the accumulator across each boundary, equals one
/// left-to-right fold over the concatenation of all batches into a single
/// logical column.
pub proof fn lemma_fold_batches_concat(acc: u32, batches: Seq<Seq<Option<Seq<u32>>>>, pos: int)
    ensures
        fold_batches(acc, batches, pos) == sum32_from(acc, concat_col32(batches, pos)),
    decreases batches.len(),
{
    if batches.len() == 0 {
    } else {
        lemma_fold_batches_concat(
            sum32_from(acc, batch_col(batches[0], pos)),
            batches.skip(1),
            pos,
        );
        lemma_sum32_concat(acc, batch_col(batches[0], pos), concat_col32(batches.skip(1), pos));
    }
}

/// Law: NaN-freedom is likewise insensitive to batch boundaries — the
/// batch-by-batch accumulation is NaN-free exactly when one fold over the
/// concatenated column is.
pub proof fn lemma_fold_clean_batches_concat(
    acc: u32,
    batches: Seq<Seq<Option<Seq<u32>>>>,
    pos: int,
)
    ensures
        fold_clean_batches(acc, batches, pos) <==> fold_clean32(acc, concat_col32(batches, pos)),
    decreases batches.len(),
{
    if batches.len() == 0 {
    } else {
        lemma_fold_clean_batches_concat(
            sum32_from(acc, batch_col(batches[0], pos)),
            batches.skip(1),
            pos,
        );
        lemma_fold_clean32_concat(
            acc,
            batch_col(batches[0], pos),
            concat_col32(batches.skip(1), pos),
        );
    }
}

/// The timed figures of one batch: its row count and the two sums, each as
/// the bit pattern the corresponding access strategy reports.
#[derive(Clone, Copy, Debug, PartialEq, Eq, Structural)]
pub struct BatchSums {
    pub rows: usize,
    pub naive_bits: u32,
    pub vectorized_bits: u32,
}

/// The outcome of scanning one container: the per-batch figures in batch
/// order, and the naive total carried across all batches.
#[derive(Debug)]
pub struct ScanReport {
    pub batches: Vec<BatchSums>,
    pub total_naive_bits: u32,
}

/// What a correct per-batch report says of a batch's column `c`: the exact
/// row count; the exact naive fold where it is NaN-free, some NaN where it
/// is not; and zero bits from the vectorized kernel on an empty column (its
/// non-empty value is the kernel's own, held near the naive one by tests).
pub open spec fn batch_report_matches(s: BatchSums, c: Seq<u32>) -> bool {
    &&& s.rows as nat == c.len()
    &&& (fold_clean32(0u32, c) ==> s.naive_bits == sum32_from(0u32, c))
    &&& (!fold_clean32(0u32, c) ==> is_nan32(s.naive_bits))
    &&& (c.len() == 0 ==> s.vectorized_bits == 0u32)
}

/// Returns the column of a batch at a 0-based position, as bit patterns, or
/// `TypeMismatchError` exactly when the position is out of range or the
/// column there is not of the expected 32-bit float type.
pub fn extract_column(b: &Batch, pos: usize) -> (r: Result<Vec<u32>, BenchError>)
    ensures
        match r {
            Ok(v) => (pos as nat) < batch_width(*b) && batch_col32(*b, pos as int) is Some && v@
                == batch_col32(*b, pos as int)->0,
            Err(e) => e == BenchError::TypeMismatchError && ((pos as nat) >= batch_width(*b)
                || batch_col32(*b, pos as int) is None),
        },
{
    let n = batch_num_columns(b);
    if pos < n {
        match batch_column_f32_bits(b, pos) {
            Some(v) => Ok(v),
            None => Err(BenchError::TypeMismatchError),
        }
    } else {
        Err(BenchError::TypeMismatchError)
    }
}

/// Opens the container bytes and extracts the column at `pos` of every
/// batch, in batch order, without summing it: the caller can then drive,
/// and time, each access strategy on each batch separately.
///
/// Succeeds if and only if the bytes open, every batch decodes, and every
/// batch holds the expected float column at `pos` — so a valid container,
/// an empty one included, is owed a result.  Fails exactly as
/// `scan_container` does otherwise.
pub fn collect_columns(data: Vec<u8>, batch_size: usize, pos: usize) -> (r: Result<
    Vec<Vec<u32>>,
    BenchError,
>)
    requires
        batch_size >= 1,
    ensures
        !container_ok(data@) ==> r == Err::<Vec<Vec<u32>>, BenchError>(
            BenchError::ContainerOpenError,
        ),
        ({
            let gb = container_batches(data@, batch_size as int);
            &&& (r is Ok <==> container_ok(data@) && container_decodes(data@, batch_size as int)
                && (forall|k: int| 0 <= k < gb.len() ==> #[trigger] batch_ok(gb[k], pos as int)))
            &&& match r {
                Ok(cols) => cols@.len() == gb.len() && (forall|k: int|
                    0 <= k < gb.len() ==> (#[trigger] cols@[k])@ == batch_col(gb[k], pos as int))
                    && (forall|k: int|
                    0 <= k < gb.len() ==> #[trigger] batch_col(gb[k], pos as int).len()
                        <= batch_size),
                Err(e) => (e == BenchError::ContainerOpenError || e == BenchError::TypeMismatchError)
                    && (e == BenchError::ContainerOpenError ==> !container_ok(data@)
                    || !container_decodes(data@, batch_size as int)) && (e
                    == BenchError::TypeMismatchError ==> container_ok(data@) && (exists|k: int|
                    0 <= k < gb.len() && !(#[trigger] batch_ok(gb[k], pos as int)))),
            }
        }),
{
    let ghost gb = container_batches(data@, batch_size as int);
    let mut reader = match try_reader(data, batch_size) {
        Some(rd) => rd,
        None => {
            return Err(BenchError::ContainerOpenError);
        },
    };
    let mut cols: Vec<Vec<u32>> = Vec::new();
    let ghost mut done: int = 0;
    proof {
        assert(gb.skip(0) =~= gb);
    }
    loop
        invariant
            container_ok(data@),
            gb == container_batches(data@, batch_size as int),
            0 <= done <= gb.len(),
            reader_rem(reader) == gb.skip(done),
            reader_decodes(reader) <==> container_decodes(data@, batch_size as int),
            cols@.len() == done,
            forall|k: int| 0 <= k < done ==> #[trigger] batch_ok(gb[k], pos as int),
            forall|k: int| 0 <= k < done ==> (#[trigger] cols@[k])@ == batch_col(gb[k], pos as int),
        ensures
            done == gb.len(),
            cols@.len() == gb.len(),
            container_decodes(data@, batch_size as int),
            forall|k: int| 0 <= k < gb.len() ==> #[trigger] batch_ok(gb[k], pos as int),
            forall|k: int|
                0 <= k < gb.len() ==> (#[trigger] cols@[k])@ == batch_col(gb[k], pos as int),
        decreases gb.len() - done,
    {
        match next_batch(&mut reader) {
            BatchStep::End => {
                proof {
                    assert(gb.skip(done) =~= Seq::<Seq<Option<Seq<u32>>>>::empty());
                }
                break;
            },
            BatchStep::Failed => {
                return Err(BenchError::ContainerOpenError);
            },
            BatchStep::Got(b) => {
                proof {
                    assert(gb.skip(done)[0] == gb[done]);
                }
                let col = match extract_column(&b, pos) {
                    Ok(v) => v,
                    Err(_) => {
                        proof {
                            assert(done < gb.len());
                            if (pos as nat) < batch_width(b) {
                                assert(batch_col32(b, pos as int) == gb[done][pos as int]);
                            }
                            assert(!batch_ok(gb[done], pos as int));
                            assert(exists|k: int|
                                0 <= k < gb.len() && !(#[trigger] batch_ok(gb[k], pos as int)));
                        }
                        return Err(BenchError::TypeMismatchError);
                    },
                };
                proof {
                    assert(batch_ok(gb[done], pos as int));
                    assert(col@ == batch_col(gb[done], pos as int));
                    assert(gb.skip(done).skip(1) =~= gb.skip(done + 1));
                }
                cols.push(col);
                proof {
                    done = done + 1;
                }
            },
        }
    }
    proof {
        assert forall|k: int|
            0 <= k < gb.len() implies #[trigger] batch_col(gb[k], pos as int).len()
            <= batch_size by {
            assert(batch_ok(gb[k], pos as int));
            assert(gb[k][pos as int] is Some);
        }
    }
    Ok(cols)
}

/// Opens the container bytes and scans the column at `pos` batch by batch,
/// summing each batch with the naive loop and with the vectorized kernel,
/// and carrying the naive accumulator across batches.
///
/// Succeeds if and only if the bytes open, every batch decodes, and every
/// batch holds the expected float column at `pos` — so a valid container,
/// an empty one included, is owed a report.  Fails with
/// `ContainerOpenError` exactly when the bytes do not open or a batch does
/// not decode, and with `TypeMismatchError` when some batch lacks the
/// column.  On success the report covers every batch exactly, and the
/// total is the fold over the single concatenated column: exact where that
/// fold is NaN-free, some NaN where it is not.
pub fn scan_container(data: Vec<u8>, batch_size: usize, pos: usize) -> (r: Result<
    ScanReport,
    BenchError,
>)
    requires
        batch_size >= 1,
    ensures
        !container_ok(data@) ==> r == Err::<ScanReport, BenchError>(
            BenchError::ContainerOpenError,
        ),
        ({
            let gb = container_batches(data@, batch_size as int);
            &&& (r is Ok <==> container_ok(data@) && container_decodes(data@, batch_size as int)
                && (forall|k: int| 0 <= k < gb.len() ==> #[trigger] batch_ok(gb[k], pos as int)))
            &&& match r {
                Ok(rep) => rep.batches@.len() == gb.len() && (forall|k: int|
                    0 <= k < gb.len() ==> batch_report_matches(
                        #[trigger] rep.batches@[k],
                        batch_col(gb[k], pos as int),
                    )) && (forall|k: int|
                    0 <= k < gb.len() ==> #[trigger] batch_col(gb[k], pos as int).len()
                        <= batch_size) && (fold_clean32(0u32, concat_col32(gb, pos as int))
                    ==> rep.total_naive_bits == sum32_from(0u32, concat_col32(gb, pos as int))) && (
                !fold_clean32(0u32, concat_col32(gb, pos as int)) ==> is_nan32(
                    rep.total_naive_bits,
                )),
                Err(e) => (e == BenchError::ContainerOpenError || e == BenchError::TypeMismatchError)
                    && (e == BenchError::ContainerOpenError ==> !container_ok(data@)
                    || !container_decodes(data@, batch_size as int)) && (e
                    == BenchError::TypeMismatchError ==> container_ok(data@) && (exists|k: int|
                    0 <= k < gb.len() && !(#[trigger] batch_ok(gb[k], pos as int)))),
            }
        }),
{
    let ghost gb = container_batches(data@, batch_size as int);
    let mut reader = match try_reader(data, batch_size) {
        Some(rd) => rd,
        None => {
            return Err(BenchError::ContainerOpenError);
        },
    };
    let mut reports: Vec<BatchSums> = Vec::new();
    let mut total: u32 = 0u32;
    let ghost mut done: int = 0;
    let ghost mut clean: bool = true;
    proof {
        assert(gb.skip(0) =~= gb);
    }
    loop
        invariant
            container_ok(data@),
            gb == container_batches(data@, batch_size as int),
            0 <= done <= gb.len(),
            reader_rem(reader) == gb.skip(done),
            reader_decodes(reader) <==> container_decodes(data@, batch_size as int),
            reports@.len() == done,
            forall|k: int| 0 <= k < done ==> #[trigger] batch_ok(gb[k], pos as int),
            forall|k: int|
                0 <= k < done ==> batch_report_matches(
                    #[trigger] reports@[k],
                    batch_col(gb[k], pos as int),
                ),
            clean ==> fold_batches(total, gb.skip(done), pos as int) == fold_batches(
                0u32,
                gb,
                pos as int,
            ) && (fold_clean_batches(total, gb.skip(done), pos as int) <==> fold_clean_batches(
                0u32,
                gb,
                pos as int,
            )),
            !clean ==> is_nan32(total) && !fold_clean_batches(0u32, gb, pos as int),
        ensures
            done == gb.len(),
            reports@.len() == gb.len(),
            container_decodes(data@, batch_size as int),
            fold_clean_batches(0u32, gb, pos as int) ==> total == fold_batches(
                0u32,
                gb,
                pos as int,
            ),
            !fold_clean_batches(0u32, gb, pos as int) ==> is_nan32(total),
            forall|k: int| 0 <= k < gb.len() ==> #[trigger] batch_ok(gb[k], pos as int),
            forall|k: int|
                0 <= k < gb.len() ==> batch_report_matches(
                    #[trigger] reports@[k],
                    batch_col(gb[k], pos as int),
                ),
        decreases gb.len() - done,
    {
        match next_batch(&mut reader) {
            BatchStep::End => {
                proof {
                    assert(gb.skip(done) =~= Seq::<Seq<Option<Seq<u32>>>>::empty());
                }
                break;
            },
            BatchStep::Failed => {
                return Err(BenchError::ContainerOpenError);
            },
            BatchStep::Got(b) => {
                proof {
                    assert(gb.skip(done)[0] == gb[done]);
                }
                let cols = match extract_column(&b, pos) {
                    Ok(v) => v,
                    Err(_) => {
                        proof {
                            assert(done < gb.len());
                            if (pos as nat) < batch_width(b) {
                                assert(batch_col32(b, pos as int) == gb[done][pos as int]);
                            }
                            assert(!batch_ok(gb[done], pos as int));
                            assert(exists|k: int|
                                0 <= k < gb.len() && !(#[trigger] batch_ok(gb[k], pos as int)));
                        }
                        return Err(BenchError::TypeMismatchError);
                    },
                };
                proof {
                    assert(batch_ok(gb[done], pos as int));
                    assert(cols@ == batch_col(gb[done], pos as int));
                }
                let naive = sum_naive32(&cols);
                let vect = sum_vectorized(&cols);
                let rows = cols.len();
                let ghost tprev: u32 = total;
                total = sum32_continue(total, &cols);
                reports.push(BatchSums { rows, naive_bits: naive, vectorized_bits: vect });
                proof {
                    assert(gb.skip(done).skip(1) =~= gb.skip(done + 1));
                    if clean {
                        if fold_clean32(tprev, cols@) {
                            assert(total == sum32_from(tprev, cols@));
                        } else {
                            assert(!fold_clean_batches(tprev, gb.skip(done), pos as int));
                            assert(is_nan32(total));
                            clean = false;
                        }
                    } else {
                        if cols@.len() == 0 {
                            assert(fold_clean32(tprev, cols@));
                            assert(total == tprev);
                        } else {
                            assert(nan_case32(tprev, cols@[0]));
                            assert(!fold_clean32(tprev, cols@));
                            assert(is_nan32(total));
                        }
                    }
                    done = done + 1;
                }
            },
        }
    }
    proof {
        lemma_fold_batches_concat(0u32, gb, pos as int);
        lemma_fold_clean_batches_concat(0u32, gb, pos as int);
        assert forall|k: int|
            0 <= k < gb.len() implies #[trigger] batch_col(gb[k], pos as int).len()
            <= batch_size by {
            assert(batch_ok(gb[k], pos as int));
            assert(gb[k][pos as int] is Some);
        }
    }
    Ok(ScanReport { batches: reports, total_naive_bits: total })
}

} // verus!

