use vstd::prelude::*;
use crate::errors::BenchError;
use crate::fsum::{fold_clean64, is_nan64, sum64_from, sum_naive64};

verus! {

// The fast-field store keeps a 64-bit float as an order-preserving `u64`
// image.  The scan reads those images back and decodes each to the IEEE-754
// bit pattern it encodes, so every value below is a plain integer.

#[verifier::external_type_specification]
#[verifier::external_body]
pub struct ExIndex(tantivy::Index);

/// An opened index pinned to one searcher snapshot.  The searcher's type
/// cannot be declared to Verus, so the handle is opaque and is read only
/// through the wrappers below.
#[verifier::external_body]
pub struct IndexHandle {
    index: tantivy::Index,
    searcher: tantivy::Searcher,
}

/// A field resolved against the index schema.
#[verifier::external_body]
pub struct FieldToken {
    inner: tantivy::schema::Field,
}

/// One segment's fast-field column of order-preserving `u64` images.
#[verifier::external_body]
pub struct FastColumn {
    inner: tantivy::fastfield::Column<u64>,
}

/// The names of the fields of the handle's schema.
pub uninterp spec fn index_fields(h: IndexHandle) -> Set<Seq<char>>;

/// How many searchable segments the handle's searcher snapshot holds.
pub uninterp spec fn index_seg_count(h: IndexHandle) -> nat;

/// The number of alive documents of the segment at `i`.
pub uninterp spec fn index_seg_docs(h: IndexHandle, i: int) -> nat;

/// The 64-bit float fast-field column that the segment at `i` yields under
/// the given field name: `Some` of the stored `u64` image (or `None`) per
/// document ordinal, exactly when the segment's fast-field store opens such
/// a column; `None` where the column is absent, of another type, or does
/// not open.
pub uninterp spec fn index_f64_mapped(h: IndexHandle, i: int, field: Seq<char>) -> Option<
    Seq<Option<u64>>,
>;

/// What `FastColumn` lookups return, per document ordinal.
pub uninterp spec fn col_firsts(c: FastColumn) -> Seq<Option<u64>>;

/// Relies on `Index::reader` and `IndexReader::searcher`: pins a searcher
/// snapshot over the index's searchable segments.  Any failure to set the
/// reader up is collapsed to `None`.
#[verifier::external_body]
fn make_handle(index: tantivy::Index) -> (r: Option<IndexHandle>)
{
    let searcher = index.reader().ok()?.searcher();
    Some(IndexHandle { index, searcher })
}

/// Relies on `Searcher::schema` and `Schema::get_field`: the schema holds a
/// field under exactly the names it was built with.
#[verifier::external_body]
fn get_field_token(h: &IndexHandle, name: &str) -> (r: Option<FieldToken>)
    ensures
        r is Some <==> index_fields(*h).contains(name@),
{
    let f = h.searcher.schema().get_field(name).ok()?;
    Some(FieldToken { inner: f })
}

/// Relies on `Searcher::segment_readers`.
#[verifier::external_body]
fn num_segments(h: &IndexHandle) -> (n: usize)
    ensures
        n as nat == index_seg_count(*h),
{
    h.searcher.segment_readers().len()
}

/// Relies on `Searcher::segment_readers` and `SegmentReader::num_docs`: the
/// number of alive documents of the segment at `i`.
#[verifier::external_body]
fn segment_docs(h: &IndexHandle, i: usize) -> (n: u32)
    requires
        (i as nat) < index_seg_count(*h),
    ensures
        n as nat == index_seg_docs(*h, i as int),
{
    h.searcher.segment_readers()[i].num_docs()
}

/// Relies on `SegmentReader::fast_fields` and `FastFieldReaders::u64_lenient`:
/// the segment's column under the field name, exactly when its type is the
/// 64-bit float type; and on `Column::num_docs`: the column has one entry
/// per row of the segment, no fewer than its alive documents.
#[verifier::external_body]
fn segment_f64_column(h: &IndexHandle, i: usize, field_name: &str) -> (r: Option<FastColumn>)
    requires
        (i as nat) < index_seg_count(*h),
    ensures
        r is Some <==> index_f64_mapped(*h, i as int, field_name@) is Some,
        r is Some ==> col_firsts(r->0) == index_f64_mapped(*h, i as int, field_name@)->0
            && col_firsts(r->0).len() >= index_seg_docs(*h, i as int),
{
    let seg = &h.searcher.segment_readers()[i];
    match seg.fast_fields().u64_lenient(field_name) {
        Ok(Some((col, tantivy::columnar::ColumnType::F64))) => Some(FastColumn { inner: col }),
        _ => None,
    }
}

/// Relies on `Column::first`: the first value stored for the document
/// ordinal, or `None` where the document stores none.
#[verifier::external_body]
fn column_first(c: &FastColumn, ord: u32) -> (r: Option<u64>)
    requires
        (ord as nat) < col_firsts(*c).len(),
    ensures
        r == col_firsts(*c)[ord as int],
{
    c.inner.first(ord)
}

/// The IEEE-754 bit pattern encoded by an order-preserving `u64` image: an
/// image with its top bit set came from a non-negative value (clear the top
/// bit), any other came from a negative value (flip every bit).
pub open spec fn ieee_of_mapped(m: u64) -> u64 {
    if m & 0x8000_0000_0000_0000 != 0 {
        m ^ 0x8000_0000_0000_0000
    } else {
        !m
    }
}

/// Decodes an order-preserving `u64` image back to the IEEE-754 bit pattern
/// it encodes.
pub fn mapped_to_ieee(m: u64) -> (r: u64)
    ensures
        r == ieee_of_mapped(m),
{
    if m & 0x8000_0000_0000_0000u64 != 0 {
        m ^ 0x8000_0000_0000_0000u64
    } else {
        !m
    }
}

/// The bit pattern a scan reads for one document: the decoded first value,
/// or the bit pattern of positive zero where the document stores none.
pub open spec fn doc_bits(v: Option<u64>) -> u64 {
    match v {
        Some(m) => ieee_of_mapped(m),
        None => 0u64,
    }
}

/// The bit patterns read for document ordinals `0..n`, in increasing order.
pub open spec fn doc_bits_seq(vals: Seq<Option<u64>>, n: nat) -> Seq<u64> {
    Seq::new(n, |i: int| doc_bits(vals[i]))
}

/// Wraps an index the caller opened, pinning one searcher snapshot; fails
/// with `IndexOpenError` when the index's reader cannot be set up.
pub fn open_index(index: tantivy::Index) -> (r: Result<IndexHandle, BenchError>)
    ensures
        r is Err ==> r->Err_0 == BenchError::IndexOpenError,
{
    match make_handle(index) {
        Some(h) => Ok(h),
        None => Err(BenchError::IndexOpenError),
    }
}

/// Resolves a field name against the index schema; fails with
/// `UnknownFieldError` exactly when no field of that name exists.
pub fn resolve_field(h: &IndexHandle, name: &str) -> (r: Result<FieldToken, BenchError>)
    ensures
        r is Ok <==> index_fields(*h).contains(name@),
        r is Err ==> r->Err_0 == BenchError::UnknownFieldError,
{
    match get_field_token(h, name) {
        Some(f) => Ok(f),
        None => Err(BenchError::UnknownFieldError),
    }
}

/// Checks, before any scanning, that the index consists of exactly one
/// searchable segment; fails with `UnexpectedSegmentCountError` exactly
/// when it does not.
pub fn check_single_segment(h: &IndexHandle) -> (r: Result<(), BenchError>)
    ensures
        r is Ok <==> index_seg_count(*h) == 1,
        r is Err ==> r->Err_0 == BenchError::UnexpectedSegmentCountError,
{
    if num_segments(h) == 1 {
        Ok(())
    } else {
        Err(BenchError::UnexpectedSegmentCountError)
    }
}

/// Reads the field's fast-field column out, one IEEE-754 bit pattern per
/// document ordinal `0..num_docs`, in increasing ordinal order.  Fails
/// exactly as `scan_fast_field` does.
pub fn read_fast_field(h: &IndexHandle, field_name: &str) -> (r: Result<Vec<u64>, BenchError>)
    ensures
        match r {
            Ok(v) => index_fields(*h).contains(field_name@) && index_seg_count(*h) == 1
                && index_f64_mapped(*h, 0, field_name@) is Some && v@ == doc_bits_seq(
                index_f64_mapped(*h, 0, field_name@)->0,
                index_seg_docs(*h, 0),
            ),
            Err(e) => match e {
                BenchError::UnknownFieldError => !index_fields(*h).contains(field_name@),
                BenchError::UnexpectedSegmentCountError => index_fields(*h).contains(field_name@)
                    && index_seg_count(*h) != 1,
                BenchError::FastFieldUnavailableError => index_fields(*h).contains(field_name@)
                    && index_seg_count(*h) == 1 && index_f64_mapped(*h, 0, field_name@) is None,
                _ => false,
            },
        },
{
    let _field = match resolve_field(h, field_name) {
        Ok(f) => f,
        Err(e) => {
            return Err(e);
        },
    };
    match check_single_segment(h) {
        Ok(_) => {},
        Err(e) => {
            return Err(e);
        },
    }
    let col = match segment_f64_column(h, 0, field_name) {
        Some(c) => c,
        None => {
            return Err(BenchError::FastFieldUnavailableError);
        },
    };
    let n = segment_docs(h, 0);
    let ghost target = doc_bits_seq(index_f64_mapped(*h, 0, field_name@)->0, index_seg_docs(*h, 0));
    let mut out: Vec<u64> = Vec::new();
    let mut ord: u32 = 0;
    proof {
        assert(target =~= doc_bits_seq(col_firsts(col), n as nat));
    }
    while ord < n
        invariant
            ord <= n,
            col_firsts(col).len() >= n as nat,
            target == doc_bits_seq(col_firsts(col), n as nat),
            out@.len() == ord as nat,
            forall|k: int| 0 <= k < ord as int ==> out@[k] == target[k],
        decreases n - ord,
    {
        let v = column_first(&col, ord);
        let bits = match v {
            Some(m) => mapped_to_ieee(m),
            None => 0u64,
        };
        proof {
            assert(target[ord as int] == doc_bits(col_firsts(col)[ord as int]));
        }
        out.push(bits);
        ord = ord + 1;
    }
    proof {
        assert(out@ =~= target);
    }
    Ok(out)
}

/// The outcome of one fast-field scan: the segment's document count and the
/// naive sum over all ordinals, as a bit pattern.
#[derive(Clone, Copy, Debug, PartialEq, Eq, Structural)]
pub struct IndexScanReport {
    pub num_docs: u32,
    pub sum_bits: u64,
}

/// Resolves the field, checks the single-segment invariant before any
/// scanning, obtains the field's fast-field column, and sums document
/// ordinals `0..num_docs` in increasing order, each visited exactly once,
/// accumulating left to right from the bit pattern of positive zero: the
/// exact fold where it is NaN-free, some NaN where it is not.
///
/// Fails with `UnknownFieldError` exactly when the field is absent from the
/// schema; else with `UnexpectedSegmentCountError` exactly when the segment
/// count is not one; else with `FastFieldUnavailableError` exactly when the
/// field has no 64-bit float fast-field column in the segment.
pub fn scan_fast_field(h: &IndexHandle, field_name: &str) -> (r: Result<
    IndexScanReport,
    BenchError,
>)
    ensures
        match r {
            Ok(rep) => index_fields(*h).contains(field_name@) && index_seg_count(*h) == 1
                && index_f64_mapped(*h, 0, field_name@) is Some && rep.num_docs as nat
                == index_seg_docs(*h, 0) && ({
                let dseq = doc_bits_seq(
                    index_f64_mapped(*h, 0, field_name@)->0,
                    index_seg_docs(*h, 0),
                );
                &&& (fold_clean64(0u64, dseq) ==> rep.sum_bits == sum64_from(0u64, dseq))
                &&& (!fold_clean64(0u64, dseq) ==> is_nan64(rep.sum_bits))
            }),
            Err(e) => match e {
                BenchError::UnknownFieldError => !index_fields(*h).contains(field_name@),
                BenchError::UnexpectedSegmentCountError => index_fields(*h).contains(field_name@)
                    && index_seg_count(*h) != 1,
                BenchError::FastFieldUnavailableError => index_fields(*h).contains(field_name@)
                    && index_seg_count(*h) == 1 && index_f64_mapped(*h, 0, field_name@) is None,
                _ => false,
            },
        },
{
    let values = match read_fast_field(h, field_name) {
        Ok(v) => v,
        Err(e) => {
            return Err(e);
        },
    };
    let n = segment_docs(h, 0);
    let sum = sum_naive64(&values);
    Ok(IndexScanReport { num_docs: n, sum_bits: sum })
}

} // verus!
