use vstd::prelude::*;

verus! {

// Column values are carried as IEEE-754 bit patterns: a 32-bit value as a
// `u32`, a 64-bit value as a `u64`.  The bit pattern of positive zero is 0,
// which is the accumulator every scan starts from.
//
// Addition of two non-NaN values that are not opposite infinities has one
// exact IEEE-754 result, the same in every process and on every machine;
// where a NaN is an operand or is produced, the result is some NaN whose
// sign and payload bits the language does not pin down.  The contracts below
// therefore state exact bits only along NaN-free folds, and state "the
// result is a NaN" on the rest.

/// Whether a 32-bit pattern encodes a NaN: exponent all ones, mantissa
/// nonzero.
pub open spec fn is_nan32(bits: u32) -> bool {
    (bits >> 23) & 0xff == 0xff && bits & 0x7f_ffff != 0
}

/// Whether a 32-bit pattern encodes an infinity: exponent all ones,
/// mantissa zero.
pub open spec fn is_inf32(bits: u32) -> bool {
    (bits >> 23) & 0xff == 0xff && bits & 0x7f_ffff == 0
}

/// Whether a 64-bit pattern encodes a NaN.
pub open spec fn is_nan64(bits: u64) -> bool {
    (bits >> 52) & 0x7ff == 0x7ff && bits & 0xf_ffff_ffff_ffff != 0
}

/// Whether a 64-bit pattern encodes an infinity.
pub open spec fn is_inf64(bits: u64) -> bool {
    (bits >> 52) & 0x7ff == 0x7ff && bits & 0xf_ffff_ffff_ffff == 0
}

/// Whether adding the two 32-bit values produces a NaN: an operand is a
/// NaN, or the operands are infinities of opposite sign.
pub open spec fn nan_case32(a: u32, b: u32) -> bool {
    ||| is_nan32(a)
    ||| is_nan32(b)
    ||| (is_inf32(a) && is_inf32(b) && (a >> 31) != (b >> 31))
}

/// Whether adding the two 64-bit values produces a NaN.
pub open spec fn nan_case64(a: u64, b: u64) -> bool {
    ||| is_nan64(a)
    ||| is_nan64(b)
    ||| (is_inf64(a) && is_inf64(b) && (a >> 63) != (b >> 63))
}

/// The bit pattern of the IEEE-754 single-precision sum of the two values
/// with bit patterns `a` and `b`.  Named result of arrow's elementwise `add`
/// kernel over two one-value Float32 columns; outside the NaN cases the sum
/// of two given bit patterns depends on those patterns alone, and only
/// there do the trusted items below claim this name.
pub uninterp spec fn add32(a: u32, b: u32) -> u32;

/// The bit pattern of the IEEE-754 double-precision sum of the two values
/// with bit patterns `a` and `b`, under the same NaN proviso as `add32`.
pub uninterp spec fn add64(a: u64, b: u64) -> u64;

/// Left-to-right accumulation over a column: starting from `acc`, each value
/// is added exactly once, in increasing position order, with no value
/// skipped or repeated.
pub open spec fn sum32_from(acc: u32, s: Seq<u32>) -> u32
    decreases s.len(),
{
    if s.len() == 0 {
        acc
    } else {
        sum32_from(add32(acc, s[0]), s.skip(1))
    }
}

/// Left-to-right accumulation over 64-bit values, as `sum32_from`.
pub open spec fn sum64_from(acc: u64, s: Seq<u64>) -> u64
    decreases s.len(),
{
    if s.len() == 0 {
        acc
    } else {
        sum64_from(add64(acc, s[0]), s.skip(1))
    }
}

/// Whether a left-to-right fold from `acc` never hits a NaN case: exactly
/// then every intermediate sum, and so the fold's result, is one fully
/// determined bit pattern.
pub open spec fn fold_clean32(acc: u32, s: Seq<u32>) -> bool
    decreases s.len(),
{
    if s.len() == 0 {
        true
    } else {
        !nan_case32(acc, s[0]) && fold_clean32(add32(acc, s[0]), s.skip(1))
    }
}

/// As `fold_clean32`, over 64-bit values.
pub open spec fn fold_clean64(acc: u64, s: Seq<u64>) -> bool
    decreases s.len(),
{
    if s.len() == 0 {
        true
    } else {
        !nan_case64(acc, s[0]) && fold_clean64(add64(acc, s[0]), s.skip(1))
    }
}

/// Relies on `arrow::compute::kernels::numeric::add`: over two one-value
/// Float32 columns it returns the one-value column of their IEEE-754 sum.
/// Outside the NaN cases that sum is one exact bit pattern; in a NaN case
/// the result is some NaN, whose payload bits are left open.
#[verifier::external_body]
fn f32_add(a: u32, b: u32) -> (r: u32)
    ensures
        !nan_case32(a, b) ==> r == add32(a, b) && !is_nan32(r),
        nan_case32(a, b) ==> is_nan32(r),
{
    let xs = arrow::array::Float32Array::new(
        arrow::buffer::ScalarBuffer::new(arrow::buffer::Buffer::from_slice_ref(&[a]), 0, 1),
        None,
    );
    let ys = arrow::array::Float32Array::new(
        arrow::buffer::ScalarBuffer::new(arrow::buffer::Buffer::from_slice_ref(&[b]), 0, 1),
        None,
    );
    let out = arrow::compute::kernels::numeric::add(&xs, &ys).unwrap();
    let out = out.as_any().downcast_ref::<arrow::array::Float32Array>().unwrap();
    out.value(0).to_bits()
}

/// Relies on `arrow::compute::kernels::numeric::add`: over two one-value
/// Float64 columns, under the same NaN proviso as `f32_add`.
#[verifier::external_body]
pub(crate) fn f64_add(a: u64, b: u64) -> (r: u64)
    ensures
        !nan_case64(a, b) ==> r == add64(a, b) && !is_nan64(r),
        nan_case64(a, b) ==> is_nan64(r),
{
    let xs = arrow::array::Float64Array::new(
        arrow::buffer::ScalarBuffer::new(arrow::buffer::Buffer::from_slice_ref(&[a]), 0, 1),
        None,
    );
    let ys = arrow::array::Float64Array::new(
        arrow::buffer::ScalarBuffer::new(arrow::buffer::Buffer::from_slice_ref(&[b]), 0, 1),
        None,
    );
    let out = arrow::compute::kernels::numeric::add(&xs, &ys).unwrap();
    let out = out.as_any().downcast_ref::<arrow::array::Float64Array>().unwrap();
    out.value(0).to_bits()
}

/// Relies on `arrow::compute::sum` over a Float32 column with no null
/// values: it returns `None` exactly on an empty column.  The kernel groups
/// its accumulation by a lane count fixed at compile time from the target's
/// vector width, so which bit pattern it returns is not a function of the
/// values alone across machines: no value-level claim is stated, and the
/// closeness of this path to the naive one is checked by the tests.
#[verifier::external_body]
fn kernel_sum32(values: &Vec<u32>) -> (r: Option<u32>)
    ensures
        r is Some <==> values@.len() > 0,
{
    let buf = arrow::buffer::Buffer::from_slice_ref(values.as_slice());
    let arr = arrow::array::Float32Array::new(
        arrow::buffer::ScalarBuffer::new(buf, 0, values.len()),
        None,
    );
    arrow::compute::sum(&arr).map(|v| v.to_bits())
}

/// A naive scalar scan: every position `0..len` is visited exactly once, in
/// increasing order, and accumulated left to right starting from the bit
/// pattern of positive zero.  Along a NaN-free fold the result is the exact
/// fold; once a NaN arises it propagates, and the result is some NaN.
pub fn sum_naive32(values: &Vec<u32>) -> (r: u32)
    ensures
        fold_clean32(0u32, values@) ==> r == sum32_from(0u32, values@),
        !fold_clean32(0u32, values@) ==> is_nan32(r),
{
    sum32_continue(0u32, values)
}

/// A naive scalar scan that carries an accumulator in from an earlier batch:
/// every position `0..len` is visited exactly once, in increasing order.
pub fn sum32_continue(start: u32, values: &Vec<u32>) -> (r: u32)
    ensures
        fold_clean32(start, values@) ==> r == sum32_from(start, values@),
        !fold_clean32(start, values@) ==> is_nan32(r),
{
    let mut acc: u32 = start;
    let mut i: usize = 0;
    let ghost mut clean: bool = true;
    proof {
        assert(values@.skip(0) =~= values@);
    }
    while i < values.len()
        invariant
            i <= values@.len(),
            clean ==> sum32_from(acc, values@.skip(i as int)) == sum32_from(start, values@) && (
            fold_clean32(acc, values@.skip(i as int)) <==> fold_clean32(start, values@)),
            !clean ==> is_nan32(acc) && !fold_clean32(start, values@),
        decreases values@.len() - i,
    {
        let ghost prev: u32 = acc;
        proof {
            assert(values@.skip(i as int)[0] == values@[i as int]);
            assert(values@.skip(i as int).skip(1) =~= values@.skip(i as int + 1));
        }
        acc = f32_add(acc, values[i]);
        proof {
            if clean && nan_case32(prev, values@[i as int]) {
                clean = false;
            }
        }
        i = i + 1;
    }
    proof {
        assert(values@.skip(i as int) =~= Seq::<u32>::empty());
    }
    acc
}

/// A naive scalar scan over 64-bit values, as `sum_naive32`.
pub fn sum_naive64(values: &Vec<u64>) -> (r: u64)
    ensures
        fold_clean64(0u64, values@) ==> r == sum64_from(0u64, values@),
        !fold_clean64(0u64, values@) ==> is_nan64(r),
{
    let mut acc: u64 = 0;
    let mut i: usize = 0;
    let ghost mut clean: bool = true;
    proof {
        assert(values@.skip(0) =~= values@);
    }
    while i < values.len()
        invariant
            i <= values@.len(),
            clean ==> sum64_from(acc, values@.skip(i as int)) == sum64_from(0u64, values@) && (
            fold_clean64(acc, values@.skip(i as int)) <==> fold_clean64(0u64, values@)),
            !clean ==> is_nan64(acc) && !fold_clean64(0u64, values@),
        decreases values@.len() - i,
    {
        let ghost prev: u64 = acc;
        proof {
            assert(values@.skip(i as int)[0] == values@[i as int]);
            assert(values@.skip(i as int).skip(1) =~= values@.skip(i as int + 1));
        }
        acc = f64_add(acc, values[i]);
        proof {
            if clean && nan_case64(prev, values@[i as int]) {
                clean = false;
            }
        }
        i = i + 1;
    }
    proof {
        assert(values@.skip(i as int) =~= Seq::<u64>::empty());
    }
    acc
}

/// The bulk-reduction path over a column: arrow's vectorized kernel on a
/// non-empty column, the bit pattern of positive zero on an empty one.  The
/// kernel's reduction order is the build's, so the non-empty value is not
/// pinned here; the tests hold it close to the naive path.
pub fn sum_vectorized(values: &Vec<u32>) -> (r: u32)
    ensures
        values@.len() == 0 ==> r == 0u32,
{
    match kernel_sum32(values) {
        Some(bits) => bits,
        None => 0u32,
    }
}

/// Accumulation is insensitive to where a column is cut: folding a
/// concatenation left to right equals folding the first part and carrying
/// its result into the second part.  Batch boundaries therefore cannot
/// change a naive scan's total.
pub proof fn lemma_sum32_concat(acc: u32, s1: Seq<u32>, s2: Seq<u32>)
    ensures
        sum32_from(acc, s1 + s2) == sum32_from(sum32_from(acc, s1), s2),
    decreases s1.len(),
{
    if s1.len() == 0 {
        assert(s1 + s2 =~= s2);
    } else {
        assert((s1 + s2)[0] == s1[0]);
        assert((s1 + s2).skip(1) =~= s1.skip(1) + s2);
        lemma_sum32_concat(add32(acc, s1[0]), s1.skip(1), s2);
    }
}

/// NaN-freedom splits across a concatenation exactly as the fold does: the
/// whole fold is NaN-free if and only if the first part's fold is and the
/// second part's fold, carried on from the first part's result, is too.
pub proof fn lemma_fold_clean32_concat(acc: u32, s1: Seq<u32>, s2: Seq<u32>)
    ensures
        fold_clean32(acc, s1 + s2) <==> (fold_clean32(acc, s1) && fold_clean32(
            sum32_from(acc, s1),
            s2,
        )),
    decreases s1.len(),
{
    if s1.len() == 0 {
        assert(s1 + s2 =~= s2);
    } else {
        assert((s1 + s2)[0] == s1[0]);
        assert((s1 + s2).skip(1) =~= s1.skip(1) + s2);
        lemma_fold_clean32_concat(add32(acc, s1[0]), s1.skip(1), s2);
    }
}

} // verus!
