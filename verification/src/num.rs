//! IEEE-754 double precision numbers, carried as their 64-bit patterns.
//!
//! The language's numeric values are 64-bit floats. Verified code holds
//! them as raw bit patterns (`u64`); the operations that need real float
//! arithmetic go through trusted wrappers, whose results are named by
//! uninterpreted spec functions: the same bits in always give the same
//! bits out. Arithmetic runs on `const_soft_float::soft_f64::SoftF64`'s
//! software IEEE routines, which are pure functions of the operand bits —
//! hardware float instructions leave the bit pattern of a NaN result
//! unspecified, so they could not honour that determinism claim.
//! Comparisons and parsing use the standard operations, whose results
//! are fully determined; bit patterns enter and leave the float world
//! through `SoftF64`'s `from_bits`/`to_f64`/`from_f64`/`to_bits`, which
//! are plain reinterpretations of the 64 bits.

use vstd::prelude::*;

verus! {

/// The bits that `str::parse` to a 64-bit float yields for this text,
/// or `None` when the text is not a well-formed float literal.
pub uninterp spec fn fp_parse(s: Seq<char>) -> Option<u64>;

/// The bit pattern of the software IEEE sum of the numbers with these
/// bit patterns.
pub uninterp spec fn fp_add(a: u64, b: u64) -> u64;

/// The bit pattern of the software IEEE difference of the numbers with
/// these bit patterns.
pub uninterp spec fn fp_sub(a: u64, b: u64) -> u64;

/// The bit pattern of the software IEEE product of the numbers with
/// these bit patterns.
pub uninterp spec fn fp_mul(a: u64, b: u64) -> u64;

/// The bit pattern of the software IEEE quotient of the numbers with
/// these bit patterns.
pub uninterp spec fn fp_div(a: u64, b: u64) -> u64;

/// The IEEE `>=` comparison of the numbers with these bit patterns.
pub uninterp spec fn fp_ge(a: u64, b: u64) -> bool;

/// The IEEE `<=` comparison of the numbers with these bit patterns.
pub uninterp spec fn fp_le(a: u64, b: u64) -> bool;

/// The bit pattern of the number with these bits truncated toward zero.
pub uninterp spec fn fp_ftrunc(a: u64) -> u64;

/// The saturating cast to `i64` of the number with these bits.
pub uninterp spec fn fp_trunc(a: u64) -> i64;

/// The bit pattern of the float nearest to this unsigned integer.
pub uninterp spec fn fp_of_u64(n: u64) -> u64;

/// The bit pattern of the float nearest to this signed integer.
pub uninterp spec fn fp_of_i64(n: i64) -> u64;

/// Relies on `str::parse` for 64-bit floats: the result is a function of
/// the text alone, and parsing never panics.
#[verifier::external_body]
pub fn parse_number(s: &str) -> (r: Option<u64>)
    ensures
        r == fp_parse(s@),
{
    match s.parse() {
        Ok(v) => Some(const_soft_float::soft_f64::SoftF64::from_f64(v).to_bits()),
        Err(_) => None,
    }
}

/// Relies on `SoftF64::add`, a software IEEE addition: a pure function
/// of the operand bits, with no panic.
#[verifier::external_body]
pub fn num_add(a: u64, b: u64) -> (r: u64)
    ensures
        r == fp_add(a, b),
{
    let x = const_soft_float::soft_f64::SoftF64::from_bits(a);
    let y = const_soft_float::soft_f64::SoftF64::from_bits(b);
    x.add(y).to_bits()
}

/// Relies on `SoftF64::sub`, a software IEEE subtraction: a pure
/// function of the operand bits, with no panic.
#[verifier::external_body]
pub fn num_sub(a: u64, b: u64) -> (r: u64)
    ensures
        r == fp_sub(a, b),
{
    let x = const_soft_float::soft_f64::SoftF64::from_bits(a);
    let y = const_soft_float::soft_f64::SoftF64::from_bits(b);
    x.sub(y).to_bits()
}

/// Relies on `SoftF64::mul`, a software IEEE multiplication: a pure
/// function of the operand bits, with no panic.
#[verifier::external_body]
pub fn num_mul(a: u64, b: u64) -> (r: u64)
    ensures
        r == fp_mul(a, b),
{
    let x = const_soft_float::soft_f64::SoftF64::from_bits(a);
    let y = const_soft_float::soft_f64::SoftF64::from_bits(b);
    x.mul(y).to_bits()
}

/// Relies on `SoftF64::div`, a software IEEE division: a pure function
/// of the operand bits, with no panic — division by zero yields an
/// infinity or a NaN, as IEEE prescribes.
#[verifier::external_body]
pub fn num_div(a: u64, b: u64) -> (r: u64)
    ensures
        r == fp_div(a, b),
{
    let x = const_soft_float::soft_f64::SoftF64::from_bits(a);
    let y = const_soft_float::soft_f64::SoftF64::from_bits(b);
    x.div(y).to_bits()
}

/// Relies on the standard float `>=`, reached through `SoftF64`'s
/// bit reinterpretations.
#[verifier::external_body]
pub fn num_ge(a: u64, b: u64) -> (r: bool)
    ensures
        r == fp_ge(a, b),
{
    let x = const_soft_float::soft_f64::SoftF64::from_bits(a).to_f64();
    let y = const_soft_float::soft_f64::SoftF64::from_bits(b).to_f64();
    x >= y
}

/// Relies on the standard float `<=`, reached through `SoftF64`'s
/// bit reinterpretations.
#[verifier::external_body]
pub fn num_le(a: u64, b: u64) -> (r: bool)
    ensures
        r == fp_le(a, b),
{
    let x = const_soft_float::soft_f64::SoftF64::from_bits(a).to_f64();
    let y = const_soft_float::soft_f64::SoftF64::from_bits(b).to_f64();
    x <= y
}

/// Relies on `SoftF64::trunc`, a software IEEE truncation toward zero:
/// a pure function of the bits, with no panic.
#[verifier::external_body]
pub fn num_ftrunc(a: u64) -> (r: u64)
    ensures
        r == fp_ftrunc(a),
{
    const_soft_float::soft_f64::SoftF64::from_bits(a).trunc().to_bits()
}

/// The bit pattern of the fractional part of the number with these bits:
/// the number minus its truncation toward zero, which is how the
/// standard library defines `fract`.
pub open spec fn spec_fract(a: u64) -> u64 {
    fp_sub(a, fp_ftrunc(a))
}

/// The fractional part of the number with these bits.
pub fn num_fract(a: u64) -> (r: u64)
    ensures
        r == spec_fract(a),
{
    num_sub(a, num_ftrunc(a))
}

/// Relies on the standard saturating float-to-`i64` cast, reached through
/// `SoftF64`'s bit reinterpretation. The cast never panics.
#[verifier::external_body]
pub fn num_trunc(a: u64) -> (r: i64)
    ensures
        r == fp_trunc(a),
{
    let x = const_soft_float::soft_f64::SoftF64::from_bits(a).to_f64();
    x as i64
}

/// Relies on `serde_json::Number::as_f64`, which for a number built from a
/// `u64` is the standard integer-to-float cast and always returns a value.
#[verifier::external_body]
pub fn num_of_u64(n: u64) -> (r: u64)
    ensures
        r == fp_of_u64(n),
{
    match serde_json::Number::from(n).as_f64() {
        Some(x) => const_soft_float::soft_f64::SoftF64::from_f64(x).to_bits(),
        None => 0,
    }
}

/// Relies on `serde_json::Number::as_f64`, which for a number built from an
/// `i64` is the standard integer-to-float cast and always returns a value.
#[verifier::external_body]
pub fn num_of_i64(n: i64) -> (r: u64)
    ensures
        r == fp_of_i64(n),
{
    match serde_json::Number::from(n).as_f64() {
        Some(x) => const_soft_float::soft_f64::SoftF64::from_f64(x).to_bits(),
        None => 0,
    }
}

/// The bit pattern of the 64-bit float `100.0`: sign 0, exponent
/// `1023 + 6 = 0x405`, mantissa `0.5625 * 2^52 = 0x9_0000_0000_0000`.
pub const HUNDRED_BITS: u64 = 0x4059_0000_0000_0000;

/// Whether this bit pattern is an IEEE zero (positive or negative):
/// exactly the patterns that compare equal to `0.0`.
pub open spec fn spec_is_zero(bits: u64) -> bool {
    bits & 0x7fff_ffff_ffff_ffff == 0
}

/// Whether these bits hold an IEEE zero, matching a float compare with zero.
pub fn is_zero(bits: u64) -> (r: bool)
    ensures
        r == spec_is_zero(bits),
{
    bits & 0x7fff_ffff_ffff_ffff == 0
}

/// Whether this bit pattern is finite: neither an infinity nor a NaN.
pub open spec fn spec_is_finite(bits: u64) -> bool {
    bits & 0x7ff0_0000_0000_0000 != 0x7ff0_0000_0000_0000
}

/// Whether these bits hold a finite number (the exponent field is not
/// all ones, which would mean an infinity or a NaN).
pub fn is_finite(bits: u64) -> (r: bool)
    ensures
        r == spec_is_finite(bits),
{
    bits & 0x7ff0_0000_0000_0000 != 0x7ff0_0000_0000_0000
}

} // verus!
