//! Scalar arithmetic for the integrators.
//!
//! Every scalar handled by this crate is an IEEE-754 binary64 value carried
//! as its 64-bit pattern, so that the stepping algebra can be stated and
//! verified exactly, operation by operation.  The four rounded operations
//! and the ordering are performed by a soft-float crate that computes on
//! bit patterns; each result is a pure function of the operand bits alone,
//! so it is given a name that the contracts of the whole crate share.
//! Negation and the scalar constants need no outside help: negating a
//! binary64 value is exactly a flip of its sign bit.

use rustc_apfloat::Float;
use vstd::prelude::*;

verus! {

/// Bit pattern of the binary64 value 0.0.
pub const ZERO_BITS: u64 = 0;

/// Bit pattern of the binary64 value 2.0.
pub const TWO_BITS: u64 = 0x4000_0000_0000_0000;

/// Bit pattern of the binary64 value 6.0.
pub const SIX_BITS: u64 = 0x4018_0000_0000_0000;

/// Bit pattern of the binary64 value -2.0.
pub const NEG_TWO_BITS: u64 = 0xC000_0000_0000_0000;

/// Mask of the binary64 sign bit.
pub const SIGN_MASK: u64 = 0x8000_0000_0000_0000;

/// The bit pattern of the rounded (nearest-even) binary64 sum of the two
/// scalars encoded by `a` and `b`.
pub uninterp spec fn add_bits(a: u64, b: u64) -> u64;

/// The bit pattern of the rounded binary64 difference `a - b`.
pub uninterp spec fn sub_bits(a: u64, b: u64) -> u64;

/// The bit pattern of the rounded binary64 product of `a` and `b`.
pub uninterp spec fn mul_bits(a: u64, b: u64) -> u64;

/// The bit pattern of the rounded binary64 quotient `a / b`.
pub uninterp spec fn div_bits(a: u64, b: u64) -> u64;

/// Whether the scalar encoded by `a` compares IEEE-less-than the scalar
/// encoded by `b` (false whenever either operand is a NaN).
pub uninterp spec fn lt_bits(a: u64, b: u64) -> bool;

/// Negating a binary64 value flips its sign bit and nothing else.
pub open spec fn neg_bits(a: u64) -> u64 {
    a ^ SIGN_MASK
}

/// The exponent field of a binary64 bit pattern: bits 62 down to 52.
pub open spec fn exp_bits(a: u64) -> u64 {
    (a / 0x0010_0000_0000_0000) % 0x800
}

/// Whether `a` encodes a finite value: the exponent field is not all ones
/// (all ones encodes an infinity or a NaN).
pub open spec fn is_finite_bits(a: u64) -> bool {
    exp_bits(a) != 0x7FF
}

/// Whether `a` encodes a NaN: exponent field all ones and a nonzero
/// significand field.
pub open spec fn is_nan_bits(a: u64) -> bool {
    exp_bits(a) == 0x7FF && a % 0x0010_0000_0000_0000 != 0
}

/// Whether `a` encodes a zero of either sign.
pub open spec fn is_zero_bits(a: u64) -> bool {
    a == ZERO_BITS || a == SIGN_MASK
}

/// The zero that carries the sign of `a` (the sign bit is set exactly on
/// the patterns at or above `SIGN_MASK`).
pub open spec fn sign_zero_of(a: u64) -> u64 {
    if a >= SIGN_MASK {
        SIGN_MASK
    } else {
        ZERO_BITS
    }
}

/// Scalars that adding a zero provably hands back unchanged: anything but
/// a NaN or the negative zero.
pub open spec fn zero_add_ok(a: u64) -> bool {
    !is_nan_bits(a) && a != SIGN_MASK
}

/// Every scalar of the sequence withstands adding a zero.
pub open spec fn seq_zero_add_ok(s: Seq<u64>) -> bool {
    forall|i: int| 0 <= i < s.len() ==> zero_add_ok(s[i])
}

/// Every scalar of the sequence is finite.
pub open spec fn seq_finite(s: Seq<u64>) -> bool {
    forall|i: int| 0 <= i < s.len() ==> is_finite_bits(s[i])
}

/// Relies on `rustc_apfloat::ieee::Double`'s `Add` impl: IEEE-754 binary64
/// addition of the operand bit patterns, rounded to nearest-even.  The
/// second clause is the zero-operand arm of that addition, which hands the
/// left operand back unchanged whenever the right one is a zero, except on
/// a NaN and on `-0.0 + 0.0` (which gives `+0.0`).
#[verifier::external_body]
pub fn fadd(a: u64, b: u64) -> (r: u64)
    ensures
        r == add_bits(a, b),
        is_zero_bits(b) && zero_add_ok(a) ==> r == a,
{
    let x = rustc_apfloat::ieee::Double::from_bits(a as u128);
    let y = rustc_apfloat::ieee::Double::from_bits(b as u128);
    (x + y).value.to_bits() as u64
}

/// Relies on `rustc_apfloat::ieee::Double`'s `Sub` impl: IEEE-754 binary64
/// subtraction of the operand bit patterns, rounded to nearest-even.
#[verifier::external_body]
pub fn fsub(a: u64, b: u64) -> (r: u64)
    ensures
        r == sub_bits(a, b),
{
    let x = rustc_apfloat::ieee::Double::from_bits(a as u128);
    let y = rustc_apfloat::ieee::Double::from_bits(b as u128);
    (x - y).value.to_bits() as u64
}

/// Relies on `rustc_apfloat::ieee::Double`'s `Mul` impl: IEEE-754 binary64
/// multiplication of the operand bit patterns, rounded to nearest-even.
/// The second clause is the zero-operand arm of that multiplication: a
/// finite value times `+0.0` is the zero with the value's sign.
#[verifier::external_body]
pub fn fmul(a: u64, b: u64) -> (r: u64)
    ensures
        r == mul_bits(a, b),
        b == ZERO_BITS && is_finite_bits(a) ==> r == sign_zero_of(a),
{
    let x = rustc_apfloat::ieee::Double::from_bits(a as u128);
    let y = rustc_apfloat::ieee::Double::from_bits(b as u128);
    (x * y).value.to_bits() as u64
}

/// Relies on `rustc_apfloat::ieee::Double`'s `Div` impl: IEEE-754 binary64
/// division of the operand bit patterns, rounded to nearest-even.  The
/// second clause is the zero-dividend arm of that division: `+0.0` divided
/// by anything positive that is neither zero nor NaN is `+0.0` again.
#[verifier::external_body]
pub fn fdiv(a: u64, b: u64) -> (r: u64)
    ensures
        r == div_bits(a, b),
        a == ZERO_BITS && !is_zero_bits(b) && !is_nan_bits(b) && b < SIGN_MASK ==> r
            == ZERO_BITS,
{
    let x = rustc_apfloat::ieee::Double::from_bits(a as u128);
    let y = rustc_apfloat::ieee::Double::from_bits(b as u128);
    (x / y).value.to_bits() as u64
}

/// Relies on `rustc_apfloat::ieee::Double`'s `PartialOrd` impl: the IEEE
/// less-than comparison of the operand bit patterns, false on NaN.
#[verifier::external_body]
pub fn flt(a: u64, b: u64) -> (r: bool)
    ensures
        r == lt_bits(a, b),
{
    let x = rustc_apfloat::ieee::Double::from_bits(a as u128);
    let y = rustc_apfloat::ieee::Double::from_bits(b as u128);
    x < y
}

/// IEEE-754 binary64 negation: flip the sign bit.
pub fn fneg(a: u64) -> (r: u64)
    ensures
        r == neg_bits(a),
{
    a ^ SIGN_MASK
}

} // verus!
