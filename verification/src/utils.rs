//! Reductions over state vectors: dot products and squared norms, each
//! specified as the exact left-to-right fold of rounded binary64 operations
//! that the loop performs.

use vstd::prelude::*;

use crate::fp::{add_bits, mul_bits, sub_bits, fadd, fmul, fsub, ZERO_BITS};

verus! {

/// The running sum of `a[i] * b[i]` over the first `n` entries, accumulated
/// left to right from zero with binary64 rounding at every operation.
pub open spec fn dot_prefix(a: Seq<u64>, b: Seq<u64>, n: nat) -> u64
    decreases n,
{
    if n == 0 {
        ZERO_BITS
    } else {
        add_bits(
            dot_prefix(a, b, (n - 1) as nat),
            mul_bits(a[n - 1], b[n - 1]),
        )
    }
}

/// The rounded dot product of two equally long vectors.
pub open spec fn dot_bits(a: Seq<u64>, b: Seq<u64>) -> u64 {
    dot_prefix(a, b, a.len())
}

/// The running sum of `(a[i] - b[i])^2` over the first `n` entries,
/// accumulated left to right from zero with binary64 rounding at every
/// operation.
pub open spec fn diff2_prefix(a: Seq<u64>, b: Seq<u64>, n: nat) -> u64
    decreases n,
{
    if n == 0 {
        ZERO_BITS
    } else {
        add_bits(
            diff2_prefix(a, b, (n - 1) as nat),
            mul_bits(sub_bits(a[n - 1], b[n - 1]), sub_bits(a[n - 1], b[n - 1])),
        )
    }
}

/// The rounded squared distance of two equally long vectors.
pub open spec fn diff_norm2_bits(a: Seq<u64>, b: Seq<u64>) -> u64 {
    diff2_prefix(a, b, a.len())
}

/// The dot product of `a` and `b`: the left-to-right rounded fold of
/// `s + a[i] * b[i]` starting from zero.
#[verifier::loop_isolation(false)]
pub fn dot(a: &Vec<u64>, b: &Vec<u64>) -> (s: u64)
    requires
        a@.len() == b@.len(),
    ensures
        s == dot_bits(a@, b@),
{
    let mut s = ZERO_BITS;
    let mut i: usize = 0;
    while i < a.len()
        invariant
            i <= a@.len(),
            s == dot_prefix(a@, b@, i as nat),
        decreases a@.len() - i,
    {
        s = fadd(s, fmul(a[i], b[i]));
        i += 1;
    }
    s
}

/// The squared Euclidean norm of `a`: its dot product with itself.
#[verifier::loop_isolation(false)]
pub fn norm2(a: &Vec<u64>) -> (s: u64)
    ensures
        s == dot_bits(a@, a@),
{
    let mut s = ZERO_BITS;
    let mut i: usize = 0;
    while i < a.len()
        invariant
            i <= a@.len(),
            s == dot_prefix(a@, a@, i as nat),
        decreases a@.len() - i,
    {
        s = fadd(s, fmul(a[i], a[i]));
        i += 1;
    }
    s
}

/// The squared Euclidean distance between `a` and `b`: the left-to-right
/// rounded fold of `s + (a[i] - b[i])^2` starting from zero.
#[verifier::loop_isolation(false)]
pub fn diff_norm2(a: &Vec<u64>, b: &Vec<u64>) -> (s: u64)
    requires
        a@.len() == b@.len(),
    ensures
        s == diff_norm2_bits(a@, b@),
{
    let mut s = ZERO_BITS;
    let mut i: usize = 0;
    while i < a.len()
        invariant
            i <= a@.len(),
            s == diff2_prefix(a@, b@, i as nat),
        decreases a@.len() - i,
    {
        let d = fsub(a[i], b[i]);
        s = fadd(s, fmul(d, d));
        i += 1;
    }
    s
}

} // verus!
