//! Example equations of motion.
//!
//! The engine itself is model-agnostic; these small models implement the
//! `Eom` capability so the steppers and drivers can be exercised end to
//! end.  All scalars are binary64 bit patterns, as everywhere in this
//! crate.

use vstd::prelude::*;

use crate::eom::Eom;
use crate::fp::{
    add_bits, div_bits, mul_bits, neg_bits, fadd, fdiv, fmul, fneg, NEG_TWO_BITS, ZERO_BITS,
};

verus! {

/// Copy a vector of scalars.
pub fn copy_vec(src: &Vec<u64>) -> (r: Vec<u64>)
    ensures
        r@ == src@,
{
    let mut r: Vec<u64> = Vec::new();
    let mut i: usize = 0;
    while i < src.len()
        invariant
            i <= src@.len(),
            r@ == src@.subrange(0, i as int),
        decreases src@.len() - i,
    {
        r.push(src[i]);
        i += 1;
    }
    assert(r@ =~= src@);
    r
}

/// A bank of independent damped harmonic oscillators, one per coordinate:
/// the acceleration of coordinate `i` is
/// `-2 * zeta[i] * omega0[i] * v[i] - omega0[i]^2 * x[i]`,
/// evaluated left to right with binary64 rounding at every operation.
/// There is no constraint, so the post-step correction leaves the state
/// unchanged.
pub struct Oscillator {
    /// Damping ratio of each coordinate.
    pub zeta: Vec<u64>,
    /// Natural angular frequency of each coordinate.
    pub omega0: Vec<u64>,
    /// Initial positions.
    pub x0: Vec<u64>,
    /// Initial velocities.
    pub v0: Vec<u64>,
}

impl Oscillator {
    /// The damping ratios of `new`, as bit patterns: 0, 0.5, 1, 0.8, 1.5, 0.1.
    pub open spec fn default_zeta() -> Seq<u64> {
        seq![
            ZERO_BITS,
            0x3FE0_0000_0000_0000,
            0x3FF0_0000_0000_0000,
            0x3FE9_9999_9999_999A,
            0x3FF8_0000_0000_0000,
            0x3FB9_9999_9999_999A,
        ]
    }

    /// The natural frequencies of `new`: 0.25, 0.5, 1, 0.75, 1.25, 0.25.
    pub open spec fn default_omega0() -> Seq<u64> {
        seq![
            0x3FD0_0000_0000_0000,
            0x3FE0_0000_0000_0000,
            0x3FF0_0000_0000_0000,
            0x3FE8_0000_0000_0000,
            0x3FF4_0000_0000_0000,
            0x3FD0_0000_0000_0000,
        ]
    }

    /// The initial positions of `new`: 1, 2, 1.5, -1, -0.5, 0.
    pub open spec fn default_x0() -> Seq<u64> {
        seq![
            0x3FF0_0000_0000_0000,
            0x4000_0000_0000_0000,
            0x3FF8_0000_0000_0000,
            0xBFF0_0000_0000_0000,
            0xBFE0_0000_0000_0000,
            ZERO_BITS,
        ]
    }

    /// The initial velocities of `new`: 0, 1, -2, 0.5, 1.5, 0.
    pub open spec fn default_v0() -> Seq<u64> {
        seq![
            ZERO_BITS,
            0x3FF0_0000_0000_0000,
            0xC000_0000_0000_0000,
            0x3FE0_0000_0000_0000,
            0x3FF8_0000_0000_0000,
            ZERO_BITS,
        ]
    }

    /// The six-oscillator bank the integration suite studies: damping
    /// ratios 0, 0.5, 1, 0.8, 1.5, 0.1 and natural frequencies 0.25, 0.5,
    /// 1, 0.75, 1.25, 0.25, started at mixed positions and velocities.
    pub fn new() -> (r: Oscillator)
        ensures
            r.wf(),
            r.dim() == 6,
            r.zeta@ == Oscillator::default_zeta(),
            r.omega0@ == Oscillator::default_omega0(),
            r.x0@ == Oscillator::default_x0(),
            r.v0@ == Oscillator::default_v0(),
    {
        let mut zeta: Vec<u64> = Vec::new();
        zeta.push(ZERO_BITS);
        zeta.push(0x3FE0_0000_0000_0000);
        zeta.push(0x3FF0_0000_0000_0000);
        zeta.push(0x3FE9_9999_9999_999A);
        zeta.push(0x3FF8_0000_0000_0000);
        zeta.push(0x3FB9_9999_9999_999A);
        let mut omega0: Vec<u64> = Vec::new();
        omega0.push(0x3FD0_0000_0000_0000);
        omega0.push(0x3FE0_0000_0000_0000);
        omega0.push(0x3FF0_0000_0000_0000);
        omega0.push(0x3FE8_0000_0000_0000);
        omega0.push(0x3FF4_0000_0000_0000);
        omega0.push(0x3FD0_0000_0000_0000);
        let mut x0: Vec<u64> = Vec::new();
        x0.push(0x3FF0_0000_0000_0000);
        x0.push(0x4000_0000_0000_0000);
        x0.push(0x3FF8_0000_0000_0000);
        x0.push(0xBFF0_0000_0000_0000);
        x0.push(0xBFE0_0000_0000_0000);
        x0.push(ZERO_BITS);
        let mut v0: Vec<u64> = Vec::new();
        v0.push(ZERO_BITS);
        v0.push(0x3FF0_0000_0000_0000);
        v0.push(0xC000_0000_0000_0000);
        v0.push(0x3FE0_0000_0000_0000);
        v0.push(0x3FF8_0000_0000_0000);
        v0.push(ZERO_BITS);
        let r = Oscillator { zeta, omega0, x0, v0 };
        proof {
            assert(r.zeta@ =~= Oscillator::default_zeta());
            assert(r.omega0@ =~= Oscillator::default_omega0());
            assert(r.x0@ =~= Oscillator::default_x0());
            assert(r.v0@ =~= Oscillator::default_v0());
        }
        r
    }

    /// The initial state the model was constructed with, as a fresh pair of
    /// position and velocity vectors.
    pub fn init_state(&self) -> (r: (Vec<u64>, Vec<u64>))
        ensures
            r.0@ == self.x0@,
            r.1@ == self.v0@,
    {
        (copy_vec(&self.x0), copy_vec(&self.v0))
    }
}

impl Eom for Oscillator {
    open spec fn wf(&self) -> bool {
        &&& self.omega0@.len() == self.zeta@.len()
        &&& self.x0@.len() == self.zeta@.len()
        &&& self.v0@.len() == self.zeta@.len()
    }

    open spec fn dim(&self) -> nat {
        self.zeta@.len()
    }

    open spec fn accel(&self, t: u64, x: Seq<u64>, v: Seq<u64>) -> Seq<u64> {
        Seq::new(
            self.zeta@.len(),
            |i: int|
                add_bits(
                    mul_bits(
                        mul_bits(mul_bits(NEG_TWO_BITS, self.zeta@[i]), self.omega0@[i]),
                        v[i],
                    ),
                    mul_bits(mul_bits(neg_bits(self.omega0@[i]), self.omega0@[i]), x[i]),
                ),
        )
    }

    open spec fn corrected_x(&self, t: u64, x: Seq<u64>, v: Seq<u64>) -> Seq<u64> {
        x
    }

    open spec fn corrected_v(&self, t: u64, x: Seq<u64>, v: Seq<u64>) -> Seq<u64> {
        v
    }

    proof fn lemma_accel_len(&self, t: u64, x: Seq<u64>, v: Seq<u64>) {
    }

    proof fn lemma_corrected_len(&self, t: u64, x: Seq<u64>, v: Seq<u64>) {
    }

    proof fn lemma_correct_idempotent(&self, t: u64, x: Seq<u64>, v: Seq<u64>) {
    }

    fn dimension(&self) -> (d: usize) {
        self.zeta.len()
    }

    fn acceleration(&self, t: u64, x: &Vec<u64>, v: &Vec<u64>, a: &mut Vec<u64>) {
        let n = self.zeta.len();
        let mut i: usize = 0;
        while i < n
            invariant
                i <= n,
                n == self.zeta@.len(),
                self.wf(),
                x@.len() == n,
                v@.len() == n,
                a@.len() == n,
                forall|j: int|
                    0 <= j < i ==> a@[j] == add_bits(
                        mul_bits(
                            mul_bits(mul_bits(NEG_TWO_BITS, self.zeta@[j]), self.omega0@[j]),
                            v@[j],
                        ),
                        mul_bits(mul_bits(neg_bits(self.omega0@[j]), self.omega0@[j]), x@[j]),
                    ),
            decreases n - i,
        {
            let damp = fmul(fmul(fmul(NEG_TWO_BITS, self.zeta[i]), self.omega0[i]), v[i]);
            let spring = fmul(fmul(fneg(self.omega0[i]), self.omega0[i]), x[i]);
            let e = fadd(damp, spring);
            a.set(i, e);
            i += 1;
        }
        assert(a@ =~= self.accel(t, x@, v@));
    }

    fn correct(&self, t: u64, x: &mut Vec<u64>, v: &mut Vec<u64>) {
    }
}

/// A bank of identical undamped harmonic oscillators: the acceleration of
/// every coordinate is `-(k / m) * x[i]`, with stiffness `k` and mass `m`
/// shared by all coordinates and each operation rounded as in binary64.
/// There is no constraint, so the post-step correction leaves the state
/// unchanged.
pub struct Harmonic {
    /// Stiffness.
    pub k: u64,
    /// Mass.
    pub m: u64,
    /// Number of coordinates.
    pub n: usize,
}

impl Harmonic {
    /// An undamped oscillator bank with stiffness `k`, mass `m` and `n`
    /// coordinates.
    pub fn new(k: u64, m: u64, n: usize) -> (r: Harmonic)
        ensures
            r.wf(),
            r.dim() == n,
            r.k == k,
            r.m == m,
    {
        Harmonic { k, m, n }
    }
}

impl Eom for Harmonic {
    open spec fn wf(&self) -> bool {
        true
    }

    open spec fn dim(&self) -> nat {
        self.n as nat
    }

    open spec fn accel(&self, t: u64, x: Seq<u64>, v: Seq<u64>) -> Seq<u64> {
        Seq::new(self.n as nat, |i: int| mul_bits(neg_bits(div_bits(self.k, self.m)), x[i]))
    }

    open spec fn corrected_x(&self, t: u64, x: Seq<u64>, v: Seq<u64>) -> Seq<u64> {
        x
    }

    open spec fn corrected_v(&self, t: u64, x: Seq<u64>, v: Seq<u64>) -> Seq<u64> {
        v
    }

    proof fn lemma_accel_len(&self, t: u64, x: Seq<u64>, v: Seq<u64>) {
    }

    proof fn lemma_corrected_len(&self, t: u64, x: Seq<u64>, v: Seq<u64>) {
    }

    proof fn lemma_correct_idempotent(&self, t: u64, x: Seq<u64>, v: Seq<u64>) {
    }

    fn dimension(&self) -> (d: usize) {
        self.n
    }

    fn acceleration(&self, t: u64, x: &Vec<u64>, v: &Vec<u64>, a: &mut Vec<u64>) {
        let c = fneg(fdiv(self.k, self.m));
        let n = self.n;
        let mut i: usize = 0;
        while i < n
            invariant
                i <= n,
                n == self.dim(),
                x@.len() == n,
                a@.len() == n,
                c == neg_bits(div_bits(self.k, self.m)),
                forall|j: int|
                    0 <= j < i ==> a@[j] == mul_bits(neg_bits(div_bits(self.k, self.m)), x@[j]),
            decreases n - i,
        {
            let e = fmul(c, x[i]);
            a.set(i, e);
            i += 1;
        }
        assert(a@ =~= self.accel(t, x@, v@));
    }

    fn correct(&self, t: u64, x: &mut Vec<u64>, v: &mut Vec<u64>) {
    }
}

/// A harmonic bank whose first coordinate is anchored: the dynamics are
/// those of `Harmonic`, and the model constraint holds coordinate 0 at the
/// fixed position `pin` with zero velocity.  The post-step correction
/// projects the state back onto that constraint by overwriting coordinate 0;
/// a state already on the constraint is left exactly as it is, which makes
/// the correction idempotent.
pub struct Anchored {
    /// Stiffness.
    pub k: u64,
    /// Mass.
    pub m: u64,
    /// Number of coordinates.
    pub n: usize,
    /// The anchored position of coordinate 0.
    pub pin: u64,
}

impl Anchored {
    /// An anchored oscillator bank; `n` must be at least 1 so that the
    /// anchored coordinate exists.
    pub fn new(k: u64, m: u64, n: usize, pin: u64) -> (r: Anchored)
        requires
            n >= 1,
        ensures
            r.wf(),
            r.dim() == n,
            r.k == k,
            r.m == m,
            r.pin == pin,
    {
        Anchored { k, m, n, pin }
    }
}

impl Eom for Anchored {
    open spec fn wf(&self) -> bool {
        self.n >= 1
    }

    open spec fn dim(&self) -> nat {
        self.n as nat
    }

    open spec fn accel(&self, t: u64, x: Seq<u64>, v: Seq<u64>) -> Seq<u64> {
        Seq::new(self.n as nat, |i: int| mul_bits(neg_bits(div_bits(self.k, self.m)), x[i]))
    }

    open spec fn corrected_x(&self, t: u64, x: Seq<u64>, v: Seq<u64>) -> Seq<u64> {
        x.update(0, self.pin)
    }

    open spec fn corrected_v(&self, t: u64, x: Seq<u64>, v: Seq<u64>) -> Seq<u64> {
        v.update(0, ZERO_BITS)
    }

    proof fn lemma_accel_len(&self, t: u64, x: Seq<u64>, v: Seq<u64>) {
    }

    proof fn lemma_corrected_len(&self, t: u64, x: Seq<u64>, v: Seq<u64>) {
    }

    proof fn lemma_correct_idempotent(&self, t: u64, x: Seq<u64>, v: Seq<u64>) {
        assert(x.update(0, self.pin).update(0, self.pin) =~= x.update(0, self.pin));
        assert(v.update(0, ZERO_BITS).update(0, ZERO_BITS) =~= v.update(0, ZERO_BITS));
    }

    fn dimension(&self) -> (d: usize) {
        self.n
    }

    fn acceleration(&self, t: u64, x: &Vec<u64>, v: &Vec<u64>, a: &mut Vec<u64>) {
        let c = fneg(fdiv(self.k, self.m));
        let n = self.n;
        let mut i: usize = 0;
        while i < n
            invariant
                i <= n,
                n == self.dim(),
                x@.len() == n,
                a@.len() == n,
                c == neg_bits(div_bits(self.k, self.m)),
                forall|j: int|
                    0 <= j < i ==> a@[j] == mul_bits(neg_bits(div_bits(self.k, self.m)), x@[j]),
            decreases n - i,
        {
            let e = fmul(c, x[i]);
            a.set(i, e);
            i += 1;
        }
        assert(a@ =~= self.accel(t, x@, v@));
    }

    fn correct(&self, t: u64, x: &mut Vec<u64>, v: &mut Vec<u64>) {
        x.set(0, self.pin);
        v.set(0, ZERO_BITS);
    }
}

} // verus!
