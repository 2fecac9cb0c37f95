//! The steppers: one `step` advances time, position and velocity in place by
//! a single fixed increment `dt`.
//!
//! Three explicit schemes are provided: the symplectic-style Euler scheme
//! (one acceleration evaluation per step, position advanced with the
//! pre-step velocity), the midpoint scheme (two evaluations, position
//! advanced with the midpoint velocity), and the classical fourth-order
//! Runge-Kutta scheme (four evaluations, Simpson-like 1,2,2,1 weights).
//! Each stepper owns scratch buffers sized once at construction, so a step
//! allocates nothing; every scratch element is fully overwritten on every
//! step, and the contract of `step` pins the new state as a function of the
//! model, time, state and `dt` alone, so no residue of an earlier call can
//! ever reach a later one.  A step of size zero provably hands the state
//! back bit-for-bit on every state without NaNs, negative zeros or
//! overflowing intermediates (`zero_step_ok`).

use vstd::prelude::*;

use crate::eom::Eom;
use crate::fp::{
    add_bits, div_bits, is_finite_bits, mul_bits, seq_finite, seq_zero_add_ok, zero_add_ok, fadd,
    fdiv, fmul, SIX_BITS, TWO_BITS, ZERO_BITS,
};

verus! {

/// The sequence with entries `x[i] + y[i] * c`, each operation rounded as in
/// binary64: the elementwise scale-and-add that every stage update uses.
pub open spec fn axpy_bits(x: Seq<u64>, y: Seq<u64>, c: u64) -> Seq<u64> {
    Seq::new(x.len(), |i: int| add_bits(x[i], mul_bits(y[i], c)))
}

/// The scalar `w1 + (w2 + w3) * 2 + w4`, rounded as in binary64: the
/// weighted 1,2,2,1 sum of four stage values.
pub open spec fn blend_weight_bits(w1: u64, w2: u64, w3: u64, w4: u64) -> u64 {
    add_bits(add_bits(w1, mul_bits(add_bits(w2, w3), TWO_BITS)), w4)
}

/// The sequence with entries `b[i] + (w1[i] + (w2[i] + w3[i]) * 2 + w4[i]) * c`,
/// rounded as in binary64: the weighted 1,2,2,1 blend that closes a
/// fourth-order Runge-Kutta step.
pub open spec fn blend_bits(
    b: Seq<u64>,
    w1: Seq<u64>,
    w2: Seq<u64>,
    w3: Seq<u64>,
    w4: Seq<u64>,
    c: u64,
) -> Seq<u64> {
    Seq::new(b.len(), |i: int| add_bits(b[i], mul_bits(blend_weight_bits(w1[i], w2[i], w3[i], w4[i]), c)))
}

/// A vector of `n` zero scalars.
pub fn zeros(n: usize) -> (r: Vec<u64>)
    ensures
        r@.len() == n,
        forall|i: int| 0 <= i < n ==> r@[i] == ZERO_BITS,
{
    let mut r: Vec<u64> = Vec::new();
    let mut i: usize = 0;
    while i < n
        invariant
            i <= n,
            r@.len() == i,
            forall|j: int| 0 <= j < i ==> r@[j] == ZERO_BITS,
        decreases n - i,
    {
        r.push(ZERO_BITS);
        i += 1;
    }
    r
}

/// Overwrite every element of `out` with `x[i] + y[i] * c`.
#[verifier::loop_isolation(false)]
fn axpy_into(out: &mut Vec<u64>, x: &Vec<u64>, y: &Vec<u64>, c: u64)
    requires
        old(out)@.len() == x@.len(),
        y@.len() == x@.len(),
    ensures
        final(out)@ == axpy_bits(x@, y@, c),
        c == ZERO_BITS && seq_zero_add_ok(x@) && seq_finite(y@) ==> final(out)@ == x@,
{
    let n = x.len();
    let mut i: usize = 0;
    while i < n
        invariant
            i <= n,
            out@.len() == n,
            forall|j: int| 0 <= j < i ==> out@[j] == add_bits(x@[j], mul_bits(y@[j], c)),
            c == ZERO_BITS && seq_zero_add_ok(x@) && seq_finite(y@) ==> forall|j: int|
                0 <= j < i ==> out@[j] == x@[j],
        decreases n - i,
    {
        let e = fadd(x[i], fmul(y[i], c));
        out.set(i, e);
        i += 1;
    }
    assert(out@ =~= axpy_bits(x@, y@, c));
    if c == 0 {
        proof {
            if seq_zero_add_ok(x@) && seq_finite(y@) {
                assert(out@ =~= x@);
            }
        }
    }
}

/// Replace every element of `x` with `x[i] + y[i] * c`, in place.
#[verifier::loop_isolation(false)]
fn axpy_inplace(x: &mut Vec<u64>, y: &Vec<u64>, c: u64)
    requires
        old(x)@.len() == y@.len(),
    ensures
        final(x)@ == axpy_bits(old(x)@, y@, c),
        c == ZERO_BITS && seq_zero_add_ok(old(x)@) && seq_finite(y@) ==> final(x)@ == old(x)@,
{
    let n = y.len();
    let mut i: usize = 0;
    while i < n
        invariant
            i <= n,
            x@.len() == n,
            forall|j: int| 0 <= j < i ==> x@[j] == add_bits(old(x)@[j], mul_bits(y@[j], c)),
            forall|j: int| i <= j < n ==> x@[j] == old(x)@[j],
            c == ZERO_BITS && seq_zero_add_ok(old(x)@) && seq_finite(y@) ==> forall|j: int|
                0 <= j < i ==> x@[j] == old(x)@[j],
        decreases n - i,
    {
        let e = fadd(x[i], fmul(y[i], c));
        x.set(i, e);
        i += 1;
    }
    assert(x@ =~= axpy_bits(old(x)@, y@, c));
    if c == 0 {
        proof {
            if seq_zero_add_ok(old(x)@) && seq_finite(y@) {
                assert(x@ =~= old(x)@);
            }
        }
    }
}

/// Replace every element of `b` with the weighted blend
/// `b[i] + (w1[i] + (w2[i] + w3[i]) * 2 + w4[i]) * c`, in place.
#[verifier::loop_isolation(false)]
fn blend_inplace(b: &mut Vec<u64>, w1: &Vec<u64>, w2: &Vec<u64>, w3: &Vec<u64>, w4: &Vec<u64>, c: u64)
    requires
        w1@.len() == old(b)@.len(),
        w2@.len() == old(b)@.len(),
        w3@.len() == old(b)@.len(),
        w4@.len() == old(b)@.len(),
    ensures
        final(b)@ == blend_bits(old(b)@, w1@, w2@, w3@, w4@, c),
        c == ZERO_BITS && seq_zero_add_ok(old(b)@) && (forall|j: int|
            0 <= j < w1@.len() ==> is_finite_bits(
                blend_weight_bits(w1@[j], w2@[j], w3@[j], w4@[j]),
            )) ==> final(b)@ == old(b)@,
{
    let n = w1.len();
    let mut i: usize = 0;
    while i < n
        invariant
            i <= n,
            b@.len() == n,
            forall|j: int| 0 <= j < i ==> b@[j] == add_bits(
                old(b)@[j],
                mul_bits(blend_weight_bits(w1@[j], w2@[j], w3@[j], w4@[j]), c),
            ),
            forall|j: int| i <= j < n ==> b@[j] == old(b)@[j],
            c == ZERO_BITS && seq_zero_add_ok(old(b)@) && (forall|j: int|
                0 <= j < n ==> is_finite_bits(
                    blend_weight_bits(w1@[j], w2@[j], w3@[j], w4@[j]),
                )) ==> forall|j: int| 0 <= j < i ==> b@[j] == old(b)@[j],
        decreases n - i,
    {
        let inner = fadd(fadd(w1[i], fmul(fadd(w2[i], w3[i]), TWO_BITS)), w4[i]);
        let e = fadd(b[i], fmul(inner, c));
        b.set(i, e);
        i += 1;
    }
    assert(b@ =~= blend_bits(old(b)@, w1@, w2@, w3@, w4@, c));
    if c == 0 {
        proof {
            if seq_zero_add_ok(old(b)@) && (forall|j: int|
                0 <= j < n ==> is_finite_bits(
                    blend_weight_bits(w1@[j], w2@[j], w3@[j], w4@[j]),
                )) {
                assert(b@ =~= old(b)@);
            }
        }
    }
}

/// A fixed-step explicit stepper bound to one state dimension.
///
/// `next_x` and `next_v` describe the state a step computes.  They take the
/// model, the time, the state and the increment — and deliberately not the
/// stepper value itself, so the outcome of a step can never depend on what
/// the scratch buffers held before the call.
pub trait Stepper<E: Eom>: Sized {
    /// The dimension the stepper's scratch buffers were sized for.
    spec fn dim(&self) -> nat;

    /// Internal consistency of the scratch buffers.
    spec fn wf(&self) -> bool;

    /// The position after one step of this scheme.
    spec fn next_x(eom: &E, t: u64, x: Seq<u64>, v: Seq<u64>, dt: u64) -> Seq<u64>;

    /// The velocity after one step of this scheme.
    spec fn next_v(eom: &E, t: u64, x: Seq<u64>, v: Seq<u64>, dt: u64) -> Seq<u64>;

    /// The states from which a step of size zero provably hands time,
    /// position and velocity back bit-for-bit: algebraically the update
    /// formulas reduce to the identity, and this predicate carves out the
    /// states where that also holds of the rounded arithmetic — no NaN and
    /// no negative zero anywhere, and every intermediate quantity of the
    /// scheme finite.
    spec fn zero_step_ok(eom: &E, t: u64, x: Seq<u64>, v: Seq<u64>) -> bool;

    /// A step keeps the dimension of the state.
    proof fn lemma_next_len(eom: &E, t: u64, x: Seq<u64>, v: Seq<u64>, dt: u64)
        requires
            eom.wf(),
            x.len() == eom.dim(),
            v.len() == eom.dim(),
        ensures
            Self::next_x(eom, t, x, v, dt).len() == eom.dim(),
            Self::next_v(eom, t, x, v, dt).len() == eom.dim(),
    ;

    /// Advance `(t, x, v)` in place by one step of size `dt` under the
    /// equation of motion `eom`.
    fn step(&mut self, eom: &E, t: &mut u64, x: &mut Vec<u64>, v: &mut Vec<u64>, dt: u64)
        requires
            eom.wf(),
            old(self).wf(),
            old(self).dim() == eom.dim(),
            old(x)@.len() == eom.dim(),
            old(v)@.len() == eom.dim(),
        ensures
            final(self).wf(),
            final(self).dim() == old(self).dim(),
            *final(t) == add_bits(*old(t), dt),
            final(x)@ == Self::next_x(eom, *old(t), old(x)@, old(v)@, dt),
            final(v)@ == Self::next_v(eom, *old(t), old(x)@, old(v)@, dt),
            final(x)@.len() == eom.dim(),
            final(v)@.len() == eom.dim(),
            dt == ZERO_BITS && Self::zero_step_ok(eom, *old(t), old(x)@, old(v)@) ==> *final(t)
                == *old(t) && final(x)@ == old(x)@ && final(v)@ == old(v)@,
    ;
}

/// The first-order scheme: one acceleration evaluation per step, and the
/// position advanced with the pre-step velocity.
pub struct Euler {
    a: Vec<u64>,
}

impl Euler {
    /// The dimension the scratch buffer was sized for.
    pub closed spec fn scratch_dim(&self) -> nat {
        self.a@.len()
    }

    /// A first-order stepper for states of dimension `dim`.
    pub fn new(dim: usize) -> (r: Euler)
        ensures
            r.scratch_dim() == dim,
    {
        Euler { a: zeros(dim) }
    }
}

/// The position after an Euler step: `x + v * dt`, with the pre-step `v`.
pub open spec fn euler_next_x<E: Eom>(eom: &E, t: u64, x: Seq<u64>, v: Seq<u64>, dt: u64) -> Seq<
    u64,
> {
    axpy_bits(x, v, dt)
}

/// The velocity after an Euler step: `v + a * dt` with `a` the acceleration
/// at the pre-step state.
pub open spec fn euler_next_v<E: Eom>(eom: &E, t: u64, x: Seq<u64>, v: Seq<u64>, dt: u64) -> Seq<
    u64,
> {
    axpy_bits(v, eom.accel(t, x, v), dt)
}

impl<E: Eom> Stepper<E> for Euler {
    open spec fn dim(&self) -> nat {
        self.scratch_dim()
    }

    open spec fn wf(&self) -> bool {
        true
    }

    open spec fn next_x(eom: &E, t: u64, x: Seq<u64>, v: Seq<u64>, dt: u64) -> Seq<u64> {
        euler_next_x(eom, t, x, v, dt)
    }

    open spec fn next_v(eom: &E, t: u64, x: Seq<u64>, v: Seq<u64>, dt: u64) -> Seq<u64> {
        euler_next_v(eom, t, x, v, dt)
    }

    open spec fn zero_step_ok(eom: &E, t: u64, x: Seq<u64>, v: Seq<u64>) -> bool {
        &&& zero_add_ok(t)
        &&& seq_zero_add_ok(x)
        &&& seq_zero_add_ok(v)
        &&& seq_finite(v)
        &&& seq_finite(eom.accel(t, x, v))
    }

    proof fn lemma_next_len(eom: &E, t: u64, x: Seq<u64>, v: Seq<u64>, dt: u64) {
        eom.lemma_accel_len(t, x, v);
    }

    fn step(&mut self, eom: &E, t: &mut u64, x: &mut Vec<u64>, v: &mut Vec<u64>, dt: u64) {
        proof {
            eom.lemma_accel_len(*t, x@, v@);
        }
        eom.acceleration(*t, x, v, &mut self.a);
        axpy_inplace(x, v, dt);
        axpy_inplace(v, &self.a, dt);
        *t = fadd(*t, dt);
    }
}

/// `RK1` is the Runge-Kutta name of the first-order scheme.
pub type RK1 = Euler;

/// The second-order midpoint scheme: two acceleration evaluations per step,
/// and the position advanced with the midpoint velocity.
pub struct RK2 {
    x1: Vec<u64>,
    v1: Vec<u64>,
    a: Vec<u64>,
}

impl RK2 {
    /// The dimension the scratch buffers were sized for.
    pub closed spec fn scratch_dim(&self) -> nat {
        self.a@.len()
    }

    /// All scratch buffers share one length.
    pub closed spec fn wf_buffers(&self) -> bool {
        self.x1@.len() == self.a@.len() && self.v1@.len() == self.a@.len()
    }

    /// A midpoint stepper for states of dimension `dim`.
    pub fn new(dim: usize) -> (r: RK2)
        ensures
            r.scratch_dim() == dim,
            r.wf_buffers(),
    {
        RK2 { x1: zeros(dim), v1: zeros(dim), a: zeros(dim) }
    }
}

/// The position after a midpoint step.  With `dt2 = dt / 2` and `a1` the
/// acceleration at the pre-step state, the midpoint velocity is
/// `v1 = v + a1 * dt2`, and the new position is `x + v1 * dt`.
pub open spec fn rk2_next_x<E: Eom>(eom: &E, t: u64, x: Seq<u64>, v: Seq<u64>, dt: u64) -> Seq<
    u64,
> {
    let dt2 = div_bits(dt, TWO_BITS);
    let a1 = eom.accel(t, x, v);
    let v1 = axpy_bits(v, a1, dt2);
    axpy_bits(x, v1, dt)
}

/// The velocity after a midpoint step.  With `dt2 = dt / 2`, the midpoint
/// state is `x1 = x + v * dt2`, `v1 = v + a1 * dt2`; the new velocity is
/// `v + a2 * dt` with `a2` the acceleration at time `t + dt2` and state
/// `(x1, v1)`.
pub open spec fn rk2_next_v<E: Eom>(eom: &E, t: u64, x: Seq<u64>, v: Seq<u64>, dt: u64) -> Seq<
    u64,
> {
    let dt2 = div_bits(dt, TWO_BITS);
    let a1 = eom.accel(t, x, v);
    let x1 = axpy_bits(x, v, dt2);
    let v1 = axpy_bits(v, a1, dt2);
    let a2 = eom.accel(add_bits(t, dt2), x1, v1);
    axpy_bits(v, a2, dt)
}

impl<E: Eom> Stepper<E> for RK2 {
    open spec fn dim(&self) -> nat {
        self.scratch_dim()
    }

    open spec fn wf(&self) -> bool {
        self.wf_buffers()
    }

    open spec fn next_x(eom: &E, t: u64, x: Seq<u64>, v: Seq<u64>, dt: u64) -> Seq<u64> {
        rk2_next_x(eom, t, x, v, dt)
    }

    open spec fn next_v(eom: &E, t: u64, x: Seq<u64>, v: Seq<u64>, dt: u64) -> Seq<u64> {
        rk2_next_v(eom, t, x, v, dt)
    }

    open spec fn zero_step_ok(eom: &E, t: u64, x: Seq<u64>, v: Seq<u64>) -> bool {
        &&& zero_add_ok(t)
        &&& seq_zero_add_ok(x)
        &&& seq_zero_add_ok(v)
        &&& seq_finite(v)
        &&& seq_finite(eom.accel(t, x, v))
    }

    proof fn lemma_next_len(eom: &E, t: u64, x: Seq<u64>, v: Seq<u64>, dt: u64) {
        eom.lemma_accel_len(t, x, v);
    }

    fn step(&mut self, eom: &E, t: &mut u64, x: &mut Vec<u64>, v: &mut Vec<u64>, dt: u64) {
        let dt2 = fdiv(dt, TWO_BITS);
        proof {
            eom.lemma_accel_len(*t, x@, v@);
        }
        eom.acceleration(*t, x, v, &mut self.a);
        axpy_into(&mut self.x1, x, v, dt2);
        axpy_into(&mut self.v1, v, &self.a, dt2);
        let tm = fadd(*t, dt2);
        proof {
            eom.lemma_accel_len(tm, self.x1@, self.v1@);
        }
        eom.acceleration(tm, &self.x1, &self.v1, &mut self.a);
        axpy_inplace(x, &self.v1, dt);
        axpy_inplace(v, &self.a, dt);
        *t = fadd(*t, dt);
    }
}

/// The classical fourth-order Runge-Kutta scheme: four acceleration
/// evaluations per step, velocity stages driving the position increment and
/// acceleration stages driving the velocity increment, both blended with
/// the 1,2,2,1 weights over 6.
pub struct RK4 {
    x1: Vec<u64>,
    x2: Vec<u64>,
    x3: Vec<u64>,
    v1: Vec<u64>,
    v2: Vec<u64>,
    v3: Vec<u64>,
    a1: Vec<u64>,
    a2: Vec<u64>,
    a3: Vec<u64>,
    a4: Vec<u64>,
}

impl RK4 {
    /// The dimension the scratch buffers were sized for.
    pub closed spec fn scratch_dim(&self) -> nat {
        self.a1@.len()
    }

    /// A fourth-order stepper for states of dimension `dim`.
    pub fn new(dim: usize) -> (r: RK4)
        ensures
            r.scratch_dim() == dim,
            r.wf_buffers(),
    {
        RK4 {
            x1: zeros(dim),
            x2: zeros(dim),
            x3: zeros(dim),
            v1: zeros(dim),
            v2: zeros(dim),
            v3: zeros(dim),
            a1: zeros(dim),
            a2: zeros(dim),
            a3: zeros(dim),
            a4: zeros(dim),
        }
    }

    /// All scratch buffers share one length.
    pub closed spec fn wf_buffers(&self) -> bool {
        &&& self.x1@.len() == self.a1@.len()
        &&& self.x2@.len() == self.a1@.len()
        &&& self.x3@.len() == self.a1@.len()
        &&& self.v1@.len() == self.a1@.len()
        &&& self.v2@.len() == self.a1@.len()
        &&& self.v3@.len() == self.a1@.len()
        &&& self.a2@.len() == self.a1@.len()
        &&& self.a3@.len() == self.a1@.len()
        &&& self.a4@.len() == self.a1@.len()
    }
}

/// The four stages of a classical Runge-Kutta step, in evaluation order.
/// With `dt2 = dt / 2`:
/// stage 1 evaluates at the pre-step state; stages 2 and 3 evaluate at time
/// `t + dt2`, each advanced by `dt2` from the pre-step state along the
/// previous stage; stage 4 evaluates at time `t + dt`, advanced by the full
/// `dt` along stage 3.  The result carries the stage velocities and
/// accelerations `(v1, v2, v3, a1, a2, a3, a4)`.
pub open spec fn rk4_stages<E: Eom>(eom: &E, t: u64, x: Seq<u64>, v: Seq<u64>, dt: u64) -> (
    Seq<u64>,
    Seq<u64>,
    Seq<u64>,
    Seq<u64>,
    Seq<u64>,
    Seq<u64>,
    Seq<u64>,
) {
    let dt2 = div_bits(dt, TWO_BITS);
    let tm = add_bits(t, dt2);
    let te = add_bits(t, dt);
    let a1 = eom.accel(t, x, v);
    let x1 = axpy_bits(x, v, dt2);
    let v1 = axpy_bits(v, a1, dt2);
    let a2 = eom.accel(tm, x1, v1);
    let x2 = axpy_bits(x, v1, dt2);
    let v2 = axpy_bits(v, a2, dt2);
    let a3 = eom.accel(tm, x2, v2);
    let x3 = axpy_bits(x, v2, dt);
    let v3 = axpy_bits(v, a3, dt);
    let a4 = eom.accel(te, x3, v3);
    (v1, v2, v3, a1, a2, a3, a4)
}

/// The position after a fourth-order step:
/// `x + (v + 2 * (v1 + v2) + v3) * dt / 6`, rounded operation by operation
/// exactly as `blend_bits` states it.
pub open spec fn rk4_next_x<E: Eom>(eom: &E, t: u64, x: Seq<u64>, v: Seq<u64>, dt: u64) -> Seq<
    u64,
> {
    let s = rk4_stages(eom, t, x, v, dt);
    blend_bits(x, v, s.0, s.1, s.2, div_bits(dt, SIX_BITS))
}

/// The velocity after a fourth-order step:
/// `v + (a1 + 2 * (a2 + a3) + a4) * dt / 6`, rounded operation by operation
/// exactly as `blend_bits` states it.
pub open spec fn rk4_next_v<E: Eom>(eom: &E, t: u64, x: Seq<u64>, v: Seq<u64>, dt: u64) -> Seq<
    u64,
> {
    let s = rk4_stages(eom, t, x, v, dt);
    blend_bits(v, s.3, s.4, s.5, s.6, div_bits(dt, SIX_BITS))
}

impl<E: Eom> Stepper<E> for RK4 {
    open spec fn dim(&self) -> nat {
        self.scratch_dim()
    }

    open spec fn wf(&self) -> bool {
        self.wf_buffers()
    }

    open spec fn next_x(eom: &E, t: u64, x: Seq<u64>, v: Seq<u64>, dt: u64) -> Seq<u64> {
        rk4_next_x(eom, t, x, v, dt)
    }

    open spec fn next_v(eom: &E, t: u64, x: Seq<u64>, v: Seq<u64>, dt: u64) -> Seq<u64> {
        rk4_next_v(eom, t, x, v, dt)
    }

    open spec fn zero_step_ok(eom: &E, t: u64, x: Seq<u64>, v: Seq<u64>) -> bool {
        &&& zero_add_ok(t)
        &&& seq_zero_add_ok(x)
        &&& seq_zero_add_ok(v)
        &&& seq_finite(v)
        &&& seq_finite(eom.accel(t, x, v))
        &&& forall|i: int|
            0 <= i < v.len() ==> is_finite_bits(blend_weight_bits(v[i], v[i], v[i], v[i]))
        &&& forall|i: int|
            0 <= i < v.len() ==> is_finite_bits(
                blend_weight_bits(
                    eom.accel(t, x, v)[i],
                    eom.accel(t, x, v)[i],
                    eom.accel(t, x, v)[i],
                    eom.accel(t, x, v)[i],
                ),
            )
    }

    proof fn lemma_next_len(eom: &E, t: u64, x: Seq<u64>, v: Seq<u64>, dt: u64) {
        eom.lemma_accel_len(t, x, v);
    }

    fn step(&mut self, eom: &E, t: &mut u64, x: &mut Vec<u64>, v: &mut Vec<u64>, dt: u64) {
        let dt2 = fdiv(dt, TWO_BITS);
        let dt6 = fdiv(dt, SIX_BITS);
        let tm = fadd(*t, dt2);
        let te = fadd(*t, dt);
        proof {
            eom.lemma_accel_len(*t, x@, v@);
        }
        eom.acceleration(*t, x, v, &mut self.a1);
        axpy_into(&mut self.x1, x, v, dt2);
        axpy_into(&mut self.v1, v, &self.a1, dt2);
        proof {
            eom.lemma_accel_len(tm, self.x1@, self.v1@);
        }
        eom.acceleration(tm, &self.x1, &self.v1, &mut self.a2);
        axpy_into(&mut self.x2, x, &self.v1, dt2);
        axpy_into(&mut self.v2, v, &self.a2, dt2);
        proof {
            eom.lemma_accel_len(tm, self.x2@, self.v2@);
        }
        eom.acceleration(tm, &self.x2, &self.v2, &mut self.a3);
        axpy_into(&mut self.x3, x, &self.v2, dt);
        axpy_into(&mut self.v3, v, &self.a3, dt);
        proof {
            eom.lemma_accel_len(te, self.x3@, self.v3@);
        }
        eom.acceleration(te, &self.x3, &self.v3, &mut self.a4);
        blend_inplace(x, v, &self.v1, &self.v2, &self.v3, dt6);
        blend_inplace(v, &self.a1, &self.a2, &self.a3, &self.a4, dt6);
        *t = fadd(*t, dt);
    }
}

} // verus!
