//! The equation-of-motion capability: what a model must expose so that a
//! stepper can integrate it.

use vstd::prelude::*;

verus! {

/// A second-order equation of motion over binary64 scalars carried as bit
/// patterns: a rule mapping time, position and velocity to acceleration,
/// plus an optional post-step correction that re-imposes a model constraint.
///
/// The model has a fixed dimension `dim()`; every position, velocity and
/// acceleration vector it handles has exactly that length.  `accel`,
/// `corrected_x` and `corrected_v` are the mathematical descriptions of what
/// the executable methods compute, so a caller of `acceleration` or
/// `correct` knows the result exactly.  The correction must be idempotent:
/// correcting an already corrected state changes nothing, which every
/// implementation proves once in `lemma_correct_idempotent`.
pub trait Eom: Sized {
    /// Internal consistency of the model's own parameters.
    spec fn wf(&self) -> bool;

    /// The model's fixed dimension.
    spec fn dim(&self) -> nat;

    /// The acceleration vector the model assigns to time `t`, position `x`
    /// and velocity `v`.
    spec fn accel(&self, t: u64, x: Seq<u64>, v: Seq<u64>) -> Seq<u64>;

    /// The position after the post-step correction of state `(x, v)` at
    /// time `t`.
    spec fn corrected_x(&self, t: u64, x: Seq<u64>, v: Seq<u64>) -> Seq<u64>;

    /// The velocity after the post-step correction of state `(x, v)` at
    /// time `t`.
    spec fn corrected_v(&self, t: u64, x: Seq<u64>, v: Seq<u64>) -> Seq<u64>;

    /// The acceleration of a `dim()`-dimensional state is again
    /// `dim()`-dimensional.
    proof fn lemma_accel_len(&self, t: u64, x: Seq<u64>, v: Seq<u64>)
        requires
            self.wf(),
            x.len() == self.dim(),
            v.len() == self.dim(),
        ensures
            self.accel(t, x, v).len() == self.dim(),
    ;

    /// The correction keeps the dimension of the state.
    proof fn lemma_corrected_len(&self, t: u64, x: Seq<u64>, v: Seq<u64>)
        requires
            self.wf(),
            x.len() == self.dim(),
            v.len() == self.dim(),
        ensures
            self.corrected_x(t, x, v).len() == self.dim(),
            self.corrected_v(t, x, v).len() == self.dim(),
    ;

    /// Correcting twice in succession gives the same state as correcting
    /// once: a corrected state already satisfies the model constraint.
    proof fn lemma_correct_idempotent(&self, t: u64, x: Seq<u64>, v: Seq<u64>)
        requires
            self.wf(),
            x.len() == self.dim(),
            v.len() == self.dim(),
        ensures
            self.corrected_x(t, self.corrected_x(t, x, v), self.corrected_v(t, x, v)) == self
                .corrected_x(t, x, v),
            self.corrected_v(t, self.corrected_x(t, x, v), self.corrected_v(t, x, v)) == self
                .corrected_v(t, x, v),
    ;

    /// The model's dimension, as a runtime value.
    fn dimension(&self) -> (d: usize)
        requires
            self.wf(),
        ensures
            d == self.dim(),
    ;

    /// Write into `a` the acceleration at time `t`, position `x` and
    /// velocity `v`.  All three buffers must have the model's dimension.
    fn acceleration(&self, t: u64, x: &Vec<u64>, v: &Vec<u64>, a: &mut Vec<u64>)
        requires
            self.wf(),
            x@.len() == self.dim(),
            v@.len() == self.dim(),
            old(a)@.len() == self.dim(),
        ensures
            final(a)@ == self.accel(t, x@, v@),
            final(a)@.len() == self.dim(),
    ;

    /// Re-impose the model constraint on a freshly advanced state, mutating
    /// `x` and `v` in place.  Models without a constraint leave the state
    /// unchanged.
    fn correct(&self, t: u64, x: &mut Vec<u64>, v: &mut Vec<u64>)
        requires
            self.wf(),
            old(x)@.len() == self.dim(),
            old(v)@.len() == self.dim(),
        ensures
            final(x)@ == self.corrected_x(t, old(x)@, old(v)@),
            final(v)@ == self.corrected_v(t, old(x)@, old(v)@),
            final(x)@.len() == self.dim(),
            final(v)@.len() == self.dim(),
    ;
}

/// Correction idempotence, for every model at once: applying the post-step
/// correction to a state that was just corrected gives exactly that state
/// back, so a second `correct` call in succession changes nothing.
pub proof fn lemma_correct_twice_is_once<E: Eom>(eom: &E, t: u64, x: Seq<u64>, v: Seq<u64>)
    requires
        eom.wf(),
        x.len() == eom.dim(),
        v.len() == eom.dim(),
    ensures
        eom.corrected_x(t, eom.corrected_x(t, x, v), eom.corrected_v(t, x, v)) == eom.corrected_x(
            t,
            x,
            v,
        ),
        eom.corrected_v(t, eom.corrected_x(t, x, v), eom.corrected_v(t, x, v)) == eom.corrected_v(
            t,
            x,
            v,
        ),
{
    eom.lemma_correct_idempotent(t, x, v);
}

} // verus!
