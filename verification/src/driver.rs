//! The driving loops: advance a state by a fixed count of steps, or until a
//! target time is reached.
//!
//! `advance_n` applies the bare stepper a fixed number of times and applies
//! no correction, the mode convergence studies use.  `advance_until` keeps
//! stepping while the time lies below the target, applying the model's
//! post-step correction after every step; if `dt` does not evenly divide the
//! remaining interval the last step lands past the target and the overshoot
//! is accepted, never trimmed.  Because rounding can make `t + dt` equal
//! `t`, a caller of `advance_until` also passes a step budget that bounds
//! the loop; a return value below the budget says the target was reached.

use vstd::prelude::*;

use crate::eom::Eom;
use crate::fp::{add_bits, lt_bits, flt};
use crate::steppers::Stepper;

verus! {

/// The `(t, x, v)` state one uncorrected step of scheme `S` produces.
pub open spec fn step_state<E: Eom, S: Stepper<E>>(
    eom: &E,
    t: u64,
    x: Seq<u64>,
    v: Seq<u64>,
    dt: u64,
) -> (u64, Seq<u64>, Seq<u64>) {
    (add_bits(t, dt), S::next_x(eom, t, x, v, dt), S::next_v(eom, t, x, v, dt))
}

/// The state after `n` uncorrected steps of scheme `S`.
pub open spec fn advance_n_state<E: Eom, S: Stepper<E>>(
    eom: &E,
    t: u64,
    x: Seq<u64>,
    v: Seq<u64>,
    dt: u64,
    n: nat,
) -> (u64, Seq<u64>, Seq<u64>)
    decreases n,
{
    if n == 0 {
        (t, x, v)
    } else {
        let p = advance_n_state::<E, S>(eom, t, x, v, dt, (n - 1) as nat);
        step_state::<E, S>(eom, p.0, p.1, p.2, dt)
    }
}

/// The `(t, x, v)` state one corrected step produces: the step of scheme
/// `S`, then the model's correction at the advanced time.
pub open spec fn corrected_step_state<E: Eom, S: Stepper<E>>(
    eom: &E,
    t: u64,
    x: Seq<u64>,
    v: Seq<u64>,
    dt: u64,
) -> (u64, Seq<u64>, Seq<u64>) {
    let p = step_state::<E, S>(eom, t, x, v, dt);
    (p.0, eom.corrected_x(p.0, p.1, p.2), eom.corrected_v(p.0, p.1, p.2))
}

/// The state after `n` corrected steps.
pub open spec fn advance_until_state<E: Eom, S: Stepper<E>>(
    eom: &E,
    t: u64,
    x: Seq<u64>,
    v: Seq<u64>,
    dt: u64,
    n: nat,
) -> (u64, Seq<u64>, Seq<u64>)
    decreases n,
{
    if n == 0 {
        (t, x, v)
    } else {
        let p = advance_until_state::<E, S>(eom, t, x, v, dt, (n - 1) as nat);
        corrected_step_state::<E, S>(eom, p.0, p.1, p.2, dt)
    }
}

/// The time reached after folding `n` additions of `dt` into `t`, each
/// rounded as in binary64.
pub open spec fn time_after(t: u64, dt: u64, n: nat) -> u64
    decreases n,
{
    if n == 0 {
        t
    } else {
        add_bits(time_after(t, dt, (n - 1) as nat), dt)
    }
}

/// After `n` steps the time is exactly the `n`-fold rounded sum
/// `t + dt + ... + dt`, whatever the model, the scheme and the state: the
/// driver advances time by exactly one rounded `dt` per step.
pub proof fn lemma_time_accumulation<E: Eom, S: Stepper<E>>(
    eom: &E,
    t: u64,
    x: Seq<u64>,
    v: Seq<u64>,
    dt: u64,
    n: nat,
)
    ensures
        advance_n_state::<E, S>(eom, t, x, v, dt, n).0 == time_after(t, dt, n),
        advance_until_state::<E, S>(eom, t, x, v, dt, n).0 == time_after(t, dt, n),
    decreases n,
{
    if n != 0 {
        lemma_time_accumulation::<E, S>(eom, t, x, v, dt, (n - 1) as nat);
    }
}

/// Sequential runs compose: advancing `m + n` steps is advancing `m` steps
/// and then advancing `n` more from the state the first run handed over.
/// In particular the second run is fully determined by that state — no
/// residue of the first run, such as what the scratch buffers hold, can
/// reach it.
pub proof fn lemma_advance_n_composes<E: Eom, S: Stepper<E>>(
    eom: &E,
    t: u64,
    x: Seq<u64>,
    v: Seq<u64>,
    dt: u64,
    m: nat,
    n: nat,
)
    ensures
        advance_n_state::<E, S>(eom, t, x, v, dt, m + n) == {
            let p = advance_n_state::<E, S>(eom, t, x, v, dt, m);
            advance_n_state::<E, S>(eom, p.0, p.1, p.2, dt, n)
        },
    decreases n,
{
    if n != 0 {
        lemma_advance_n_composes::<E, S>(eom, t, x, v, dt, m, (n - 1) as nat);
        assert(m + n - 1 == m + (n - 1) as nat);
    }
}

/// Call `stepper.step` exactly `n` times, each call advancing `t` by `dt`.
/// No correction is applied in this mode.
#[verifier::loop_isolation(false)]
pub fn advance_n<E: Eom, S: Stepper<E>>(
    stepper: &mut S,
    eom: &E,
    t: &mut u64,
    x: &mut Vec<u64>,
    v: &mut Vec<u64>,
    dt: u64,
    n: usize,
)
    requires
        eom.wf(),
        old(stepper).wf(),
        old(stepper).dim() == eom.dim(),
        old(x)@.len() == eom.dim(),
        old(v)@.len() == eom.dim(),
    ensures
        final(stepper).wf(),
        final(stepper).dim() == old(stepper).dim(),
        *final(t) == advance_n_state::<E, S>(eom, *old(t), old(x)@, old(v)@, dt, n as nat).0,
        final(x)@ == advance_n_state::<E, S>(eom, *old(t), old(x)@, old(v)@, dt, n as nat).1,
        final(v)@ == advance_n_state::<E, S>(eom, *old(t), old(x)@, old(v)@, dt, n as nat).2,
        final(x)@.len() == eom.dim(),
        final(v)@.len() == eom.dim(),
{
    let mut i: usize = 0;
    while i < n
        invariant
            i <= n,
            stepper.wf(),
            stepper.dim() == eom.dim(),
            x@.len() == eom.dim(),
            v@.len() == eom.dim(),
            *t == advance_n_state::<E, S>(eom, *old(t), old(x)@, old(v)@, dt, i as nat).0,
            x@ == advance_n_state::<E, S>(eom, *old(t), old(x)@, old(v)@, dt, i as nat).1,
            v@ == advance_n_state::<E, S>(eom, *old(t), old(x)@, old(v)@, dt, i as nat).2,
        decreases n - i,
    {
        stepper.step(eom, t, x, v, dt);
        i += 1;
    }
}

/// Keep stepping while `t` compares IEEE-less-than `until`, correcting the
/// state after every step, for at most `max_steps` steps.  Returns the
/// number of steps taken: a result below `max_steps` says the loop stopped
/// because `t` reached or passed `until`.  The final step may land past
/// `until`; the overshoot is accepted, not trimmed.
#[verifier::loop_isolation(false)]
pub fn advance_until<E: Eom, S: Stepper<E>>(
    stepper: &mut S,
    eom: &E,
    t: &mut u64,
    x: &mut Vec<u64>,
    v: &mut Vec<u64>,
    dt: u64,
    until: u64,
    max_steps: usize,
) -> (steps: usize)
    requires
        eom.wf(),
        old(stepper).wf(),
        old(stepper).dim() == eom.dim(),
        old(x)@.len() == eom.dim(),
        old(v)@.len() == eom.dim(),
    ensures
        final(stepper).wf(),
        final(stepper).dim() == old(stepper).dim(),
        steps <= max_steps,
        *final(t) == advance_until_state::<E, S>(
            eom,
            *old(t),
            old(x)@,
            old(v)@,
            dt,
            steps as nat,
        ).0,
        final(x)@ == advance_until_state::<E, S>(eom, *old(t), old(x)@, old(v)@, dt, steps as nat).1,
        final(v)@ == advance_until_state::<E, S>(eom, *old(t), old(x)@, old(v)@, dt, steps as nat).2,
        final(x)@.len() == eom.dim(),
        final(v)@.len() == eom.dim(),
        steps < max_steps ==> !lt_bits(*final(t), until),
        forall|k: nat|
            k < steps ==> lt_bits(
                advance_until_state::<E, S>(eom, *old(t), old(x)@, old(v)@, dt, k).0,
                until,
            ),
{
    let mut steps: usize = 0;
    while steps < max_steps
        invariant
            steps <= max_steps,
            stepper.wf(),
            stepper.dim() == eom.dim(),
            x@.len() == eom.dim(),
            v@.len() == eom.dim(),
            *t == advance_until_state::<E, S>(eom, *old(t), old(x)@, old(v)@, dt, steps as nat).0,
            x@ == advance_until_state::<E, S>(eom, *old(t), old(x)@, old(v)@, dt, steps as nat).1,
            v@ == advance_until_state::<E, S>(eom, *old(t), old(x)@, old(v)@, dt, steps as nat).2,
            forall|k: nat|
                k < steps ==> lt_bits(
                    advance_until_state::<E, S>(eom, *old(t), old(x)@, old(v)@, dt, k).0,
                    until,
                ),
        decreases max_steps - steps,
    {
        if !flt(*t, until) {
            return steps;
        }
        stepper.step(eom, t, x, v, dt);
        eom.correct(*t, x, v);
        steps = steps + 1;
    }
    steps
}

} // verus!
