//! Proportional-integral-derivative control law turning a scalar positional
//! error into a steering correction, in fixed-point integer arithmetic.

use vstd::prelude::*;

verus! {

/// Proportional gain.
pub const KP: i32 = 5;
/// Integral gain.
pub const KI: i32 = 1;
/// Derivative gain.
pub const KD: i32 = 10;

/// Controller state owned by the control loop. It is mutated exactly once per
/// successfully decoded frame and never reset except at system start.
pub struct ControlState {
    /// Running sum of all successfully decoded errors.
    pub integral: i32,
    /// The most recent successfully decoded error.
    pub last_error: i32,
}

/// The steering correction the controller computes for error `e` arriving at a
/// state with the given integral and last error.
pub open spec fn pid_turn(integral: int, last_error: int, e: int) -> int {
    KP * e + KI * (integral + e) + KD * (e - last_error)
}

/// Every intermediate value of one controller step stays inside the `i32`
/// domain; the law applies no clamping, so the machine range is the only bound.
pub open spec fn pid_fits(integral: int, last_error: int, e: int) -> bool {
    &&& i32::MIN <= integral + e <= i32::MAX
    &&& i32::MIN <= e - last_error <= i32::MAX
    &&& i32::MIN <= KP * e <= i32::MAX
    &&& i32::MIN <= KD * (e - last_error) <= i32::MAX
    &&& i32::MIN <= KP * e + KI * (integral + e) <= i32::MAX
    &&& i32::MIN <= pid_turn(integral, last_error, e) <= i32::MAX
}

/// Sum of a sequence of errors.
pub open spec fn error_sum(es: Seq<int>) -> int
    decreases es.len(),
{
    if es.len() == 0 {
        0
    } else {
        error_sum(es.drop_last()) + es.last()
    }
}

/// Controller state `(integral, last_error)` after feeding the errors of `es`
/// in order into a controller that started at `(integral0, last0)`.
pub open spec fn pid_state_after(integral0: int, last0: int, es: Seq<int>) -> (int, int)
    decreases es.len(),
{
    if es.len() == 0 {
        (integral0, last0)
    } else {
        let prev = pid_state_after(integral0, last0, es.drop_last());
        (prev.0 + es.last(), es.last())
    }
}

/// After any sequence of successfully decoded errors, the integral equals its
/// starting value plus the sum of those errors, and the last error equals the
/// most recent one (or the starting value when none arrived).
pub proof fn lemma_integral_accumulates(integral0: int, last0: int, es: Seq<int>)
    ensures
        pid_state_after(integral0, last0, es).0 == integral0 + error_sum(es),
        es.len() > 0 ==> pid_state_after(integral0, last0, es).1 == es.last(),
        es.len() == 0 ==> pid_state_after(integral0, last0, es).1 == last0,
    decreases es.len(),
{
    if es.len() > 0 {
        lemma_integral_accumulates(integral0, last0, es.drop_last());
    }
}

impl ControlState {
    /// The state at system start: nothing accumulated, no error seen.
    pub fn new() -> (s: Self)
        ensures
            s.integral == 0,
            s.last_error == 0,
    {
        ControlState { integral: 0, last_error: 0 }
    }

    /// One controller step: accumulate `error`, remember it, and return the
    /// steering correction `KP*e + KI*integral + KD*(e - last_error)`.
    pub fn step(&mut self, error: i32) -> (turn: i32)
        requires
            pid_fits(old(self).integral as int, old(self).last_error as int, error as int),
        ensures
            final(self).integral == old(self).integral + error,
            final(self).last_error == error,
            turn == pid_turn(old(self).integral as int, old(self).last_error as int, error as int),
            (final(self).integral as int, final(self).last_error as int) == pid_state_after(
                old(self).integral as int,
                old(self).last_error as int,
                seq![error as int],
            ),
    {
        let derivative: i32 = error - self.last_error;
        self.integral = self.integral + error;
        self.last_error = error;
        proof {
            let es = seq![error as int];
            assert(es.drop_last() =~= Seq::<int>::empty());
            assert(pid_state_after(
                old(self).integral as int,
                old(self).last_error as int,
                es.drop_last(),
            ) == (old(self).integral as int, old(self).last_error as int));
        }
        KP * error + KI * self.integral + KD * derivative
    }
}

} // verus!
