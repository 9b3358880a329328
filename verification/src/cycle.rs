//! One control cycle from payload to drive plan: decode the telemetry record,
//! advance the PID controller, and map the correction to motor commands.
//!
//! The caller runs the loop: it collects a payload through a frame receiver,
//! reads the auxiliary range sensor, calls [`process_frame`], then reports the
//! fault or carries the plan to the actuator. A payload that fails to decode
//! leaves the controller state exactly as it was — no partial updates.

use vstd::prelude::*;

use crate::decode::decode;
use crate::decode::spec_decode_ok;
use crate::decode::spec_error;
use crate::decode::spec_flag0;
use crate::decode::spec_flag1;
use crate::decode::ERROR_CEIL;
use crate::decode::ERROR_FLOOR;
use crate::drive::drive_plan;
use crate::drive::plan_matches;
use crate::drive::DrivePlan;
use crate::fault::Fault;
use crate::fault::FaultStage;
use crate::frame::FrameStrategy;
use crate::pid::pid_fits;
use crate::pid::pid_turn;
use crate::pid::ControlState;

verus! {

/// Largest integral magnitude under which one more cycle is known to stay
/// inside the `i32` domain for every decodable error. The control law applies
/// no anti-windup, so on very long runs the caller must watch this bound.
pub const INTEGRAL_HEADROOM: i32 = 0x4000_0000;

/// The controller state admits one more cycle: the integral has headroom and
/// the last error is one a frame can decode to (as every decoded error is).
pub open spec fn state_ready(s: ControlState) -> bool {
    &&& -INTEGRAL_HEADROOM <= s.integral <= INTEGRAL_HEADROOM
    &&& ERROR_FLOOR <= s.last_error <= ERROR_CEIL
}

/// A ready state keeps every intermediate value of a step on a decodable
/// error inside the `i32` domain.
proof fn lemma_ready_fits(s: ControlState, e: int)
    requires
        state_ready(s),
        ERROR_FLOOR <= e <= ERROR_CEIL,
    ensures
        pid_fits(s.integral as int, s.last_error as int, e),
{
}

/// True exactly when the controller state admits one more cycle; callers that
/// cannot see the ghost state test this before [`process_frame`].
pub fn ready_for_cycle(state: &ControlState) -> (b: bool)
    ensures
        b == state_ready(*state),
{
    -INTEGRAL_HEADROOM <= state.integral && state.integral <= INTEGRAL_HEADROOM && ERROR_FLOOR
        <= state.last_error && state.last_error <= ERROR_CEIL
}

/// Run one control cycle on a received payload. The payload decodes exactly
/// when its wire shape parses; then the controller steps once on the decoded
/// error and the plan maps the resulting correction by the drive mapper's
/// predicate. A decode failure returns the decode fault and leaves the
/// controller state untouched.
pub fn process_frame(
    strategy: FrameStrategy,
    payload: &Vec<u8>,
    state: &mut ControlState,
    base_speed: u8,
    range_reading: u16,
) -> (r: Result<DrivePlan, Fault>)
    requires
        state_ready(*old(state)),
    ensures
        (r is Ok) <==> spec_decode_ok(strategy, payload@),
        r matches Err(f) ==> *final(state) == *old(state) && f.stage == FaultStage::Decode,
        r matches Ok(plan) ==> ({
            let e = spec_error(strategy, payload@);
            &&& final(state).integral == old(state).integral + e
            &&& final(state).last_error == e
            &&& ERROR_FLOOR <= final(state).last_error <= ERROR_CEIL
            &&& plan_matches(
                plan,
                base_speed as int,
                pid_turn(old(state).integral as int, old(state).last_error as int, e),
                spec_flag0(strategy, payload@),
                spec_flag1(strategy, payload@),
                range_reading as int,
            )
        }),
{
    let record = match decode(strategy, payload) {
        Ok(t) => t,
        Err(f) => { return Err(f) },
    };
    proof {
        lemma_ready_fits(*state, record.error as int);
    }
    let turn = state.step(record.error);
    Ok(drive_plan(base_speed, turn, record.flag0, record.flag1, range_reading))
}

} // verus!
