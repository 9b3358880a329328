//! Drive mapper: turns base speed, steering correction, direction flags and the
//! auxiliary range reading into two signed motor commands plus a global
//! standby decision.

use vstd::prelude::*;

verus! {

/// Raw range readings below this threshold hold the drive in standby: the
/// vehicle moves only when the reading is at or above it.
pub const RANGE_THRESHOLD: u16 = 2000;

/// Largest commanded duty; duties are percentage-like values in `0..=100`.
pub const DUTY_MAX: u8 = 100;

/// One motor's command: a direction and a duty in `0..=100`.
#[derive(Clone, Copy, Debug)]
pub struct MotorCommand {
    /// True drives the motor forward, false backward.
    pub forward: bool,
    /// Drive intensity in `0..=100`.
    pub duty: u8,
}

/// What one control cycle asks of the actuator: per-motor commands when the
/// flags select a direction, and the global standby decision.
#[derive(Clone, Copy, Debug)]
pub struct DrivePlan {
    /// Commands for motor A and motor B, or `None` when both direction flags
    /// are false and the drive stops regardless of range.
    pub commands: Option<(MotorCommand, MotorCommand)>,
    /// True de-energizes both motors regardless of the commanded duties.
    pub standby: bool,
}

/// A raw steering value clamped into the documented duty range `0..=100`.
pub open spec fn clamped_duty(v: int) -> int {
    if v < 0 {
        0
    } else if v > DUTY_MAX as int {
        DUTY_MAX as int
    } else {
        v
    }
}

/// Duty of the right wheel: base speed plus the steering correction, clamped.
pub open spec fn right_duty(base_speed: int, turn: int) -> int {
    clamped_duty(base_speed + turn)
}

/// Duty of the left wheel: base speed minus the steering correction, clamped.
pub open spec fn left_duty(base_speed: int, turn: int) -> int {
    clamped_duty(base_speed - turn)
}

/// Clamp `base + turn` into `0..=100` and narrow it to a duty byte.
fn saturate_duty(base_speed: u8, turn: i64) -> (d: u8)
    requires
        i32::MIN <= turn <= -(i32::MIN as i64),
    ensures
        d as int == clamped_duty(base_speed as int + turn as int),
{
    let v: i64 = base_speed as i64 + turn;
    if v < 0 {
        0
    } else if v > DUTY_MAX as i64 {
        DUTY_MAX
    } else {
        v as u8
    }
}

/// Everything the drive mapper decides, as one predicate over its inputs:
/// two false flags force a command-less standby plan; otherwise standby
/// follows the range gate and both motors get their clamped duty, motor A
/// the right one and motor B the left one, directed by their flags.
pub open spec fn plan_matches(
    p: DrivePlan,
    base_speed: int,
    turn: int,
    flag0: bool,
    flag1: bool,
    range_reading: int,
) -> bool {
    &&& (!flag0 && !flag1 ==> p.standby && p.commands is None)
    &&& (flag0 || flag1 ==> p.standby == (range_reading < RANGE_THRESHOLD as int))
    &&& (flag0 || flag1 ==> (p.commands matches Some((a, b)) && a.duty as int == right_duty(
        base_speed,
        turn,
    ) && b.duty as int == left_duty(base_speed, turn) && a.forward == flag0 && b.forward == flag1))
    &&& (p.commands matches Some((a, b)) ==> a.duty <= DUTY_MAX && b.duty <= DUTY_MAX)
}

/// The range gate alone: true exactly when the reading sits below the
/// threshold, irrespective of steering or flags.
pub fn below_range_threshold(range_reading: u16) -> (standby: bool)
    ensures
        standby == (range_reading < RANGE_THRESHOLD),
{
    range_reading < RANGE_THRESHOLD
}

/// Map one cycle's outputs to the actuator. The standby decision comes from
/// the range gate, except that two false flags force standby outright; the
/// direction truth table is reproduced case by case, with motor A taking the
/// right duty and motor B the left duty.
pub fn drive_plan(base_speed: u8, turn: i32, flag0: bool, flag1: bool, range_reading: u16) -> (p:
    DrivePlan)
    ensures
        plan_matches(p, base_speed as int, turn as int, flag0, flag1, range_reading as int),
{
    if !flag0 && !flag1 {
        // Degenerate stop case: the sensor reports no lane marker on either
        // side, so the drive is held in standby whatever the range says.
        DrivePlan { commands: None, standby: true }
    } else {
        let standby = below_range_threshold(range_reading);
        let right = saturate_duty(base_speed, turn as i64);
        let left = saturate_duty(base_speed, -(turn as i64));
        let motor_a = MotorCommand { forward: flag0, duty: right };
        let motor_b = MotorCommand { forward: flag1, duty: left };
        DrivePlan { commands: Some((motor_a, motor_b)), standby }
    }
}

} // verus!
