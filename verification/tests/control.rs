use linecar::cycle::process_frame;
use linecar::cycle::ready_for_cycle;
use linecar::decode::decode_raw;
use linecar::drive::drive_plan;
use linecar::fault::FaultStage;
use linecar::frame::FrameStrategy;
use linecar::pid::ControlState;

#[test]
fn pid_zero_errors_give_zero_turn() {
    let mut state = ControlState::new();
    for _ in 0..3 {
        let turn = state.step(0);
        assert_eq!(turn, 0);
    }
    assert_eq!(state.integral, 0);
    assert_eq!(state.last_error, 0);
}

#[test]
fn pid_single_step_matches_formula() {
    let mut state = ControlState::new();
    let turn = state.step(10);
    assert_eq!(turn, 5 * 10 + 1 * 10 + 10 * (10 - 0));
    assert_eq!(turn, 160);
    assert_eq!(state.integral, 10);
    assert_eq!(state.last_error, 10);
}

#[test]
fn pid_integral_is_sum_of_errors() {
    let mut state = ControlState::new();
    state.step(3);
    state.step(-5);
    state.step(7);
    assert_eq!(state.integral, 3 - 5 + 7);
    assert_eq!(state.last_error, 7);
}

#[test]
fn pid_negative_error() {
    let mut state = ControlState::new();
    let turn = state.step(-15);
    assert_eq!(turn, 5 * -15 + 1 * -15 + 10 * (-15 - 0));
    assert_eq!(turn, -240);
}

#[test]
fn drive_forward_forward_regardless_of_duty() {
    for turn in [-10000, -1, 0, 1, 10000] {
        let plan = drive_plan(50, turn, true, true, 2500);
        let (a, b) = plan.commands.expect("both flags set must command both motors");
        assert!(a.forward);
        assert!(b.forward);
        assert!(!plan.standby);
    }
}

#[test]
fn drive_mixed_flags_follow_truth_table() {
    let plan = drive_plan(50, 0, true, false, 2500);
    let (a, b) = plan.commands.unwrap();
    assert!(a.forward);
    assert!(!b.forward);

    let plan = drive_plan(50, 0, false, true, 2500);
    let (a, b) = plan.commands.unwrap();
    assert!(!a.forward);
    assert!(b.forward);
}

#[test]
fn drive_double_false_forces_standby_even_in_range() {
    let plan = drive_plan(50, 0, false, false, 2500);
    assert!(plan.standby);
    assert!(plan.commands.is_none());
}

#[test]
fn drive_range_gate_boundary() {
    let below = drive_plan(50, 0, true, true, 1999);
    assert!(below.standby);
    let at = drive_plan(50, 0, true, true, 2000);
    assert!(!at.standby);
}

#[test]
fn drive_duty_saturates_to_documented_range() {
    let plan = drive_plan(50, 100, true, true, 2500);
    let (a, b) = plan.commands.unwrap();
    assert_eq!(a.duty, 100); // right wheel: 50 + 100 clamped
    assert_eq!(b.duty, 0); // left wheel: 50 - 100 clamped

    let plan = drive_plan(50, -30, true, true, 2500);
    let (a, b) = plan.commands.unwrap();
    assert_eq!(a.duty, 20);
    assert_eq!(b.duty, 80);
}

#[test]
fn decode_raw_weighted_sum() {
    let payload = vec![48u8, 48, 0, 0, 0];
    let record = decode_raw(&payload).unwrap();
    assert_eq!(record.error, 5 * 48 + 10 * 48 + 15 * 0 + 20 * 0 + 25 * 0 - 15);
    assert_eq!(record.error, 705);
    assert!(record.flag0);
    assert!(record.flag1);
}

#[test]
fn decode_raw_flags_need_exact_sentinel() {
    let payload = vec![47u8, 49, 1, 2, 3];
    let record = decode_raw(&payload).unwrap();
    assert!(!record.flag0);
    assert!(!record.flag1);
}

#[test]
fn decode_raw_rejects_wrong_length() {
    let payload = vec![48u8, 48, 0, 0];
    let fault = decode_raw(&payload).unwrap_err();
    assert_eq!(fault.stage, FaultStage::Decode);
}

#[test]
fn cycle_advances_state_and_maps_plan() {
    let mut state = ControlState::new();
    let payload = vec![48u8, 48, 0, 0, 0];
    assert!(ready_for_cycle(&state));
    let plan = process_frame(FrameStrategy::FixedWidth, &payload, &mut state, 50, 2500).unwrap();
    assert_eq!(state.integral, 705);
    assert_eq!(state.last_error, 705);
    let turn = 5 * 705 + 1 * 705 + 10 * (705 - 0);
    assert_eq!(turn, 11280);
    let (a, b) = plan.commands.unwrap();
    assert_eq!(a.duty, 100); // 50 + 11280 clamped
    assert_eq!(b.duty, 0); // 50 - 11280 clamped
    assert!(a.forward);
    assert!(b.forward);
    assert!(!plan.standby);
}

#[test]
fn cycle_decode_failure_leaves_state_untouched() {
    let mut state = ControlState::new();
    state.step(9);
    let payload = vec![1u8, 2, 3];
    let fault = process_frame(FrameStrategy::FixedWidth, &payload, &mut state, 50, 2500)
        .unwrap_err();
    assert_eq!(fault.stage, FaultStage::Decode);
    assert_eq!(state.integral, 9);
    assert_eq!(state.last_error, 9);
}

#[test]
fn readiness_guard_spots_exhausted_headroom() {
    let fresh = ControlState::new();
    assert!(ready_for_cycle(&fresh));
    let saturated = ControlState { integral: i32::MAX, last_error: 0 };
    assert!(!ready_for_cycle(&saturated));
    let stale_error = ControlState { integral: 0, last_error: 40000 };
    assert!(!ready_for_cycle(&stale_error));
}
