use wifi_tank::motors::{MotorDriver, MotorDriverState, Motors, MotorsState};

fn fresh_motors() -> Motors {
    Motors::new(MotorDriver::new(), MotorDriver::new())
}

fn bridge_safe(d: &MotorDriver) -> bool {
    !((d.forward_a || d.forward_b) && (d.reverse_a || d.reverse_b))
}

#[test]
fn new_driver_is_stopped_with_all_lines_low() {
    let d = MotorDriver::new();
    assert_eq!(d.state, MotorDriverState::Stopped);
    assert!(!d.forward_a && !d.forward_b && !d.reverse_a && !d.reverse_b);
    assert_eq!(d.write_count, 1);
}

#[test]
fn driver_forward_asserts_only_forward_lines() {
    let mut d = MotorDriver::new();
    d.forward();
    assert_eq!(d.state, MotorDriverState::Forward);
    assert!(d.forward_a && d.forward_b);
    assert!(!d.reverse_a && !d.reverse_b);
    assert_eq!(d.write_count, 2);
}

#[test]
fn driver_backward_asserts_only_reverse_lines() {
    let mut d = MotorDriver::new();
    d.backward();
    assert_eq!(d.state, MotorDriverState::Reverse);
    assert!(!d.forward_a && !d.forward_b);
    assert!(d.reverse_a && d.reverse_b);
}

#[test]
fn driver_stop_clears_all_lines() {
    let mut d = MotorDriver::new();
    d.forward();
    d.stop();
    assert_eq!(d.state, MotorDriverState::Stopped);
    assert!(!d.forward_a && !d.forward_b && !d.reverse_a && !d.reverse_b);
}

#[test]
fn driver_never_shorts_the_bridge() {
    let mut d = MotorDriver::new();
    assert!(bridge_safe(&d));
    d.forward();
    assert!(bridge_safe(&d));
    d.backward();
    assert!(bridge_safe(&d));
    d.forward();
    assert!(bridge_safe(&d));
    d.stop();
    assert!(bridge_safe(&d));
    d.backward();
    assert!(bridge_safe(&d));
}

#[test]
fn new_motors_report_stopped_without_extra_writes() {
    let m = fresh_motors();
    assert_eq!(m.state, MotorsState::Stopped);
    assert_eq!(m.left_motor.state, MotorDriverState::Stopped);
    assert_eq!(m.right_motor.state, MotorDriverState::Stopped);
    assert_eq!(m.left_motor.write_count, 1);
    assert_eq!(m.right_motor.write_count, 1);
}

#[test]
fn repeated_commands_issue_no_second_write() {
    let mut m = fresh_motors();

    m.forward();
    let after_first = m;
    m.forward();
    assert_eq!(m, after_first);
    assert_eq!(m.left_motor.write_count, after_first.left_motor.write_count);
    assert_eq!(m.right_motor.write_count, after_first.right_motor.write_count);

    m.backward();
    let after_first = m;
    m.backward();
    assert_eq!(m, after_first);

    m.left();
    let after_first = m;
    m.left();
    assert_eq!(m, after_first);

    m.right();
    let after_first = m;
    m.right();
    assert_eq!(m, after_first);

    m.stop();
    let after_first = m;
    m.stop();
    assert_eq!(m, after_first);
}

#[test]
fn first_command_issues_one_write_per_channel() {
    let mut m = fresh_motors();
    let before = m.left_motor.write_count;
    m.forward();
    assert_eq!(m.left_motor.write_count, before + 1);
    assert_eq!(m.right_motor.write_count, before + 1);
    m.forward();
    assert_eq!(m.left_motor.write_count, before + 1);
    assert_eq!(m.right_motor.write_count, before + 1);
}

#[test]
fn left_pivots_with_reverse_forward_pair() {
    let mut m = fresh_motors();
    m.left();
    assert_eq!(m.state, MotorsState::Left);
    assert_eq!(m.left_motor.state, MotorDriverState::Reverse);
    assert_eq!(m.right_motor.state, MotorDriverState::Forward);
}

#[test]
fn right_pivots_with_the_mirrored_pair() {
    let mut m = fresh_motors();
    m.right();
    assert_eq!(m.state, MotorsState::Right);
    assert_eq!(m.left_motor.state, MotorDriverState::Forward);
    assert_eq!(m.right_motor.state, MotorDriverState::Reverse);
}

#[test]
fn forward_and_backward_drive_both_channels_equally() {
    let mut m = fresh_motors();
    m.forward();
    assert_eq!(m.left_motor.state, m.right_motor.state);
    assert_eq!(m.left_motor.state, MotorDriverState::Forward);
    m.backward();
    assert_eq!(m.left_motor.state, m.right_motor.state);
    assert_eq!(m.left_motor.state, MotorDriverState::Reverse);
}

#[test]
fn every_transition_keeps_both_channels_safe() {
    let mut m = fresh_motors();
    m.forward();
    m.left();
    m.right();
    m.backward();
    m.stop();
    m.right();
    assert!(bridge_safe(&m.left_motor));
    assert!(bridge_safe(&m.right_motor));
    assert_eq!(m.state, MotorsState::Right);
}
