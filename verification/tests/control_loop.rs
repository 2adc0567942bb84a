use dev_monitor::control::{decide, select_duty, ControlState, DutyDecision};

#[test]
fn threshold_table_reference_points() {
    assert_eq!(select_duty(85_000), 100);
    assert_eq!(select_duty(70_000), 30);
    assert_eq!(select_duty(40_000), 0);
}

#[test]
fn threshold_table_boundaries() {
    assert_eq!(select_duty(80_000), 30);
    assert_eq!(select_duty(80_001), 100);
    assert_eq!(select_duty(60_000), 0);
    assert_eq!(select_duty(60_001), 30);
    assert_eq!(select_duty(0), 0);
    assert_eq!(select_duty(u32::MAX), 100);
}

#[test]
fn a_tick_without_a_sample_holds_the_duty() {
    let d = decide(30, None);
    assert_eq!(d.new_duty, 30);
    assert!(!d.write_needed);
}

#[test]
fn a_tick_writes_only_when_the_duty_changes() {
    let d = decide(30, Some(85_000));
    assert_eq!(d.new_duty, 100);
    assert!(d.write_needed);
    let same = decide(30, Some(70_000));
    assert_eq!(same.new_duty, 30);
    assert!(!same.write_needed);
}

#[test]
fn committed_duty_makes_the_next_tick_a_no_op() {
    let mut state = ControlState::new(30);
    let first = decide(30, Some(85_000));
    assert!(first.write_needed);
    state.commit(&first, true);
    assert_eq!(state.last_duty(), 100);
    let second = decide(state.last_duty(), Some(85_000));
    assert!(!second.write_needed);
}

#[test]
fn a_failed_write_keeps_the_old_state() {
    let mut state = ControlState::new(30);
    let d = DutyDecision { new_duty: 100, write_needed: true };
    state.commit(&d, false);
    assert_eq!(state.last_duty(), 30);
    let next = decide(state.last_duty(), Some(40_000));
    assert_eq!(next.new_duty, 0);
    assert!(next.write_needed);
}
