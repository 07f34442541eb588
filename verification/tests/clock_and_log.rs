use spectrusty::clock::FrameClock;
use spectrusty::event_log::EventLog;
use spectrusty::ula::{contention_delay, nanos_from_frame_tc_cpu_hz};

#[test]
fn clock_wraps_to_zero_and_counts_frames() {
    let mut clock = FrameClock::new(2000);
    assert_eq!(clock.current_frame(), 0);
    assert_eq!(clock.current_tstate(), 0);
    assert!(!clock.is_frame_over());
    let overshoot = clock.advance(1000);
    assert_eq!(overshoot, 0);
    assert_eq!(clock.current_tstate(), 1000);
    let overshoot = clock.advance(1000);
    assert_eq!(overshoot, 0);
    assert!(clock.is_frame_over());
    clock.advance_to_next_frame();
    assert_eq!(clock.current_tstate(), 0);
    assert_eq!(clock.current_frame(), 1);
}

#[test]
fn clock_advance_reports_overshoot() {
    let mut clock = FrameClock::new(2000);
    clock.set_position(1990);
    let overshoot = clock.advance(30);
    assert_eq!(overshoot, 20);
    assert!(clock.is_frame_over());
    clock.advance_to_next_frame();
    assert_eq!(clock.current_frame(), 1);
    assert_eq!(clock.current_tstate(), 0);
}

#[test]
fn contention_delay_follows_fetch_window() {
    // At the window start the ladder begins at six and steps down to
    // zero over eight cycles, then repeats.
    assert_eq!(contention_delay(14335, 14335, 192, 224), 6);
    assert_eq!(contention_delay(14336, 14335, 192, 224), 5);
    assert_eq!(contention_delay(14337, 14335, 192, 224), 4);
    assert_eq!(contention_delay(14338, 14335, 192, 224), 3);
    assert_eq!(contention_delay(14339, 14335, 192, 224), 2);
    assert_eq!(contention_delay(14340, 14335, 192, 224), 1);
    assert_eq!(contention_delay(14341, 14335, 192, 224), 0);
    assert_eq!(contention_delay(14342, 14335, 192, 224), 0);
    assert_eq!(contention_delay(14343, 14335, 192, 224), 6);
    // Before the window, in a line's idle part, and past the last line
    // there is no contention.
    assert_eq!(contention_delay(14334, 14335, 192, 224), 0);
    assert_eq!(contention_delay(14335 + 128, 14335, 192, 224), 0);
    assert_eq!(contention_delay(14335 + 192 * 224, 14335, 192, 224), 0);
}

#[test]
fn frame_duration_formula() {
    assert_eq!(nanos_from_frame_tc_cpu_hz(70908, 3_546_900), 19_991_541);
    assert_eq!(nanos_from_frame_tc_cpu_hz(69888, 3_500_000), 19_968_000);
}

#[test]
fn event_log_appends_and_clears() {
    let mut log = EventLog::new();
    assert!(log.is_empty());
    log.push(3, 10);
    log.push(3, 11);
    log.push(9, 12);
    assert_eq!(log.len(), 3);
    assert_eq!(log.entry(0).ts, 3);
    assert_eq!(log.entry(0).data, 10);
    assert_eq!(log.entry(1).ts, 3);
    assert_eq!(log.entry(2).ts, 9);
    assert!(log.entry(0).ts <= log.entry(1).ts && log.entry(1).ts <= log.entry(2).ts);
    log.clear();
    assert!(log.is_empty());
    assert_eq!(log.len(), 0);
}
