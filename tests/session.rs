use eyecare::{Session, Settings, TickOutcome, WorkStatus};

fn settings(work_time: u64, rest_time: u64) -> Settings {
    Settings { work_time, rest_time, auto_start: false, language: "en".to_string() }
}

#[test]
fn new_session_is_working_and_empty() {
    let s = Session::new(42);
    assert_eq!(s, Session { last_activity_ms: 42, accumulated_secs: 0, is_resting: false });
}

#[test]
fn ticks_without_input_accrue_one_second_each() {
    let cfg = settings(25, 5);
    let mut s = Session::new(0);
    for k in 1..=300u64 {
        let out = s.tick(&cfg, k * 1000);
        assert_eq!(s.accumulated_secs, k);
        assert!(!s.is_resting);
        assert!(!out.show_reminders);
        assert!(!out.hide_reminders);
    }
}

#[test]
fn close_reminder_twice_equals_once() {
    let mut s = Session { last_activity_ms: 7, accumulated_secs: 99, is_resting: true };
    s.close_reminder();
    let once = s;
    s.close_reminder();
    assert_eq!(s, once);
    assert_eq!(s, Session { last_activity_ms: 7, accumulated_secs: 0, is_resting: false });
}

#[test]
fn idle_reset_while_working_clears_work() {
    let cfg = settings(25, 5);
    let mut s = Session { last_activity_ms: 1000, accumulated_secs: 1200, is_resting: false };
    let out = s.tick(&cfg, 1000 + 300_001);
    assert_eq!(s.accumulated_secs, 0);
    assert!(!s.is_resting);
    assert_eq!(
        out,
        TickOutcome {
            hide_reminders: false,
            show_reminders: false,
            status: Some(WorkStatus { elapsed_secs: 0, active: false }),
        }
    );
}

#[test]
fn gap_equal_to_rest_threshold_still_counts_as_work() {
    let cfg = settings(25, 5);
    let mut s = Session { last_activity_ms: 0, accumulated_secs: 10, is_resting: false };
    s.tick(&cfg, 300_000);
    assert_eq!(s.accumulated_secs, 11);
}

#[test]
fn idle_reset_while_resting_hides_once() {
    let cfg = settings(25, 5);
    let mut s = Session { last_activity_ms: 0, accumulated_secs: 0, is_resting: true };
    let out = s.tick(&cfg, 400_000);
    assert!(out.hide_reminders);
    assert!(!out.show_reminders);
    assert!(!s.is_resting);
    assert_eq!(s.accumulated_secs, 0);
    let next = s.tick(&cfg, 401_000);
    assert!(!next.hide_reminders);
}

#[test]
fn trip_is_edge_triggered() {
    let cfg = settings(1, 5);
    let mut s = Session::new(0);
    let mut shows = 0;
    for t in 1..=200u64 {
        s.record_activity(t * 1000);
        if s.tick(&cfg, t * 1000).show_reminders {
            shows += 1;
            assert_eq!(t, 60);
        }
    }
    assert_eq!(shows, 1);
    assert!(s.is_resting);
}

#[test]
fn continuous_work_trips_at_twenty_five_minutes() {
    let cfg = settings(25, 5);
    let mut s = Session::new(0);
    let mut shows = 0;
    for t in 1..=1499u64 {
        s.record_activity(t * 1000);
        let out = s.tick(&cfg, t * 1000);
        assert!(!out.show_reminders);
        assert!(!s.is_resting);
    }
    s.record_activity(1_500_000);
    let out = s.tick(&cfg, 1_500_000);
    if out.show_reminders {
        shows += 1;
    }
    assert!(s.is_resting);
    assert_eq!(out.status, Some(WorkStatus { elapsed_secs: 1500, active: true }));
    s.record_activity(1_501_000);
    let out = s.tick(&cfg, 1_501_000);
    if out.show_reminders {
        shows += 1;
    }
    assert_eq!(shows, 1);
    assert!(s.is_resting);
    assert_eq!(out.status, None);
}

#[test]
fn resting_without_input_ends_after_rest_threshold() {
    let cfg = settings(25, 5);
    let mut s = Session { last_activity_ms: 0, accumulated_secs: 0, is_resting: true };
    let mut hides = 0;
    for k in 1..=310u64 {
        let out = s.tick(&cfg, k * 1000 + 5);
        if out.hide_reminders {
            hides += 1;
            assert_eq!(k, 300);
        }
        assert!(!out.show_reminders);
    }
    assert_eq!(hides, 1);
    assert!(!s.is_resting);
    assert_eq!(s.accumulated_secs, 0);
}

#[test]
fn rest_now_starts_a_break_immediately() {
    let cfg = settings(25, 5);
    let mut s = Session { last_activity_ms: 0, accumulated_secs: 30, is_resting: false };
    s.rest_now();
    assert!(s.is_resting);
    assert_eq!(s.accumulated_secs, 0);
    s.record_activity(1000);
    let out = s.tick(&cfg, 1000);
    assert!(!out.show_reminders);
    assert!(s.is_resting);
}

#[test]
fn active_indicator_uses_ten_second_window() {
    let cfg = settings(25, 5);
    let mut s = Session::new(0);
    let out = s.tick(&cfg, 10_000);
    assert_eq!(out.status, Some(WorkStatus { elapsed_secs: 1, active: true }));
    let out = s.tick(&cfg, 10_001);
    assert_eq!(out.status, Some(WorkStatus { elapsed_secs: 2, active: false }));
}

#[test]
fn clock_before_last_activity_counts_as_no_gap() {
    let cfg = settings(25, 5);
    let mut s = Session::new(5000);
    let out = s.tick(&cfg, 1000);
    assert_eq!(out.status, Some(WorkStatus { elapsed_secs: 1, active: true }));
}

#[test]
fn counter_holds_at_its_largest_value() {
    let cfg = settings(u64::MAX, u64::MAX);
    let mut s = Session { last_activity_ms: 0, accumulated_secs: u64::MAX, is_resting: false };
    let out = s.tick(&cfg, 1000);
    assert_eq!(s.accumulated_secs, u64::MAX);
    assert!(!out.show_reminders);
}
