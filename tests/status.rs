use eyecare::{decimal_text, first_locale, format_elapsed, work_tooltip, WorkStatus, BUILTIN_LOCALE};

#[test]
fn elapsed_is_zero_padded() {
    assert_eq!(format_elapsed(0), "00:00:00");
    assert_eq!(format_elapsed(5), "00:00:05");
    assert_eq!(format_elapsed(3661), "01:01:01");
    assert_eq!(format_elapsed(1500), "00:25:00");
}

#[test]
fn elapsed_hours_grow_past_two_digits() {
    assert_eq!(format_elapsed(360_000), "100:00:00");
    assert_eq!(format_elapsed(u64::MAX), format!("{:02}:{:02}:{:02}", u64::MAX / 3600, (u64::MAX % 3600) / 60, u64::MAX % 60));
}

#[test]
fn decimal_numerals() {
    assert_eq!(decimal_text(0), "0");
    assert_eq!(decimal_text(9), "9");
    assert_eq!(decimal_text(10), "10");
    assert_eq!(decimal_text(1234567890), "1234567890");
}

#[test]
fn english_tooltip() {
    let v = first_locale(&vec![BUILTIN_LOCALE.to_string()]).unwrap();
    let active = WorkStatus { elapsed_secs: 65, active: true };
    assert_eq!(work_tooltip(&v, "en", active), "Work Duration: 00:01:05 (Active)");
    let idle = WorkStatus { elapsed_secs: 65, active: false };
    assert_eq!(work_tooltip(&v, "en", idle), "Work Duration: 00:01:05 (Idle)");
}

#[test]
fn chinese_tooltip_with_missing_label() {
    let v: serde_json::Value = serde_json::from_str("{}").unwrap();
    let active = WorkStatus { elapsed_secs: 3600, active: true };
    assert_eq!(work_tooltip(&v, "zh-CN", active), "tray.work_timer: 01:00:00 (活跃)");
    let idle = WorkStatus { elapsed_secs: 3600, active: false };
    assert_eq!(work_tooltip(&v, "zh-CN", idle), "tray.work_timer: 01:00:00 (空闲)");
}
