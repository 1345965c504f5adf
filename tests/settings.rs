use eyecare::{apply_settings, Settings, SettingsUpdate};

#[test]
fn default_settings() {
    let s = Settings::default();
    assert_eq!(s.work_time, 40);
    assert_eq!(s.rest_time, 5);
    assert!(!s.auto_start);
    assert_eq!(s.language, "zh-CN");
}

#[test]
fn language_change_asks_for_one_locale_reload() {
    let mut current = Settings::default();
    let mut new = current.clone();
    new.language = "en".to_string();
    let update = apply_settings(&mut current, new);
    assert_eq!(update, SettingsUpdate { reload_locale: true, auto_start: false });
    assert_eq!(current.language, "en");
}

#[test]
fn unchanged_language_asks_for_no_reload() {
    let mut current = Settings::default();
    let mut new = current.clone();
    new.work_time = 30;
    new.auto_start = true;
    let update = apply_settings(&mut current, new);
    assert_eq!(update, SettingsUpdate { reload_locale: false, auto_start: true });
    assert_eq!(current.work_time, 30);
    assert!(current.auto_start);
}
