use vstd::prelude::*;

verus! {

/// Minutes of continuous work after which a break is forced, by default.
pub const DEFAULT_WORK_MINUTES: u64 = 40;

/// Minutes of inactivity that count as a completed break, by default.
pub const DEFAULT_REST_MINUTES: u64 = 5;

/// The configuration that the state machine and its collaborators read.
///
/// Thresholds are whole minutes. The overlay opacity is cosmetic and is kept
/// by the application shell, next to this record.
#[derive(Clone, Debug)]
pub struct Settings {
    pub work_time: u64,
    pub rest_time: u64,
    pub auto_start: bool,
    pub language: String,
}

impl Settings {
    /// The work threshold in seconds.
    pub open spec fn work_secs(&self) -> int {
        self.work_time * 60
    }

    /// The rest threshold in milliseconds.
    pub open spec fn rest_ms(&self) -> int {
        self.rest_time * 60000
    }

    /// Thresholds are positive.
    pub open spec fn wf(&self) -> bool {
        self.work_time > 0 && self.rest_time > 0
    }
}

impl Default for Settings {
    fn default() -> (r: Settings)
        ensures
            r.work_time == DEFAULT_WORK_MINUTES,
            r.rest_time == DEFAULT_REST_MINUTES,
            !r.auto_start,
            r.language@ == "zh-CN"@,
            r.wf(),
    {
        Settings {
            work_time: DEFAULT_WORK_MINUTES,
            rest_time: DEFAULT_REST_MINUTES,
            auto_start: false,
            language: String::from_str("zh-CN"),
        }
    }
}

/// What the shell must do after new settings were applied, beyond pushing
/// them to visible reminder windows and persisting them (always done).
#[derive(Clone, Copy, Debug, PartialEq, Eq, Structural)]
pub struct SettingsUpdate {
    /// Reload the locale strings and relabel the tray menu.
    pub reload_locale: bool,
    /// The autostart registration to synchronise with.
    pub auto_start: bool,
}

/// Replaces the settings wholesale and reports the follow-up work: the
/// locale is reloaded exactly when the language changed.
pub fn apply_settings(current: &mut Settings, new: Settings) -> (r: SettingsUpdate)
    ensures
        *final(current) == new,
        r.reload_locale == (old(current).language@ != new.language@),
        r.auto_start == new.auto_start,
{
    let changed = current.language != new.language;
    let auto_start = new.auto_start;
    *current = new;
    SettingsUpdate { reload_locale: changed, auto_start }
}

} // verus!
