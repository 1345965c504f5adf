//! Core of a break reminder: the work-time state machine that decides when
//! full-screen break overlays are shown and hidden, the settings it reads,
//! and the pure helpers around it (status text, locale lookup).

mod json;
mod locale;
mod session;
mod settings;
mod status;

pub use json::{json_nodes, json_parse, member_nodes};
pub use locale::{
    base_language, candidates, dev_names, first_locale, follow, get_l10n_string, localized,
    locale_candidates, locale_file_names, locale_resource_names, resource_names, split_dots,
    texts, tray_labels, TrayLabels, BUILTIN_LOCALE,
};
pub use session::{
    accrued, after_tick, closed, idle_gap, lemma_close_idempotent, lemma_idle_reset_while_resting,
    lemma_idle_reset_while_working, lemma_no_show_while_resting, lemma_steady_accrual, lemma_working_below_threshold,
    one_more_second, rest_started, rest_taken, resting_after_reset, run_without_input,
    tick_outcome, trips, Session, TickOutcome, WorkStatus, ACTIVE_WINDOW_MS,
};
pub use settings::{
    apply_settings, Settings, SettingsUpdate, DEFAULT_REST_MINUTES, DEFAULT_WORK_MINUTES,
};
pub use status::{
    activity_suffix, clock_text, decimal, decimal_text, digit, format_elapsed, tooltip_text,
    two_digits, work_tooltip,
};
