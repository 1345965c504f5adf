use vstd::prelude::*;
use crate::settings::Settings;

verus! {

/// How long after the last input the user still counts as active, in
/// milliseconds; independent of the settings.
pub const ACTIVE_WINDOW_MS: u64 = 10000;

/// The mutable core, meant to be guarded as one record.
///
/// Times are milliseconds on a monotonic clock chosen by the caller.
#[derive(Clone, Copy, Debug, PartialEq, Eq, Structural)]
pub struct Session {
    /// When the latest input event was seen.
    pub last_activity_ms: u64,
    /// Seconds of continuous work since the last reset.
    pub accumulated_secs: u64,
    /// Break overlays are shown, or about to be.
    pub is_resting: bool,
}

/// Status projected by a tick while working, for the tray tooltip.
#[derive(Clone, Copy, Debug, PartialEq, Eq, Structural)]
pub struct WorkStatus {
    pub elapsed_secs: u64,
    pub active: bool,
}

/// The side effects a tick asks for.
#[derive(Clone, Copy, Debug, PartialEq, Eq, Structural)]
pub struct TickOutcome {
    /// Hide all reminder windows.
    pub hide_reminders: bool,
    /// Show a reminder window on every monitor.
    pub show_reminders: bool,
    /// The tooltip status, present when the tick ends its accrual step working.
    pub status: Option<WorkStatus>,
}

/// Time since the last input; zero if the clock reads earlier than it.
pub open spec fn idle_gap(s: Session, now: u64) -> int {
    if now >= s.last_activity_ms {
        now - s.last_activity_ms
    } else {
        0
    }
}

/// The pause before this tick is long enough to count as a break.
pub open spec fn rest_taken(s: Session, settings: Settings, now: u64) -> bool {
    idle_gap(s, now) > settings.rest_ms()
}

/// One second more of work, held at the counter's largest value.
pub open spec fn one_more_second(a: u64) -> u64 {
    if a < u64::MAX {
        (a + 1) as u64
    } else {
        a
    }
}

/// Resting after the idle-reset step of a tick.
pub open spec fn resting_after_reset(s: Session, settings: Settings, now: u64) -> bool {
    s.is_resting && !rest_taken(s, settings, now)
}

/// Accumulated work after the idle-reset and accrual steps of a tick.
pub open spec fn accrued(s: Session, settings: Settings, now: u64) -> u64 {
    if rest_taken(s, settings, now) {
        0
    } else if s.is_resting {
        s.accumulated_secs
    } else {
        one_more_second(s.accumulated_secs)
    }
}

/// The work threshold is reached on this tick, which starts a break.
pub open spec fn trips(s: Session, settings: Settings, now: u64) -> bool {
    !resting_after_reset(s, settings, now) && accrued(s, settings, now) >= settings.work_secs()
}

/// The state after one tick at time `now`.
pub open spec fn after_tick(s: Session, settings: Settings, now: u64) -> Session {
    if trips(s, settings, now) {
        Session { accumulated_secs: 0, is_resting: true, ..s }
    } else {
        Session {
            accumulated_secs: accrued(s, settings, now),
            is_resting: resting_after_reset(s, settings, now),
            ..s
        }
    }
}

/// The side effects of one tick at time `now`.
pub open spec fn tick_outcome(s: Session, settings: Settings, now: u64) -> TickOutcome {
    TickOutcome {
        hide_reminders: s.is_resting && rest_taken(s, settings, now),
        show_reminders: trips(s, settings, now),
        status: if resting_after_reset(s, settings, now) {
            None
        } else {
            Some(
                WorkStatus {
                    elapsed_secs: accrued(s, settings, now),
                    active: idle_gap(s, now) <= ACTIVE_WINDOW_MS,
                },
            )
        },
    }
}

/// The state after a manual dismissal of the reminder.
pub open spec fn closed(s: Session) -> Session {
    Session { accumulated_secs: 0, is_resting: false, ..s }
}

/// The state after a manual "rest now".
pub open spec fn rest_started(s: Session) -> Session {
    Session { accumulated_secs: 0, is_resting: true, ..s }
}

impl Session {
    /// A fresh session: working, nothing accumulated, last input at `start_ms`.
    pub fn new(start_ms: u64) -> (r: Session)
        ensures
            r.last_activity_ms == start_ms,
            r.accumulated_secs == 0,
            !r.is_resting,
    {
        Session { last_activity_ms: start_ms, accumulated_secs: 0, is_resting: false }
    }

    /// Records an input event seen at `now_ms`.
    pub fn record_activity(&mut self, now_ms: u64)
        ensures
            *final(self) == (Session { last_activity_ms: now_ms, ..*old(self) }),
    {
        self.last_activity_ms = now_ms;
    }

    /// Manual dismissal: back to working with nothing accumulated. The
    /// caller hides all reminder windows.
    pub fn close_reminder(&mut self)
        ensures
            *final(self) == closed(*old(self)),
    {
        self.is_resting = false;
        self.accumulated_secs = 0;
    }

    /// Manual "rest now": resting at once, whatever has accumulated. The
    /// caller shows a reminder window on every monitor.
    pub fn rest_now(&mut self)
        ensures
            *final(self) == rest_started(*old(self)),
    {
        self.is_resting = true;
        self.accumulated_secs = 0;
    }

    /// One tick of the work timer at time `now_ms`: idle reset, accrual,
    /// status projection and threshold trip, in that order.
    pub fn tick(&mut self, settings: &Settings, now_ms: u64) -> (r: TickOutcome)
        ensures
            *final(self) == after_tick(*old(self), *settings, now_ms),
            r == tick_outcome(*old(self), *settings, now_ms),
    {
        let gap: u64 = if now_ms >= self.last_activity_ms {
            now_ms - self.last_activity_ms
        } else {
            0
        };
        let rest_limit: u128 = (settings.rest_time as u128) * 60000;
        let rest_taken = (gap as u128) > rest_limit;
        let mut hide_reminders = false;
        if rest_taken {
            self.accumulated_secs = 0;
            if self.is_resting {
                self.is_resting = false;
                hide_reminders = true;
            }
        }
        if self.is_resting {
            return TickOutcome { hide_reminders, show_reminders: false, status: None };
        }
        if !rest_taken && self.accumulated_secs < u64::MAX {
            self.accumulated_secs = self.accumulated_secs + 1;
        }
        let status = WorkStatus {
            elapsed_secs: self.accumulated_secs,
            active: gap <= ACTIVE_WINDOW_MS,
        };
        let work_limit: u128 = (settings.work_time as u128) * 60;
        let show_reminders = (self.accumulated_secs as u128) >= work_limit;
        if show_reminders {
            self.is_resting = true;
            self.accumulated_secs = 0;
        }
        TickOutcome { hide_reminders, show_reminders, status: Some(status) }
    }
}

/// The state after `n` ticks, one second apart, the first one second after
/// the last input, with no input in between.
pub open spec fn run_without_input(s: Session, settings: Settings, n: nat) -> Session
    decreases n,
{
    if n == 0 {
        s
    } else {
        after_tick(
            run_without_input(s, settings, (n - 1) as nat),
            settings,
            (s.last_activity_ms + n * 1000) as u64,
        )
    }
}

/// Ticks without input, all within the rest threshold, starting from a fresh
/// working state: after `k` ticks exactly `k` seconds have accumulated and the
/// session is still working while `k` is below the work threshold; from the
/// tick that reaches it on, the session is resting.
pub proof fn lemma_steady_accrual(s: Session, settings: Settings, n: nat)
    requires
        settings.wf(),
        !s.is_resting,
        s.accumulated_secs == 0,
        n * 1000 <= settings.rest_ms(),
        s.last_activity_ms + n * 1000 <= u64::MAX,
    ensures
        forall|k: nat|
            k <= n ==> {
                let t = #[trigger] run_without_input(s, settings, k);
                &&& t.last_activity_ms == s.last_activity_ms
                &&& if k < settings.work_secs() {
                    t.accumulated_secs == k && !t.is_resting
                } else {
                    t.is_resting
                }
            },
    decreases n,
{
    if n > 0 {
        lemma_steady_accrual(s, settings, (n - 1) as nat);
        let p = run_without_input(s, settings, (n - 1) as nat);
        let now = (s.last_activity_ms + n * 1000) as u64;
        assert(idle_gap(p, now) == n * 1000);
        assert forall|k: nat| k <= n implies {
            let t = #[trigger] run_without_input(s, settings, k);
            &&& t.last_activity_ms == s.last_activity_ms
            &&& if k < settings.work_secs() {
                t.accumulated_secs == k && !t.is_resting
            } else {
                t.is_resting
            }
        } by {
            if k < n {
            }
        }
    }
}

/// A tick never ends working with the work threshold reached: reaching it
/// starts a break on that same tick.
pub proof fn lemma_working_below_threshold(s: Session, settings: Settings, now: u64)
    ensures
        !after_tick(s, settings, now).is_resting ==> after_tick(s, settings, now).accumulated_secs
            < settings.work_secs(),
{
}

/// Dismissing the reminder twice leaves the same state as dismissing it
/// once: working, with nothing accumulated.
pub proof fn lemma_close_idempotent(s: Session)
    ensures
        closed(closed(s)) == closed(s),
        !closed(s).is_resting,
        closed(s).accumulated_secs == 0,
{
}

/// A long enough pause while working clears the accumulated work on that
/// very tick, whatever it held.
pub proof fn lemma_idle_reset_while_working(s: Session, settings: Settings, now: u64)
    requires
        !s.is_resting,
        rest_taken(s, settings, now),
    ensures
        after_tick(s, settings, now).accumulated_secs == 0,
{
}

/// A long enough pause while resting ends the break on that tick with
/// nothing accumulated, asks once to hide the reminders, and no later tick
/// asks for it again until a new break starts.
pub proof fn lemma_idle_reset_while_resting(
    s: Session,
    settings: Settings,
    now: u64,
    later_settings: Settings,
    later: u64,
)
    requires
        settings.wf(),
        s.is_resting,
        rest_taken(s, settings, now),
    ensures
        !after_tick(s, settings, now).is_resting,
        after_tick(s, settings, now).accumulated_secs == 0,
        tick_outcome(s, settings, now).hide_reminders,
        !tick_outcome(s, settings, now).show_reminders,
        !tick_outcome(after_tick(s, settings, now), later_settings, later).hide_reminders,
{
}

/// The threshold trip is edge-triggered: a tick that starts resting never
/// asks to show the reminders again, and stays resting unless a long enough
/// pause ends the break.
pub proof fn lemma_no_show_while_resting(s: Session, settings: Settings, now: u64)
    requires
        settings.wf(),
        s.is_resting,
    ensures
        !tick_outcome(s, settings, now).show_reminders,
        after_tick(s, settings, now).is_resting == !rest_taken(s, settings, now),
{
}

} // verus!
