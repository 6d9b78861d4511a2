//! The countdown engine: hours, minutes and seconds remaining, a
//! running/paused/idle status, and the two configurable durations.
//!
//! The engine advances by exactly one second per tick.  Expiry can be
//! handled by either of two rules, each under its own method:
//!
//! * [`Countdown::advance`] — when the minutes are exhausted the countdown
//!   has expired and the engine performs a full reset to the configured
//!   duration of the current mode (the reset rule);
//! * [`Countdown::advance_borrow`] — an exhausted minute borrows from the
//!   hours, and only a fully exhausted countdown resets (the borrow rule).

use vstd::prelude::*;

verus! {

/// The two presets a countdown can run under, each with its own
/// configured duration in minutes.
#[derive(Clone, Copy, Debug, PartialEq, Eq, Structural)]
pub enum AppMode {
    Work,
    Watch,
}

/// What the engine is currently doing.  The external tick source is armed
/// exactly while the engine is `Running`.
#[derive(Clone, Copy, Debug, PartialEq, Eq, Structural)]
pub enum Status {
    Idle,
    Running,
    Paused,
}

/// Default work duration, in minutes.
pub const DEFAULT_WORK_MINUTES: i32 = 50;

/// Default watch duration, in minutes.
pub const DEFAULT_WATCH_MINUTES: i32 = 25;

/// The countdown engine's whole state.  All fields are plain values; the
/// tick source itself lives outside the library and is armed or disarmed
/// by the caller so that `status is Running <==> the source is armed`.
#[derive(Clone, Copy, Debug, PartialEq, Eq, Structural)]
pub struct Countdown {
    /// Seconds remaining; always within `[0, 59]` (see [`Countdown::wf`]).
    pub second: i32,
    /// Minutes remaining.
    pub minute: i32,
    /// Hours remaining.
    pub hour: i32,
    /// Configured duration of the `Work` mode, in minutes.
    pub work: i32,
    /// Configured duration of the `Watch` mode, in minutes.
    pub watch: i32,
    /// The preset the countdown currently runs under.
    pub mode: AppMode,
    /// Running, paused, or idle.
    pub status: Status,
}

impl Countdown {
    /// The engine's invariant: the seconds field stays within one minute.
    pub open spec fn wf(self) -> bool {
        0 <= self.second <= 59
    }

    /// The stronger invariant of the borrowing engine, whose whole
    /// remaining time and configured durations are non-negative.
    pub open spec fn wf_borrow(self) -> bool {
        &&& self.wf()
        &&& self.minute >= 0
        &&& self.hour >= 0
        &&& self.work >= 0
        &&& self.watch >= 0
    }

    /// The configured duration, in minutes, of the given mode.
    pub open spec fn duration_of(self, mode: AppMode) -> i32 {
        match mode {
            AppMode::Work => self.work,
            AppMode::Watch => self.watch,
        }
    }

    /// The state after a reset: idle, with the full configured duration of
    /// the current mode ahead of it.
    pub open spec fn spec_reset(self) -> Countdown {
        Countdown {
            second: 0,
            minute: self.duration_of(self.mode),
            hour: 0,
            status: Status::Idle,
            ..self
        }
    }

    /// One tick under the reset rule: seconds count down, an exhausted
    /// minute is borrowed one level up, and an exhausted countdown resets.
    pub open spec fn spec_advance(self) -> Countdown {
        if self.second > 0 {
            Countdown { second: (self.second - 1) as i32, ..self }
        } else if self.minute == 0 {
            self.spec_reset()
        } else {
            Countdown { second: 59, minute: (self.minute - 1) as i32, ..self }
        }
    }

    /// One tick under the borrow rule: an exhausted minute borrows from the
    /// hours, and only a fully exhausted countdown resets.
    pub open spec fn spec_advance_borrow(self) -> Countdown {
        if self.second > 0 {
            Countdown { second: (self.second - 1) as i32, ..self }
        } else if self.minute > 0 {
            Countdown { second: 59, minute: (self.minute - 1) as i32, ..self }
        } else if self.hour > 0 {
            Countdown { second: 59, minute: 59, hour: (self.hour - 1) as i32, ..self }
        } else {
            self.spec_reset()
        }
    }

    /// A fresh engine: idle, in `Work` mode, with the work duration ahead
    /// of it.
    pub fn new(work: i32, watch: i32) -> (c: Countdown)
        ensures
            c == (Countdown {
                second: 0,
                minute: work,
                hour: 0,
                work,
                watch,
                mode: AppMode::Work,
                status: Status::Idle,
            }),
    {
        Countdown {
            second: 0,
            minute: work,
            hour: 0,
            work,
            watch,
            mode: AppMode::Work,
            status: Status::Idle,
        }
    }

    /// Deliver one tick under the reset rule.  The one machine limit is
    /// that a minute about to be borrowed must not sit at the very bottom
    /// of the integer range.
    pub fn advance(&mut self)
        requires
            old(self).wf(),
            old(self).minute > i32::MIN,
        ensures
            *final(self) == old(self).spec_advance(),
            final(self).wf(),
    {
        if self.second > 0 {
            self.second = self.second - 1;
        } else if self.minute == 0 {
            self.reset();
        } else {
            self.second = 59;
            self.minute = self.minute - 1;
        }
    }

    /// Deliver one tick under the borrow rule.
    pub fn advance_borrow(&mut self)
        requires
            old(self).wf_borrow(),
        ensures
            *final(self) == old(self).spec_advance_borrow(),
            final(self).wf(),
    {
        if self.second > 0 {
            self.second = self.second - 1;
        } else if self.minute > 0 {
            self.second = 59;
            self.minute = self.minute - 1;
        } else if self.hour > 0 {
            self.second = 59;
            self.minute = 59;
            self.hour = self.hour - 1;
        } else {
            self.reset();
        }
    }

    /// Stop the countdown and restore the configured duration of the
    /// current mode: zero hours and seconds, the mode's minutes, idle.
    pub fn reset(&mut self)
        ensures
            *final(self) == old(self).spec_reset(),
            final(self).wf(),
    {
        self.second = 0;
        self.hour = 0;
        self.minute = match self.mode {
            AppMode::Work => self.work,
            AppMode::Watch => self.watch,
        };
        self.status = Status::Idle;
    }

    /// Start or resume the countdown without touching the elapsed time;
    /// idempotent while already running.
    pub fn start(&mut self)
        ensures
            *final(self) == (Countdown { status: Status::Running, ..*old(self) }),
    {
        self.status = Status::Running;
    }

    /// The status after one press of the start/pause/continue button:
    /// a running countdown pauses, any other one runs.
    pub open spec fn spec_toggled_status(self) -> Status {
        match self.status {
            Status::Running => Status::Paused,
            Status::Paused => Status::Running,
            Status::Idle => Status::Running,
        }
    }

    /// Toggle between running and paused (an idle countdown starts),
    /// leaving the remaining time untouched.
    pub fn pause_or_resume(&mut self)
        ensures
            *final(self) == (Countdown { status: old(self).spec_toggled_status(), ..*old(self) }),
    {
        self.status = match self.status {
            Status::Running => Status::Paused,
            Status::Paused => Status::Running,
            Status::Idle => Status::Running,
        };
    }

    /// The state after selecting a mode: idle, with the new mode's full
    /// configured duration ahead of it, whatever the countdown was doing.
    pub open spec fn spec_set_mode(self, mode: AppMode) -> Countdown {
        Countdown {
            second: 0,
            minute: self.duration_of(mode),
            hour: 0,
            mode,
            status: Status::Idle,
            ..self
        }
    }

    /// Select a mode and immediately reset to its configured duration,
    /// whatever the countdown was doing before.
    pub fn set_mode(&mut self, mode: AppMode)
        ensures
            *final(self) == old(self).spec_set_mode(mode),
            final(self).wf(),
    {
        self.mode = mode;
        self.reset();
    }

    /// Replace the configured work duration; the remaining time is not
    /// touched until the next reset.
    pub fn set_work(&mut self, work: i32)
        ensures
            *final(self) == (Countdown { work, ..*old(self) }),
    {
        self.work = work;
    }

    /// Replace the configured watch duration; the remaining time is not
    /// touched until the next reset.
    pub fn set_watch(&mut self, watch: i32)
        ensures
            *final(self) == (Countdown { watch, ..*old(self) }),
    {
        self.watch = watch;
    }

    /// The label of the start/pause/continue button names the next action.
    pub open spec fn spec_label(self) -> Seq<char> {
        match self.status {
            Status::Idle => "Start"@,
            Status::Running => "Pause"@,
            Status::Paused => "Continue"@,
        }
    }

    /// The label of the start/pause/continue button.
    pub fn label(&self) -> (r: &'static str)
        ensures
            r@ == self.spec_label(),
    {
        match self.status {
            Status::Idle => "Start",
            Status::Running => "Pause",
            Status::Paused => "Continue",
        }
    }

    /// Whether the external tick source must be armed.
    pub open spec fn spec_armed(self) -> bool {
        self.status is Running
    }

    /// Whether the external tick source must be armed: exactly while the
    /// countdown is running.
    pub fn armed(&self) -> (r: bool)
        ensures
            r == self.spec_armed(),
    {
        match self.status {
            Status::Running => true,
            _ => false,
        }
    }
}

/// The state after `n` ticks under the reset rule.
pub open spec fn spec_advance_n(c: Countdown, n: nat) -> Countdown
    decreases n,
{
    if n == 0 {
        c
    } else {
        spec_advance_n(c.spec_advance(), (n - 1) as nat)
    }
}

/// The state after `n` ticks under the borrow rule.
pub open spec fn spec_advance_borrow_n(c: Countdown, n: nat) -> Countdown
    decreases n,
{
    if n == 0 {
        c
    } else {
        spec_advance_borrow_n(c.spec_advance_borrow(), (n - 1) as nat)
    }
}

/// Whatever number of ticks a well-formed countdown receives, the seconds
/// stay within `[0, 59]`.
pub proof fn lemma_ticks_preserve_wf(c: Countdown, n: nat)
    requires
        c.wf(),
    ensures
        spec_advance_n(c, n).wf(),
    decreases n,
{
    if n > 0 {
        lemma_ticks_preserve_wf(c.spec_advance(), (n - 1) as nat);
    }
}

/// The borrow rule keeps its stronger invariant as well: seconds within
/// `[0, 59]`, and minutes and hours never negative.
pub proof fn lemma_borrow_ticks_preserve_wf(c: Countdown, n: nat)
    requires
        c.wf_borrow(),
    ensures
        spec_advance_borrow_n(c, n).wf_borrow(),
    decreases n,
{
    if n > 0 {
        lemma_borrow_ticks_preserve_wf(c.spec_advance_borrow(), (n - 1) as nat);
    }
}

/// While the seconds last, ticks only count the seconds down: `n` ticks
/// subtract `n` from the seconds field and touch nothing else.
pub proof fn lemma_ticks_within_minute(c: Countdown, n: nat)
    requires
        c.wf(),
        n <= c.second,
    ensures
        spec_advance_n(c, n) == (Countdown { second: (c.second - n) as i32, ..c }),
    decreases n,
{
    if n > 0 {
        lemma_ticks_within_minute(c.spec_advance(), (n - 1) as nat);
    }
}

/// Sixty ticks under the reset rule turn a countdown standing at a full
/// minute boundary into the same countdown one minute lower.
pub proof fn lemma_sixty_ticks_drop_one_minute(c: Countdown)
    requires
        c.wf(),
        c.second == 0,
        c.minute >= 1,
    ensures
        spec_advance_n(c, 60) == (Countdown { minute: (c.minute - 1) as i32, ..c }),
{
    let c1 = c.spec_advance();
    lemma_ticks_within_minute(c1, 59);
}

/// The borrow-rule counterpart of [`lemma_ticks_within_minute`].
pub proof fn lemma_borrow_ticks_within_minute(c: Countdown, n: nat)
    requires
        c.wf(),
        n <= c.second,
    ensures
        spec_advance_borrow_n(c, n) == (Countdown { second: (c.second - n) as i32, ..c }),
    decreases n,
{
    if n > 0 {
        lemma_borrow_ticks_within_minute(c.spec_advance_borrow(), (n - 1) as nat);
    }
}

/// Sixty ticks under the borrow rule behave the same way while minutes
/// remain: the countdown drops exactly one minute.
pub proof fn lemma_borrow_sixty_ticks_drop_one_minute(c: Countdown)
    requires
        c.wf(),
        c.second == 0,
        c.minute >= 1,
    ensures
        spec_advance_borrow_n(c, 60) == (Countdown { minute: (c.minute - 1) as i32, ..c }),
{
    let c1 = c.spec_advance_borrow();
    lemma_borrow_ticks_within_minute(c1, 59);
}

/// Where the two rules diverge, the reset rule: a tick on a countdown
/// whose minutes and seconds are exhausted is a full reset, regardless of
/// the hours.
pub proof fn lemma_tick_on_expiry_resets(c: Countdown)
    requires
        c.second == 0,
        c.minute == 0,
    ensures
        c.spec_advance() == c.spec_reset(),
{
}

/// Where the two rules diverge, the borrow rule: a tick on a countdown
/// whose minutes and seconds are exhausted borrows a whole minute from the
/// hours while any remain.
pub proof fn lemma_borrow_tick_on_expiry_borrows_hour(c: Countdown)
    requires
        c.second == 0,
        c.minute == 0,
        c.hour >= 1,
    ensures
        c.spec_advance_borrow() == (Countdown {
            second: 59,
            minute: 59,
            hour: (c.hour - 1) as i32,
            ..c
        }),
{
}

/// Two countdowns agree on everything a tick can read: the remaining time,
/// the mode and the configured durations.  The status may differ.
pub open spec fn same_face(a: Countdown, b: Countdown) -> bool {
    &&& a.second == b.second
    &&& a.minute == b.minute
    &&& a.hour == b.hour
    &&& a.mode == b.mode
    &&& a.work == b.work
    &&& a.watch == b.watch
}

/// Ticking is deterministic in what it can read: two countdowns that agree
/// on remaining time, mode and durations run through the same sequence of
/// remaining times, however many ticks are delivered.
pub proof fn lemma_tick_determinism(a: Countdown, b: Countdown, n: nat)
    requires
        same_face(a, b),
    ensures
        same_face(spec_advance_n(a, n), spec_advance_n(b, n)),
    decreases n,
{
    if n > 0 {
        lemma_tick_determinism(a.spec_advance(), b.spec_advance(), (n - 1) as nat);
    }
}

/// A reset countdown replays a fresh one: after `reset()`, `n` ticks show
/// the same remaining time as `n` ticks shown by a brand-new engine that
/// was configured the same way, switched to the same mode and started.
pub proof fn lemma_reset_replays_fresh_start(c: Countdown, n: nat)
    ensures
        same_face(
            spec_advance_n(c.spec_reset(), n),
            spec_advance_n(
                Countdown {
                    second: 0,
                    minute: c.duration_of(c.mode),
                    hour: 0,
                    work: c.work,
                    watch: c.watch,
                    mode: c.mode,
                    status: Status::Running,
                },
                n,
            ),
        ),
{
    let fresh = Countdown {
        second: 0,
        minute: c.duration_of(c.mode),
        hour: 0,
        work: c.work,
        watch: c.watch,
        mode: c.mode,
        status: Status::Running,
    };
    lemma_tick_determinism(c.spec_reset(), fresh, n);
}

} // verus!
