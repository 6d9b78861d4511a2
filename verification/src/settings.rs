//! The duration settings: two independently adjustable integers, and the
//! screen that edits a private copy of them.
//!
//! Edits stay local to the settings screen until it signals "back"; going
//! back always commits the edited values to the application root — there
//! is no separate cancel.  No floor or ceiling is placed on a duration:
//! only the machine's integer range bounds an adjustment.

use crate::app::AppMsg;
use crate::countdown::DEFAULT_WATCH_MINUTES;
use crate::countdown::DEFAULT_WORK_MINUTES;
use crate::theme::AppTheme;
use vstd::prelude::*;

verus! {

/// Which of the two configured durations an adjustment targets.
#[derive(Clone, Copy, Debug, PartialEq, Eq, Structural)]
pub enum DurationField {
    Work,
    Watch,
}

/// The two configured durations, in minutes.
#[derive(Clone, Copy, Debug, PartialEq, Eq, Structural)]
pub struct Durations {
    /// Minutes of a work countdown.
    pub work: i32,
    /// Minutes of a watch countdown.
    pub watch: i32,
}

impl Durations {
    /// The value of the given field.
    pub open spec fn spec_get(self, field: DurationField) -> i32 {
        match field {
            DurationField::Work => self.work,
            DurationField::Watch => self.watch,
        }
    }

    /// The durations with `delta` added to the given field.
    pub open spec fn spec_adjusted(self, field: DurationField, delta: i32) -> Durations {
        match field {
            DurationField::Work => Durations { work: (self.work + delta) as i32, ..self },
            DurationField::Watch => Durations { watch: (self.watch + delta) as i32, ..self },
        }
    }

    /// Durations with the given values.
    pub fn new(work: i32, watch: i32) -> (d: Durations)
        ensures
            d == (Durations { work, watch }),
    {
        Durations { work, watch }
    }

    /// Apply `field += delta`.  Deliberately unclamped: only the machine's
    /// integer range restricts the adjustment.
    pub fn adjust(&mut self, field: DurationField, delta: i32)
        requires
            i32::MIN <= old(self).spec_get(field) + delta <= i32::MAX,
        ensures
            *final(self) == old(self).spec_adjusted(field, delta),
    {
        match field {
            DurationField::Work => {
                self.work = self.work + delta;
            },
            DurationField::Watch => {
                self.watch = self.watch + delta;
            },
        }
    }
}

/// A command delivered to the settings screen: a button press, or the
/// theme pushed down from the application root.
#[derive(Clone, Copy, Debug, PartialEq, Eq, Structural)]
pub enum SetMsg {
    ChangeTheme,
    SetTheme(AppTheme),
    Back,
    SetWork(i32),
    SetWatch(i32),
}

/// The settings screen: its copy of the theme and its private, editable
/// copy of the two durations.
#[derive(Clone, Copy, Debug, PartialEq, Eq, Structural)]
pub struct SettingsScreen {
    /// The screen's copy of the active theme.
    pub theme: AppTheme,
    /// The locally edited durations, committed on "back".
    pub durations: Durations,
}

impl SettingsScreen {
    /// The state of a freshly created settings screen: default theme and
    /// durations.
    pub open spec fn spec_new() -> SettingsScreen {
        SettingsScreen {
            theme: AppTheme::Blue,
            durations: Durations { work: DEFAULT_WORK_MINUTES, watch: DEFAULT_WATCH_MINUTES },
        }
    }

    /// A fresh settings screen with the default theme and durations.
    pub fn new() -> (s: SettingsScreen)
        ensures
            s == SettingsScreen::spec_new(),
    {
        SettingsScreen {
            theme: AppTheme::Blue,
            durations: Durations { work: DEFAULT_WORK_MINUTES, watch: DEFAULT_WATCH_MINUTES },
        }
    }

    /// The screen after one command, with the message it forwards to the
    /// application root, if any.
    pub open spec fn spec_update(self, msg: SetMsg) -> (SettingsScreen, Option<AppMsg>) {
        match msg {
            SetMsg::ChangeTheme => (self, Some(AppMsg::ChangeTheme)),
            SetMsg::SetTheme(t) => (SettingsScreen { theme: t, ..self }, None),
            SetMsg::Back => (
                self,
                Some(AppMsg::SwitchToMain(self.durations.work, self.durations.watch)),
            ),
            SetMsg::SetWork(d) => (
                SettingsScreen {
                    durations: self.durations.spec_adjusted(DurationField::Work, d),
                    ..self
                },
                None,
            ),
            SetMsg::SetWatch(d) => (
                SettingsScreen {
                    durations: self.durations.spec_adjusted(DurationField::Watch, d),
                    ..self
                },
                None,
            ),
        }
    }

    /// Process one command.  A theme-change or back press is not handled
    /// here but forwarded to the application root through the returned
    /// message; going back carries the edited durations along.
    pub fn update(&mut self, msg: SetMsg) -> (out: Option<AppMsg>)
        requires
            msg matches SetMsg::SetWork(d) ==> i32::MIN <= old(self).durations.work + d
                <= i32::MAX,
            msg matches SetMsg::SetWatch(d) ==> i32::MIN <= old(self).durations.watch + d
                <= i32::MAX,
        ensures
            (*final(self), out) == old(self).spec_update(msg),
    {
        match msg {
            SetMsg::ChangeTheme => Some(AppMsg::ChangeTheme),
            SetMsg::SetTheme(t) => {
                self.theme = t;
                None
            },
            SetMsg::Back => Some(AppMsg::SwitchToMain(self.durations.work, self.durations.watch)),
            SetMsg::SetWork(d) => {
                self.durations.adjust(DurationField::Work, d);
                None
            },
            SetMsg::SetWatch(d) => {
                self.durations.adjust(DurationField::Watch, d);
                None
            },
        }
    }
}

} // verus!
