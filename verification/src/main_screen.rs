//! The main screen: the countdown engine together with the screen's copy
//! of the theme, driven entirely by discrete commands.

use crate::app::AppMsg;
use crate::countdown::AppMode;
use crate::countdown::Countdown;
use crate::countdown::DEFAULT_WATCH_MINUTES;
use crate::countdown::DEFAULT_WORK_MINUTES;
use crate::countdown::Status;
use crate::theme::AppTheme;
use vstd::prelude::*;

verus! {

/// A command delivered to the main screen: one elapsed-second tick, a
/// button press, or a value pushed down from the application root.
#[derive(Clone, Copy, Debug, PartialEq, Eq, Structural)]
pub enum MainMsg {
    IncTime,
    StartTimer,
    ResetTimer,
    ChangeTheme,
    Work,
    Watch,
    SetTheme(AppTheme),
    SetWatch(i32),
    SetWork(i32),
    SwitchToSettings,
}

/// The main screen's state.
#[derive(Clone, Copy, Debug, PartialEq, Eq, Structural)]
pub struct MainScreen {
    /// The countdown engine the screen owns.
    pub countdown: Countdown,
    /// The screen's copy of the active theme.
    pub theme: AppTheme,
}

impl MainScreen {
    /// The state of a freshly created main screen: default theme,
    /// durations and mode, idle, nothing armed.
    pub open spec fn spec_new() -> MainScreen {
        MainScreen {
            countdown: Countdown {
                second: 0,
                minute: DEFAULT_WORK_MINUTES,
                hour: 0,
                work: DEFAULT_WORK_MINUTES,
                watch: DEFAULT_WATCH_MINUTES,
                mode: AppMode::Work,
                status: Status::Idle,
            },
            theme: AppTheme::Blue,
        }
    }

    /// A fresh main screen with the default theme, durations and mode.
    pub fn new() -> (m: MainScreen)
        ensures
            m == MainScreen::spec_new(),
    {
        MainScreen {
            countdown: Countdown::new(DEFAULT_WORK_MINUTES, DEFAULT_WATCH_MINUTES),
            theme: AppTheme::Blue,
        }
    }

    /// The screen after one command, with the message it forwards to the
    /// application root, if any.
    pub open spec fn spec_update(self, msg: MainMsg) -> (MainScreen, Option<AppMsg>) {
        match msg {
            MainMsg::IncTime => (
                MainScreen { countdown: self.countdown.spec_advance(), ..self },
                None,
            ),
            MainMsg::StartTimer => (
                MainScreen {
                    countdown: Countdown {
                        status: self.countdown.spec_toggled_status(),
                        ..self.countdown
                    },
                    ..self
                },
                None,
            ),
            MainMsg::ResetTimer => (
                MainScreen { countdown: self.countdown.spec_reset(), ..self },
                None,
            ),
            MainMsg::ChangeTheme => (self, Some(AppMsg::ChangeTheme)),
            MainMsg::Work => (
                MainScreen { countdown: self.countdown.spec_set_mode(AppMode::Work), ..self },
                None,
            ),
            MainMsg::Watch => (
                MainScreen { countdown: self.countdown.spec_set_mode(AppMode::Watch), ..self },
                None,
            ),
            MainMsg::SetTheme(t) => (MainScreen { theme: t, ..self }, None),
            MainMsg::SetWatch(w) => (
                MainScreen { countdown: Countdown { watch: w, ..self.countdown }, ..self },
                None,
            ),
            MainMsg::SetWork(w) => (
                MainScreen { countdown: Countdown { work: w, ..self.countdown }, ..self },
                None,
            ),
            MainMsg::SwitchToSettings => (self, Some(AppMsg::SwitchToSettings)),
        }
    }

    /// Process one command.  A tick drives the countdown engine; theme
    /// changes and navigation are forwarded to the application root
    /// through the returned message.
    pub fn update(&mut self, msg: MainMsg) -> (out: Option<AppMsg>)
        requires
            old(self).countdown.wf(),
            msg is IncTime ==> old(self).countdown.minute > i32::MIN,
        ensures
            (*final(self), out) == old(self).spec_update(msg),
            final(self).countdown.wf(),
    {
        match msg {
            MainMsg::IncTime => {
                self.countdown.advance();
                None
            },
            MainMsg::StartTimer => {
                self.countdown.pause_or_resume();
                None
            },
            MainMsg::ResetTimer => {
                self.countdown.reset();
                None
            },
            MainMsg::ChangeTheme => Some(AppMsg::ChangeTheme),
            MainMsg::Work => {
                self.countdown.set_mode(AppMode::Work);
                None
            },
            MainMsg::Watch => {
                self.countdown.set_mode(AppMode::Watch);
                None
            },
            MainMsg::SetTheme(t) => {
                self.theme = t;
                None
            },
            MainMsg::SetWatch(w) => {
                self.countdown.set_watch(w);
                None
            },
            MainMsg::SetWork(w) => {
                self.countdown.set_work(w);
                None
            },
            MainMsg::SwitchToSettings => Some(AppMsg::SwitchToSettings),
        }
    }
}

} // verus!
