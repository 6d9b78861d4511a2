//! The application root: the authoritative theme and durations, the
//! two-screen navigation state machine, and the routing of messages
//! between the screens.

use crate::countdown::Countdown;
use crate::countdown::DEFAULT_WATCH_MINUTES;
use crate::countdown::DEFAULT_WORK_MINUTES;
use crate::main_screen::MainMsg;
use crate::main_screen::MainScreen;
use crate::settings::SetMsg;
use crate::settings::SettingsScreen;
use crate::theme::AppTheme;
use vstd::prelude::*;

verus! {

/// Which of the two top-level screens is visible.  Exactly one is active
/// at a time, and only an explicit navigation command changes it.
#[derive(Clone, Copy, Debug, PartialEq, Eq, Structural)]
pub enum Screen {
    Main,
    Settings,
}

/// A message a screen forwards up to the application root.
#[derive(Clone, Copy, Debug, PartialEq, Eq, Structural)]
pub enum AppMsg {
    ChangeTheme,
    SwitchToSettings,
    SwitchToMain(i32, i32),
}

/// The application root.  It owns the authoritative theme and durations;
/// the screens only ever hold copies, pushed down by value.
#[derive(Clone, Copy, Debug, PartialEq, Eq, Structural)]
pub struct App {
    /// The authoritative theme.
    pub theme: AppTheme,
    /// The visible screen.
    pub screen: Screen,
    /// The committed work duration, in minutes.
    pub work: i32,
    /// The committed watch duration, in minutes.
    pub watch: i32,
    /// The main screen.
    pub main: MainScreen,
    /// The settings screen.
    pub settings: SettingsScreen,
}

impl App {
    /// The root's invariant: its countdown engine is well formed.
    pub open spec fn wf(self) -> bool {
        self.main.countdown.wf()
    }

    /// The state of a freshly created application.
    pub open spec fn spec_new() -> App {
        App {
            theme: AppTheme::Blue,
            screen: Screen::Main,
            work: DEFAULT_WORK_MINUTES,
            watch: DEFAULT_WATCH_MINUTES,
            main: MainScreen::spec_new(),
            settings: SettingsScreen::spec_new(),
        }
    }

    /// A fresh application: main screen visible, default theme and
    /// durations everywhere.
    pub fn new() -> (a: App)
        ensures
            a == App::spec_new(),
            a.wf(),
    {
        App {
            theme: AppTheme::Blue,
            screen: Screen::Main,
            work: DEFAULT_WORK_MINUTES,
            watch: DEFAULT_WATCH_MINUTES,
            main: MainScreen::new(),
            settings: SettingsScreen::new(),
        }
    }

    /// The root after one forwarded message.  A theme change cycles the
    /// authoritative theme and pushes the new value to both screens,
    /// visible or not; coming back from the settings screen commits the
    /// edited durations and resets the countdown under the mode active at
    /// the time.
    pub open spec fn spec_update(self, msg: AppMsg) -> App {
        match msg {
            AppMsg::ChangeTheme => {
                let t = self.theme.spec_next();
                App {
                    theme: t,
                    main: MainScreen { theme: t, ..self.main },
                    settings: SettingsScreen { theme: t, ..self.settings },
                    ..self
                }
            },
            AppMsg::SwitchToSettings => App { screen: Screen::Settings, ..self },
            AppMsg::SwitchToMain(work, watch) => App {
                screen: Screen::Main,
                work,
                watch,
                main: MainScreen {
                    countdown: (Countdown { work, watch, ..self.main.countdown }).spec_reset(),
                    ..self.main
                },
                ..self
            },
        }
    }

    /// Apply one forwarded message to the root.
    pub fn update(&mut self, msg: AppMsg)
        requires
            old(self).wf(),
        ensures
            *final(self) == old(self).spec_update(msg),
            final(self).wf(),
    {
        match msg {
            AppMsg::ChangeTheme => {
                self.theme = self.theme.get_next_theme();
                let _ = self.main.update(MainMsg::SetTheme(self.theme));
                let _ = self.settings.update(SetMsg::SetTheme(self.theme));
            },
            AppMsg::SwitchToSettings => {
                self.screen = Screen::Settings;
            },
            AppMsg::SwitchToMain(work, watch) => {
                self.screen = Screen::Main;
                self.work = work;
                self.watch = watch;
                let _ = self.main.update(MainMsg::SetWork(work));
                let _ = self.main.update(MainMsg::SetWatch(watch));
                let _ = self.main.update(MainMsg::ResetTimer);
            },
        }
    }

    /// The root after one command to the main screen and the routing of
    /// whatever the screen forwarded: one full turn of the event loop.
    pub open spec fn spec_handle_main(self, msg: MainMsg) -> App {
        let (m2, out) = self.main.spec_update(msg);
        let mid = App { main: m2, ..self };
        match out {
            Option::None => mid,
            Option::Some(a) => mid.spec_update(a),
        }
    }

    /// Deliver one command to the main screen, then route its forwarded
    /// message, if any.
    pub fn handle_main(&mut self, msg: MainMsg)
        requires
            old(self).wf(),
            msg is IncTime ==> old(self).main.countdown.minute > i32::MIN,
        ensures
            *final(self) == old(self).spec_handle_main(msg),
            final(self).wf(),
    {
        let out = self.main.update(msg);
        match out {
            Option::None => {},
            Option::Some(a) => {
                self.update(a);
            },
        }
    }

    /// The root after one command to the settings screen and the routing
    /// of whatever the screen forwarded.
    pub open spec fn spec_handle_settings(self, msg: SetMsg) -> App {
        let (s2, out) = self.settings.spec_update(msg);
        let mid = App { settings: s2, ..self };
        match out {
            Option::None => mid,
            Option::Some(a) => mid.spec_update(a),
        }
    }

    /// Deliver one command to the settings screen, then route its
    /// forwarded message, if any.  Going back commits the edited durations
    /// to the root and resets the countdown.
    pub fn handle_settings(&mut self, msg: SetMsg)
        requires
            old(self).wf(),
            msg matches SetMsg::SetWork(d) ==> i32::MIN <= old(self).settings.durations.work + d
                <= i32::MAX,
            msg matches SetMsg::SetWatch(d) ==> i32::MIN <= old(self).settings.durations.watch + d
                <= i32::MAX,
        ensures
            *final(self) == old(self).spec_handle_settings(msg),
            final(self).wf(),
    {
        let out = self.settings.update(msg);
        match out {
            Option::None => {},
            Option::Some(a) => {
                self.update(a);
            },
        }
    }
}

} // verus!
