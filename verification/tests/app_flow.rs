use animedoro::app::App;
use animedoro::app::Screen;
use animedoro::countdown::AppMode;
use animedoro::countdown::Status;
use animedoro::main_screen::MainMsg;
use animedoro::settings::SetMsg;
use animedoro::theme::AppTheme;

#[test]
fn settings_commit_increases_work_duration() {
    let mut a = App::new();
    a.handle_main(MainMsg::SwitchToSettings);
    assert_eq!(a.screen, Screen::Settings);
    a.handle_settings(SetMsg::SetWork(1));
    a.handle_settings(SetMsg::SetWork(1));
    assert_eq!(a.settings.durations.work, 52);
    // not committed yet: the edit is local to the settings screen
    assert_eq!(a.work, 50);
    assert_eq!(a.main.countdown.work, 50);
    a.handle_settings(SetMsg::Back);
    assert_eq!(a.screen, Screen::Main);
    assert_eq!(a.work, 52);
    assert_eq!(a.main.countdown.work, 52);
    assert_eq!(a.main.countdown.mode, AppMode::Work);
    assert_eq!(a.main.countdown.minute, 52);
    assert_eq!(a.main.countdown.second, 0);
    assert_eq!(a.main.countdown.time_string(), "00:52:00");
}

#[test]
fn theme_change_is_pushed_to_both_screens() {
    let mut a = App::new();
    assert_eq!(a.theme, AppTheme::Blue);
    a.handle_main(MainMsg::ChangeTheme);
    assert_eq!(a.theme, AppTheme::Serene);
    assert_eq!(a.main.theme, AppTheme::Serene);
    // the settings screen is not visible, yet it receives the new value too
    assert_eq!(a.settings.theme, AppTheme::Serene);
    a.handle_settings(SetMsg::ChangeTheme);
    assert_eq!(a.theme, AppTheme::Dream);
    assert_eq!(a.main.theme, AppTheme::Dream);
    assert_eq!(a.settings.theme, AppTheme::Dream);
}

#[test]
fn back_commits_watch_duration_and_resets_under_active_mode() {
    let mut a = App::new();
    a.handle_main(MainMsg::Watch);
    assert_eq!(a.main.countdown.minute, 25);
    a.handle_main(MainMsg::SwitchToSettings);
    a.handle_settings(SetMsg::SetWatch(-5));
    a.handle_settings(SetMsg::Back);
    assert_eq!(a.watch, 20);
    assert_eq!(a.main.countdown.watch, 20);
    // the reset on return uses the mode that was active at the time
    assert_eq!(a.main.countdown.minute, 20);
    assert_eq!(a.main.countdown.status, Status::Idle);
}

#[test]
fn tick_routing_reaches_engine() {
    let mut a = App::new();
    a.handle_main(MainMsg::StartTimer);
    assert!(a.main.countdown.armed());
    a.handle_main(MainMsg::IncTime);
    assert_eq!(a.main.countdown.minute, 49);
    assert_eq!(a.main.countdown.second, 59);
}

#[test]
fn unclamped_adjustment_allows_zero_and_negative() {
    // no floor is enforced on a duration: zero and negative values stand
    let mut a = App::new();
    a.handle_main(MainMsg::SwitchToSettings);
    a.handle_settings(SetMsg::SetWork(-50));
    assert_eq!(a.settings.durations.work, 0);
    a.handle_settings(SetMsg::SetWork(-1));
    assert_eq!(a.settings.durations.work, -1);
    a.handle_settings(SetMsg::Back);
    assert_eq!(a.work, -1);
    assert_eq!(a.main.countdown.minute, -1);
}

#[test]
fn fresh_app_defaults() {
    let a = App::new();
    assert_eq!(a.screen, Screen::Main);
    assert_eq!(a.theme, AppTheme::Blue);
    assert_eq!(a.work, 50);
    assert_eq!(a.watch, 25);
    assert_eq!(a.main.countdown.minute, 50);
    assert_eq!(a.main.countdown.status, Status::Idle);
    assert_eq!(a.main.countdown.label(), "Start");
    assert_eq!(a.settings.durations.work, 50);
    assert_eq!(a.settings.durations.watch, 25);
    assert_eq!(a.main.countdown.time_string(), "00:50:00");
}

#[test]
fn reset_button_restores_current_mode_duration() {
    let mut a = App::new();
    a.handle_main(MainMsg::StartTimer);
    for _ in 0..75 {
        a.handle_main(MainMsg::IncTime);
    }
    assert_eq!(a.main.countdown.minute, 48);
    a.handle_main(MainMsg::ResetTimer);
    assert_eq!(a.main.countdown.minute, 50);
    assert_eq!(a.main.countdown.second, 0);
    assert_eq!(a.main.countdown.status, Status::Idle);
    assert!(!a.main.countdown.armed());
}
