use animedoro::countdown::AppMode;
use animedoro::countdown::Countdown;
use animedoro::countdown::Status;

#[test]
fn seconds_stay_within_minute() {
    let mut c = Countdown::new(3, 2);
    c.start();
    for _ in 0..500 {
        c.advance();
        assert!(0 <= c.second && c.second <= 59);
    }
}

#[test]
fn borrow_seconds_stay_within_minute() {
    let mut c = Countdown::new(2, 1);
    c.hour = 1;
    c.start();
    for _ in 0..500 {
        c.advance_borrow();
        assert!(0 <= c.second && c.second <= 59);
        assert!(c.minute >= 0);
        assert!(c.hour >= 0);
    }
}

#[test]
fn sixty_ticks_drop_one_minute() {
    let mut c = Countdown::new(50, 25);
    for _ in 0..60 {
        c.advance();
    }
    assert_eq!(c.minute, 49);
    assert_eq!(c.second, 0);
    assert_eq!(c.hour, 0);
}

#[test]
fn borrow_sixty_ticks_drop_one_minute() {
    let mut c = Countdown::new(50, 25);
    for _ in 0..60 {
        c.advance_borrow();
    }
    assert_eq!(c.minute, 49);
    assert_eq!(c.second, 0);
    assert_eq!(c.hour, 0);
}

#[test]
fn expiry_resets_to_configured_duration() {
    let mut c = Countdown::new(2, 25);
    c.start();
    for _ in 0..120 {
        c.advance();
    }
    assert_eq!((c.hour, c.minute, c.second), (0, 0, 0));
    assert_eq!(c.status, Status::Running);
    c.advance();
    assert_eq!((c.hour, c.minute, c.second), (0, 2, 0));
    assert_eq!(c.status, Status::Idle);
}

#[test]
fn borrow_expiry_borrows_from_hours() {
    let mut c = Countdown::new(0, 25);
    c.hour = 1;
    c.advance_borrow();
    assert_eq!((c.hour, c.minute, c.second), (0, 59, 59));
}

#[test]
fn borrow_full_expiry_resets() {
    let mut c = Countdown::new(0, 25);
    c.start();
    c.advance_borrow();
    assert_eq!((c.hour, c.minute, c.second), (0, 0, 0));
    assert_eq!(c.status, Status::Idle);
}

#[test]
fn reset_replays_fresh_timer() {
    let mut a = Countdown::new(7, 25);
    a.start();
    for _ in 0..100 {
        a.advance();
    }
    a.reset();
    let mut b = Countdown::new(7, 25);
    b.start();
    for _ in 0..500 {
        a.advance();
        b.advance();
        assert_eq!((a.hour, a.minute, a.second), (b.hour, b.minute, b.second));
    }
}

#[test]
fn switch_mode_resets_to_watch_duration() {
    let mut c = Countdown::new(50, 25);
    c.start();
    for _ in 0..95 {
        c.advance();
    }
    c.pause_or_resume();
    c.set_mode(AppMode::Watch);
    assert_eq!(c.second, 0);
    assert_eq!(c.hour, 0);
    assert_eq!(c.minute, 25);
    assert_eq!(c.status, Status::Idle);
    assert_eq!(c.mode, AppMode::Watch);
}

#[test]
fn start_tick_pause_scenario() {
    let mut c = Countdown::new(50, 25);
    c.start();
    assert_eq!(c.status, Status::Running);
    assert!(c.armed());
    c.advance();
    assert_eq!((c.hour, c.minute, c.second), (0, 49, 59));
    assert_eq!(c.time_string(), "00:49:59");
    assert_eq!(c.label(), "Pause");
    c.pause_or_resume();
    assert_eq!(c.status, Status::Paused);
    // the tick source must be disarmed now, so no further tick is delivered
    assert!(!c.armed());
    assert_eq!(c.label(), "Continue");
    assert_eq!((c.hour, c.minute, c.second), (0, 49, 59));
}

#[test]
fn labels_follow_status() {
    let mut c = Countdown::new(50, 25);
    assert_eq!(c.label(), "Start");
    c.pause_or_resume();
    assert_eq!(c.label(), "Pause");
    c.pause_or_resume();
    assert_eq!(c.label(), "Continue");
    c.pause_or_resume();
    assert_eq!(c.label(), "Pause");
    c.reset();
    assert_eq!(c.label(), "Start");
}

#[test]
fn start_is_idempotent_and_keeps_elapsed_time() {
    let mut c = Countdown::new(50, 25);
    c.start();
    c.advance();
    c.pause_or_resume();
    let snapshot = c;
    c.start();
    assert_eq!(c.status, Status::Running);
    assert_eq!(
        (c.hour, c.minute, c.second),
        (snapshot.hour, snapshot.minute, snapshot.second)
    );
    c.start();
    assert_eq!(c.status, Status::Running);
    assert_eq!(
        (c.hour, c.minute, c.second),
        (snapshot.hour, snapshot.minute, snapshot.second)
    );
}

#[test]
fn negative_minutes_keep_counting_down() {
    let mut c = Countdown::new(-3, 25);
    c.start();
    assert_eq!(c.minute, -3);
    c.advance();
    assert_eq!((c.hour, c.minute, c.second), (0, -4, 59));
    for _ in 0..59 {
        c.advance();
    }
    assert_eq!((c.hour, c.minute, c.second), (0, -4, 0));
    c.advance();
    assert_eq!((c.hour, c.minute, c.second), (0, -5, 59));
}
