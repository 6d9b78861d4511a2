use animedoro::countdown::AppMode;
use animedoro::countdown::Countdown;
use animedoro::countdown::Status;
use animedoro::display::format_digits;
use animedoro::display::format_padded;
use animedoro::display::format_time;

#[test]
fn digits_without_padding() {
    assert_eq!(format_digits(0), "0");
    assert_eq!(format_digits(7), "7");
    assert_eq!(format_digits(10), "10");
    assert_eq!(format_digits(205), "205");
    assert_eq!(format_digits(4294967295), "4294967295");
}

#[test]
fn padded_components() {
    assert_eq!(format_padded(0), "00");
    assert_eq!(format_padded(5), "05");
    assert_eq!(format_padded(9), "09");
    assert_eq!(format_padded(10), "10");
    assert_eq!(format_padded(59), "59");
    assert_eq!(format_padded(123), "123");
    assert_eq!(format_padded(-5), "-5");
    assert_eq!(format_padded(-123), "-123");
    assert_eq!(format_padded(i32::MAX), "2147483647");
    assert_eq!(format_padded(i32::MIN), "-2147483648");
}

#[test]
fn clock_string_layout() {
    assert_eq!(format_time(0, 50, 0), "00:50:00");
    assert_eq!(format_time(1, 2, 3), "01:02:03");
    assert_eq!(format_time(12, 34, 56), "12:34:56");
    assert_eq!(format_time(0, -4, 59), "00:-4:59");
}

#[test]
fn countdown_reports_its_clock_string() {
    let c = Countdown {
        second: 59,
        minute: 49,
        hour: 0,
        work: 50,
        watch: 25,
        mode: AppMode::Work,
        status: Status::Running,
    };
    assert_eq!(c.time_string(), "00:49:59");
}
