use greend::clock_reading_in_range;
use greend::database_dir;
use greend::database_file;
use greend::format_clock;
use greend::os_needs_home;
use greend::schema::Timestamp;
use greend::ClockReading;
use greend::LocalTimer;

#[test]
fn database_locations() {
    assert_eq!(database_dir("linux", None), "/var/lib/greenb");
    assert_eq!(database_dir("windows", None), "C:/ProgramData/GreenB");
    assert_eq!(
        database_dir("macos", Some("/Users/ada")),
        "/Users/ada/Library/Application Support/greenb"
    );
    assert_eq!(database_dir("macos", Some("/Users/ada/")), "/Users/ada/Library/Application Support/greenb");
    assert_eq!(database_dir("freebsd", Some("/home/ada")), "/home/ada/.greenb");
    assert_eq!(database_file("linux", "/var/lib/greenb"), "/var/lib/greenb/energy_monitor.db");
    assert_eq!(
        database_file("macos", "/Users/ada/Library/Application Support/greenb/"),
        "/Users/ada/Library/Application Support/greenb/energy_monitor.db"
    );
    assert_eq!(
        database_file("windows", "C:/ProgramData/GreenB"),
        "C:/ProgramData/GreenB\\energy_monitor.db"
    );
    assert_eq!(database_file("windows", "D:\\data\\"), "D:\\data\\energy_monitor.db");
    assert_eq!(database_file("windows", "C:"), "C:energy_monitor.db");
    assert_eq!(database_file("windows", ""), "energy_monitor.db");
    assert!(!os_needs_home("linux"));
    assert!(!os_needs_home("windows"));
    assert!(os_needs_home("macos"));
    assert!(os_needs_home("freebsd"));
}

#[test]
fn clock_text() {
    let t = ClockReading { hour: 9, minute: 5, second: 7, nanosecond: 42_999_999 };
    assert_eq!(format_clock(t), "09:05:07.042");
    let t = ClockReading { hour: 23, minute: 59, second: 59, nanosecond: 1_500_000_000 };
    assert_eq!(format_clock(t), "23:59:60.500");
    let t = ClockReading { hour: 0, minute: 0, second: 0, nanosecond: 0 };
    assert_eq!(format_clock(t), "00:00:00.000");
}

#[test]
fn local_timer_writes_time_of_day() {
    let t = ClockReading { hour: 13, minute: 4, second: 59, nanosecond: 999_999_999 };
    assert!(clock_reading_in_range(t));
    assert_eq!(LocalTimer.format_time(t), "13:04:59.999");
    assert!(!clock_reading_in_range(ClockReading { hour: 24, minute: 0, second: 0, nanosecond: 0 }));
    assert!(!clock_reading_in_range(ClockReading { hour: 0, minute: 0, second: 0, nanosecond: 2_000_000_000 }));
}

#[test]
fn timestamps_write_and_now() {
    assert_eq!(Timestamp::new(0, 0).unwrap().to_rfc3339(), "1970-01-01T00:00:00+00:00");
    assert_eq!(
        Timestamp::new(1704164645, 123456789).unwrap().to_rfc3339(),
        "2024-01-02T03:04:05.123456789+00:00"
    );
    assert!(Timestamp::new(i64::MAX, 0).is_none());
    assert!(Timestamp::from_parts(None).is_none());
    let now = Timestamp::now().unwrap();
    assert!(now.secs() > 1_600_000_000);
    assert!(now.nanos() < 1_000_000_000);
    let t = Timestamp::from_rfc3339("2001-02-03T04:05:06Z").unwrap();
    assert_eq!((t.secs(), t.nanos()), (981173106, 0));
    assert_eq!(t.to_rfc3339(), "2001-02-03T04:05:06+00:00");
}

#[test]
fn clock_readings_become_timestamps() {
    let t = Timestamp::from_clock(Some((86400, 7))).unwrap();
    assert_eq!((t.secs(), t.nanos()), (86400, 7));
    assert!(Timestamp::from_clock(None).is_none());
    assert!(Timestamp::from_clock(Some((u64::MAX, 0))).is_none());
    assert!(Timestamp::from_clock(Some((i64::MAX as u64, 0))).is_none());
}
