use orion_core::launcher::{CalendarDate, ClockTime, HomeStatus};
use orion_core::network_schedule::{NetworkSchedule, CONNECT_RETRY_US};

#[test]
fn connects_at_once_then_waits_between_tries() {
    let mut schedule = NetworkSchedule::new();
    schedule.wifi_started(5);
    assert_eq!(schedule.snapshot().status, HomeStatus::Time);
    assert!(schedule.connect_due(5, false));
    assert!(!schedule.connect_due(6, false));
    assert!(!schedule.connect_due(5 + CONNECT_RETRY_US - 1, false));
    assert!(schedule.connect_due(5 + CONNECT_RETRY_US, false));
    assert!(!schedule.connect_due(100_000_000, true));
}

#[test]
fn time_sync_starts_once() {
    let mut schedule = NetworkSchedule::new();
    assert!(!schedule.sntp_due(false));
    assert!(schedule.sntp_due(true));
    assert!(!schedule.sntp_due(true));
}

#[test]
fn status_follows_what_is_known() {
    let mut schedule = NetworkSchedule::new();
    schedule.settle_status(false);
    assert_eq!(schedule.snapshot().status, HomeStatus::Wifi);
    schedule.settle_status(true);
    assert_eq!(schedule.snapshot().status, HomeStatus::Time);
    schedule.clock_read(0, Some((ClockTime::new(9, 30), CalendarDate::new(2026, 6, 1))));
    schedule.settle_status(true);
    assert_eq!(schedule.snapshot().status, HomeStatus::Weather);
    assert!(schedule.weather_due(0, true));
    schedule.weather_read(0, Some(-47));
    schedule.settle_status(true);
    assert_eq!(schedule.snapshot().status, HomeStatus::Ready);
    assert_eq!(schedule.snapshot().temperature_tenths_c, Some(-47));
    assert!(!schedule.weather_due(599_999_999, true));
    assert!(schedule.weather_due(600_000_000, true));
}

#[test]
fn failed_weather_keeps_last_temperature_and_retries_sooner() {
    let mut schedule = NetworkSchedule::new();
    schedule.weather_read(0, Some(120));
    schedule.weather_read(600_000_000, None);
    assert!(!schedule.weather_due(609_999_999, true));
    assert!(schedule.weather_due(610_000_000, true));
    schedule.clock_read(610_000_000, None);
    assert_eq!(schedule.snapshot().temperature_tenths_c, Some(120));
    assert!(!schedule.clock_due(669_999_999));
    assert!(schedule.clock_due(670_000_000));
}
