use cui_validator::clock::{calculate_uptime, whole_seconds};
use cui_validator::service::{about, online, uptime, uptime_report, validate, AppState};
use std::time::{Duration, SystemTime};

#[test]
fn test_about_route() {
    let info = about();
    assert_eq!(info.name, "CUI Validator API");
    assert_eq!(info.description, "Validate a Romanian company identification number (CUI)");
    assert_eq!(info.author, "Cristian L.");
}

#[test]
fn test_uptime_route() {
    let state = AppState { start_time: SystemTime::now() };
    let report = uptime(&state).expect("Time went backwards");
    assert_eq!(report.code, 200);
    assert_eq!(report.status, "online");
}

#[test]
fn test_validate_route_valid_cui() {
    let reply = validate("33034700".to_string());
    assert!(reply.is_ok());
    let verdict = reply.unwrap();
    assert_eq!(verdict.code, 200);
    assert_eq!(verdict.status, "valid");
    assert_eq!(verdict.message, "CUI is valid");
}

#[test]
fn test_validate_route_invalid_cui() {
    let reply = validate("123456".to_string());
    assert!(reply.is_err());
    let verdict = reply.unwrap_err();
    assert_eq!(verdict.code, 400);
    assert_eq!(verdict.status, "invalid");
    assert_eq!(verdict.message, "Invalid CUI");
}

#[test]
fn malformed_candidates_get_the_invalid_reply() {
    for candidate in ["", "12a4", "12345678901", "\u{0661}\u{0662}\u{0663}\u{0664}", "2001"] {
        let verdict = validate(candidate.to_string()).unwrap_err();
        assert_eq!(verdict.code, 400);
        assert_eq!(verdict.status, "invalid");
        assert_eq!(verdict.message, "Invalid CUI");
    }
}

#[test]
fn remainder_ten_gets_the_valid_reply_only_with_a_zero() {
    let verdict = validate("2000".to_string()).unwrap();
    assert_eq!(verdict.code, 200);
    assert_eq!(verdict.status, "valid");
    assert!(validate("2005".to_string()).is_err());
}

#[test]
fn online_reports_the_seconds_it_is_given() {
    let report = online(0);
    assert_eq!(report.code, 200);
    assert_eq!(report.status, "online");
    assert_eq!(report.uptime_seconds, 0);
    assert_eq!(online(86_400).uptime_seconds, 86_400);
    assert_eq!(online(u64::MAX).uptime_seconds, u64::MAX);
}

#[test]
fn uptime_counts_whole_seconds_from_the_start() {
    let hour_ago: SystemTime = SystemTime::now() - Duration::from_secs(3600);
    let seconds: u64 = calculate_uptime(&hour_ago).expect("Time went backwards");
    assert!(seconds >= 3600);
    assert!(seconds < 3660);
    let report = uptime(&AppState { start_time: hour_ago }).expect("Time went backwards");
    assert!(report.uptime_seconds >= 3600);
    assert!(report.uptime_seconds < 3660);
}

#[test]
fn uptime_starts_near_zero() {
    let seconds: u64 = calculate_uptime(&SystemTime::now()).expect("Time went backwards");
    assert!(seconds < 60);
}

#[test]
fn uptime_since_the_epoch_is_large() {
    let seconds: u64 = calculate_uptime(&SystemTime::UNIX_EPOCH).expect("Time went backwards");
    assert!(seconds > 1_000_000_000);
}

#[test]
fn a_start_in_the_future_gives_no_uptime() {
    let in_an_hour: SystemTime = SystemTime::now() + Duration::from_secs(3600);
    assert_eq!(calculate_uptime(&in_an_hour), None);
    assert!(uptime(&AppState { start_time: in_an_hour }).is_none());
}

#[test]
fn whole_seconds_drops_the_fraction() {
    assert_eq!(whole_seconds(Ok(Duration::from_millis(2999))), Some(2));
    assert_eq!(whole_seconds(Ok(Duration::from_millis(999))), Some(0));
    assert_eq!(whole_seconds(Ok(Duration::from_secs(86_400))), Some(86_400));
}

#[test]
fn whole_seconds_of_a_failed_measurement_is_none() {
    let later: SystemTime = SystemTime::UNIX_EPOCH + Duration::from_secs(10);
    let failed = SystemTime::UNIX_EPOCH.duration_since(later);
    assert!(failed.is_err());
    assert_eq!(whole_seconds(failed), None);
    assert_eq!(whole_seconds(later.duration_since(SystemTime::UNIX_EPOCH)), Some(10));
}

#[test]
fn uptime_report_keeps_the_measured_seconds() {
    let report = uptime_report(Some(0)).expect("a measured uptime gives a report");
    assert_eq!(report.code, 200);
    assert_eq!(report.status, "online");
    assert_eq!(report.uptime_seconds, 0);
    let report = uptime_report(Some(3600)).expect("a measured uptime gives a report");
    assert_eq!(report.code, 200);
    assert_eq!(report.status, "online");
    assert_eq!(report.uptime_seconds, 3600);
}

#[test]
fn uptime_report_of_no_measurement_is_none() {
    assert!(uptime_report(None).is_none());
}
