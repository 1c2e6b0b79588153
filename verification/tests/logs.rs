use hqaudio_api::logs::{
    authorize_stream, ban_key, banned_ips, check_log_file_name, cleared_message,
    configured_password, constant_time_eq, daily_log_name, initial_dump, is_request_log,
    list_log_files, log_file_path, should_remove_log, stream_file_allowed, stream_is_live,
    stream_step, stream_target, strike_key, unban_message, verify_logs_password, StreamAction,
    StreamEvent,
};
use hqaudio_api::models::AppError;

#[test]
fn comparing_bytes() {
    assert!(constant_time_eq(b"secret", b"secret"));
    assert!(!constant_time_eq(b"secret", b"secreT"));
    assert!(!constant_time_eq(b"secret", b"secrets"));
    assert!(constant_time_eq(b"", b""));
}

#[test]
fn checking_passwords() {
    assert_eq!(verify_logs_password("pw", Some("pw")), Ok(()));
    assert_eq!(
        verify_logs_password("px", Some("pw")),
        Err(AppError::Unauthorized("Incorrect password".to_string()))
    );
    assert_eq!(
        verify_logs_password("pw", None),
        Err(AppError::Unauthorized(
            "Logs access is disabled: LOGS_PASSWORD is not configured".to_string()
        ))
    );
    assert_eq!(configured_password(Some(String::new())), None);
    assert_eq!(configured_password(Some("a".to_string())), Some("a".to_string()));
    assert_eq!(configured_password(None), None);
    assert_eq!(
        authorize_stream(None, Some("pw")),
        Err(AppError::Unauthorized("Password required".to_string()))
    );
    assert_eq!(authorize_stream(Some("pw"), Some("pw")), Ok(()));
}

#[test]
fn log_file_names() {
    assert!(is_request_log("requests_2024-01-02.log"));
    assert!(!is_request_log("other.log"));
    assert_eq!(check_log_file_name("requests_2024-01-02.log"), Ok(()));
    for bad in ["requests_../x.log", "requests_a/b.log", "requests_a\\b.log", "x.log", "requests_a.txt"] {
        assert_eq!(
            check_log_file_name(bad),
            Err(AppError::BadRequest("Invalid log file name".to_string())),
            "{}",
            bad
        );
    }
    assert_eq!(log_file_path("requests_a.log"), "logs/requests_a.log");
    assert_eq!(cleared_message("requests_a.log"), "Log file requests_a.log cleared successfully");
    assert_eq!(daily_log_name("2024-01-02"), "requests_2024-01-02.log");
}

#[test]
fn listing_logs_newest_first() {
    let names = vec![
        "requests_2024-01-02.log".to_string(),
        "notes.txt".to_string(),
        "requests_2024-01-10.log".to_string(),
        "requests_2023-12-31.log".to_string(),
        "requests_2024-01-02.log".to_string(),
    ];
    assert_eq!(
        list_log_files(names),
        vec![
            "requests_2024-01-10.log".to_string(),
            "requests_2024-01-02.log".to_string(),
            "requests_2024-01-02.log".to_string(),
            "requests_2023-12-31.log".to_string(),
        ]
    );
    assert!(list_log_files(vec![]).is_empty());
}

#[test]
fn streams() {
    assert!(stream_file_allowed(""));
    assert!(stream_file_allowed("requests_a.log"));
    assert!(!stream_file_allowed("../etc"));
    assert_eq!(stream_target("", "2024-01-02"), "requests_2024-01-02.log");
    assert_eq!(stream_target("requests_a.log", "2024-01-02"), "requests_a.log");
    assert_eq!(initial_dump(Some("l1\nl2")), "[INITIAL_DUMP]\nl1\nl2");
    assert_eq!(initial_dump(None), "[INITIAL_DUMP]\n");
    assert!(stream_is_live("requests_2024-01-02.log", "2024-01-02"));
    assert!(!stream_is_live("requests_2024-01-01.log", "2024-01-02"));
    assert!(stream_is_live(&stream_target("", "2024-01-03"), "2024-01-03"));
    assert!(is_request_log(&daily_log_name("any day")));
}

#[test]
fn stream_steps() {
    assert_eq!(stream_step(StreamEvent::ClientGone), StreamAction::Stop);
    assert_eq!(
        stream_step(StreamEvent::Line("x".to_string())),
        StreamAction::Send { text: "x".to_string(), stop_on_failure: true }
    );
    assert_eq!(
        stream_step(StreamEvent::Lagged(12)),
        StreamAction::Send {
            text: "[SYSTEM] Warning: 12 log messages were dropped due to slow connection".to_string(),
            stop_on_failure: false
        }
    );
    assert_eq!(stream_step(StreamEvent::BroadcastClosed), StreamAction::Stop);
    assert_eq!(stream_step(StreamEvent::PingDue), StreamAction::Ping);
    assert_eq!(stream_step(StreamEvent::SendFailed), StreamAction::Stop);
    assert_eq!(stream_step(StreamEvent::PongReceived), StreamAction::Continue);
    assert_eq!(stream_step(StreamEvent::PongTimedOut), StreamAction::Stop);
}

#[test]
fn ban_list_keys() {
    let keys = vec!["ban:1.2.3.4".to_string(), "strikes:1.2.3.4".to_string(), "ban:".to_string(), "ban:::1".to_string()];
    assert_eq!(banned_ips(&keys), vec!["1.2.3.4".to_string(), String::new(), "::1".to_string()]);
    assert_eq!(ban_key("1.2.3.4"), "ban:1.2.3.4");
    assert_eq!(banned_ips(&vec![ban_key("10.0.0.7")]), vec!["10.0.0.7".to_string()]);
    assert_eq!(strike_key("1.2.3.4"), "strikes:1.2.3.4");
    assert_eq!(unban_message("1.2.3.4"), "[SYSTEM] IP 1.2.3.4 was manually unbanned by admin");
}

#[test]
fn test_logging_and_cleanup() {
    let today = daily_log_name("2024-03-10");
    let yesterday = daily_log_name("2024-03-09");
    let two_days_ago = daily_log_name("2024-03-08");
    assert!(!should_remove_log(&today, &today, &yesterday));
    assert!(!should_remove_log(&yesterday, &today, &yesterday));
    assert!(should_remove_log(&two_days_ago, &today, &yesterday));
    assert!(!should_remove_log("notes.txt", &today, &yesterday));
}
