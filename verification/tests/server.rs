use hqaudio_api::server::{
    access_log_line, ban_notice, blocked_notice, client_ip, daily_log_path, is_strike,
    needs_new_log_file, should_log_request, strike_decision, system_status, timestamped_line,
    user_agent_or_unknown, CacheProbe,
};

#[test]
fn client_addresses() {
    assert_eq!(client_ip(Some(" 10.0.0.1 , 10.0.0.2"), Some("9.9.9.9"), None), "10.0.0.1");
    assert_eq!(client_ip(Some(""), None, None), "");
    assert_eq!(client_ip(None, Some("9.9.9.9"), Some("1.1.1.1")), "9.9.9.9");
    assert_eq!(client_ip(None, None, Some("1.1.1.1")), "1.1.1.1");
    assert_eq!(client_ip(None, None, None), "unknown");
    assert_eq!(user_agent_or_unknown(None), "unknown");
}

#[test]
fn strikes_and_bans() {
    assert!(is_strike(429));
    assert!(!is_strike(200));
    let first = strike_decision(1);
    assert!(first.start_window && !first.ban);
    let d = strike_decision(14);
    assert!(!d.start_window && !d.ban);
    assert!(strike_decision(15).ban);
    assert!(strike_decision(40).ban);
    assert_eq!(blocked_notice("1.2.3.4"), "[DDOS PROTECT] Blocked request from banned IP: 1.2.3.4");
    assert_eq!(
        ban_notice("1.2.3.4", 15),
        "[DDOS PROTECT] 🚨 BANNED IP 1.2.3.4 for 24 hours after 15 strikes"
    );
}

#[test]
fn request_logging() {
    assert!(should_log_request("/api/search"));
    assert!(!should_log_request("/logs"));
    assert!(!should_log_request("/api/logs/files"));
    assert_eq!(
        access_log_line("1.2.3.4", "curl", "GET", "/api/search?q=a", 200, 12, Some("345")),
        "[IP: 1.2.3.4] [UA: curl] GET /api/search?q=a 200 12ms 345B"
    );
    assert_eq!(
        access_log_line("::1", "unknown", "POST", "/x", 404, 0, None),
        "[IP: ::1] [UA: unknown] POST /x 404 0ms 0B"
    );
    assert_eq!(timestamped_line("2024-01-02 03:04:05", "hi"), "[2024-01-02 03:04:05] hi");
    assert!(needs_new_log_file("2024-01-02", "2024-01-01", true));
    assert!(needs_new_log_file("2024-01-02", "2024-01-02", false));
    assert!(!needs_new_log_file("2024-01-02", "2024-01-02", true));
    assert_eq!(daily_log_path("2024-01-02"), "logs/requests_2024-01-02.log");
}

#[test]
fn cache_status_reports() {
    let s = system_status(&CacheProbe::Connected { ping: Some("PONG".to_string()), ban_keys: Some(3) });
    assert_eq!((s.redis.as_str(), s.cache_system.as_str(), s.ddos_protection.as_str()), ("Connected", "Operational", "Active"));
    assert_eq!(s.banned_ips, 3);
    assert_eq!(s.db, "N/A (Redis Only)");
    let s = system_status(&CacheProbe::Connected { ping: Some("NO".to_string()), ban_keys: None });
    assert_eq!((s.redis.as_str(), s.cache_system.as_str(), s.banned_ips), ("Disconnected", "Degraded", 0));
    let s = system_status(&CacheProbe::Connected { ping: None, ban_keys: Some(1) });
    assert_eq!((s.redis.as_str(), s.ddos_protection.as_str(), s.banned_ips), ("Error", "Degraded", 1));
    assert_eq!(system_status(&CacheProbe::NoConnection).redis, "Pool Exhausted/Error");
    assert_eq!(system_status(&CacheProbe::NotInitialized).redis, "Not Initialized");
}
