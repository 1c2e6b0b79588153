use hqaudio_api::fetch::{
    circuit_open_error, circuit_open_notice, client_identities, get_ttl, identity_headers,
    pick_client_identity, plan_fetch, uses_cache, CircuitBreaker,
};

#[test]
fn cache_lifetimes() {
    assert_eq!(get_ttl("lyrics.getLyrics"), 12 * 3600);
    assert_eq!(get_ttl("playlist.getDetails"), 6 * 3600);
    assert_eq!(get_ttl("artist.getArtistMoreAlbum"), 6 * 3600);
    assert_eq!(get_ttl("search.getResults"), 3600);
    assert_eq!(get_ttl("webapi.get"), 30 * 60);
    assert_eq!(get_ttl("webradio.getSong"), 5 * 60);
    assert_eq!(get_ttl("webradio.createEntityStation"), 0);
}

#[test]
fn planning_a_call() {
    let params = vec![("pids".to_string(), "a b&c".to_string())];
    let plan = plan_fetch("song.getDetails", &params, None);
    let query = "__call=song.getDetails&_format=json&_marker=0&api_version=4&ctx=web6dot0&pids=a+b%26c";
    assert_eq!(plan.url, format!("https://www.hqaudio.com/api.php?{}", query));
    assert_eq!(plan.cache_key, format!("song.getDetails:{}", query));
    assert_eq!(plan.ttl_secs, 1800);
    assert!(uses_cache(&plan));
    let plan = plan_fetch("webradio.createEntityStation", &vec![], Some("android"));
    assert!(plan.url.ends_with("&ctx=android"));
    assert!(!uses_cache(&plan));
}

#[test]
fn client_identities_and_headers() {
    let all = client_identities();
    assert_eq!(all.len(), 6);
    let picked = pick_client_identity();
    assert!(all.contains(&picked));
    let chrome = identity_headers(&all[0]);
    assert_eq!(chrome.len(), 5);
    assert_eq!(chrome[1], ("Content-Type".to_string(), "application/json".to_string()));
    let firefox = identity_headers(&all[3]);
    assert_eq!(
        firefox.iter().map(|p| p.0.as_str()).collect::<Vec<_>>(),
        vec!["User-Agent", "Content-Type", "Sec-CH-UA-Mobile", "Sec-CH-UA-Platform"]
    );
}

#[test]
fn circuit_breaker_opens_after_five_failures() {
    let mut b = CircuitBreaker::new();
    assert!(b.admits(100));
    for _ in 0..4 {
        assert!(!b.record_failure(100));
    }
    assert!(b.admits(100));
    assert!(b.record_failure(100));
    assert_eq!(b.open_until, 160);
    assert!(!b.admits(159));
    assert!(b.admits(160));
    assert_eq!(circuit_open_notice(&b, 150), "[CIRCUIT BREAKER] Rejecting request to HqAudio for 10s");
    b.record_success();
    assert_eq!(b.consecutive_errors, 0);
    assert!(!b.record_failure(170));
    assert_eq!(circuit_open_error(), "HqAudio API is currently unreachable. Circuit breaker is OPEN.");
}

#[test]
fn query_text_is_form_urlencoded() {
    let params = vec![
        ("q".to_string(), "Été é*-._~!".to_string()),
        ("n m".to_string(), String::new()),
    ];
    let plan = plan_fetch("search.getResults", &params, Some("wap6dot0"));
    assert!(plan.url.ends_with("&ctx=wap6dot0&q=%C3%89t%C3%A9+%C3%A9*-._%7E%21&n+m="));
}
