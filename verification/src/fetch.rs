//! Calls of the upstream API: how long a reply may be cached, the URL and
//! cache key of a call, the browser identity that a call presents, and the
//! circuit breaker that stops calls after repeated failures.

use vstd::prelude::*;
use vstd::string::StrSliceExecFns;
use vstd::utf8::encode_utf8;

use rand::seq::SliceRandom;

use crate::handlers::pairs_of;
use crate::text::{join3, same_text};
use crate::number::{decimal_text, format_u64};

verus! {

/// How long, in seconds, a reply of `endpoint` may be served from the
/// cache; 0: not cached.
pub open spec fn ttl_of(endpoint: Seq<char>) -> u64 {
    if endpoint == "lyrics.getLyrics"@ {
        43200
    } else if endpoint == "content.getAlbumDetails"@ || endpoint == "playlist.getDetails"@
        || endpoint == "artist.getArtistPageDetails"@ || endpoint == "artist.getArtistMoreSong"@
        || endpoint == "artist.getArtistMoreAlbum"@ {
        21600
    } else if endpoint == "autocomplete.get"@ || endpoint == "search.getResults"@ || endpoint
        == "search.getAlbumResults"@ || endpoint == "search.getArtistResults"@ || endpoint
        == "search.getPlaylistResults"@ {
        3600
    } else if endpoint == "song.getDetails"@ || endpoint == "webapi.get"@ {
        1800
    } else if endpoint == "webradio.getSong"@ {
        300
    } else {
        0
    }
}

/// How long, in seconds, a reply of `endpoint` may be cached (12 hours for
/// lyrics, 6 for albums, playlists and artists, 1 for searches, half an
/// hour for songs, 5 minutes for radio songs; 0 for the rest).
pub fn get_ttl(endpoint: &str) -> (r: u64)
    ensures
        r == ttl_of(endpoint@),
{
    if same_text(endpoint, "lyrics.getLyrics") {
        43200
    } else if same_text(endpoint, "content.getAlbumDetails") || same_text(
        endpoint,
        "playlist.getDetails",
    ) || same_text(endpoint, "artist.getArtistPageDetails") || same_text(
        endpoint,
        "artist.getArtistMoreSong",
    ) || same_text(endpoint, "artist.getArtistMoreAlbum") {
        21600
    } else if same_text(endpoint, "autocomplete.get") || same_text(endpoint, "search.getResults")
        || same_text(endpoint, "search.getAlbumResults") || same_text(
        endpoint,
        "search.getArtistResults",
    ) || same_text(endpoint, "search.getPlaylistResults") {
        3600
    } else if same_text(endpoint, "song.getDetails") || same_text(endpoint, "webapi.get") {
        1800
    } else if same_text(endpoint, "webradio.getSong") {
        300
    } else {
        0
    }
}

/// A byte that form-urlencoding keeps as it is: `*`, `-`, `.`, `_`, ASCII
/// digits and ASCII letters.
pub open spec fn is_form_safe_byte(b: u8) -> bool {
    ||| b == 0x2a
    ||| b == 0x2d
    ||| b == 0x2e
    ||| 0x30 <= b <= 0x39
    ||| 0x41 <= b <= 0x5a
    ||| b == 0x5f
    ||| 0x61 <= b <= 0x7a
}

/// The upper-case hexadecimal digit of `n` (0 to 15).
pub open spec fn upper_hex_digit(n: int) -> char {
    if n < 10 {
        (0x30 + n) as char
    } else {
        (0x37 + n) as char
    }
}

/// How form-urlencoding writes one byte: kept where it is safe, `+` for a
/// space, else `%` and two upper-case hexadecimal digits.
pub open spec fn form_byte_text(b: u8) -> Seq<char> {
    if b == 0x20 {
        seq!['+']
    } else if is_form_safe_byte(b) {
        seq![b as char]
    } else {
        seq!['%', upper_hex_digit(b as int / 16), upper_hex_digit(b as int % 16)]
    }
}

/// How form-urlencoding writes a sequence of bytes.
pub open spec fn form_bytes_text(bytes: Seq<u8>) -> Seq<char>
    decreases bytes.len(),
{
    if bytes.len() == 0 {
        Seq::empty()
    } else {
        form_byte_text(bytes[0]) + form_bytes_text(bytes.drop_first())
    }
}

/// How form-urlencoding writes one name/value pair: the UTF-8 of each
/// written out, joined by `=`.
pub open spec fn form_pair_text(pair: (Seq<char>, Seq<char>)) -> Seq<char> {
    form_bytes_text(encode_utf8(pair.0)) + "="@ + form_bytes_text(encode_utf8(pair.1))
}

/// The `application/x-www-form-urlencoded` text of `pairs`: each pair
/// written out, with `&` between them.
pub open spec fn form_urlencoded_text(pairs: Seq<(Seq<char>, Seq<char>)>) -> Seq<char>
    decreases pairs.len(),
{
    if pairs.len() == 0 {
        Seq::empty()
    } else if pairs.len() == 1 {
        form_pair_text(pairs[0])
    } else {
        form_urlencoded_text(pairs.drop_last()) + "&"@ + form_pair_text(pairs.last())
    }
}

/// Serializes `pairs` with `url::form_urlencoded::Serializer` (a new
/// serializer over an empty `String`, `extend_pairs`, `finish`), the
/// serializer that `Url::query_pairs_mut` appends a query with: the UTF-8
/// bytes of names and values written as `byte_serialize` writes them, `=`
/// within a pair and `&` before every pair but the first.
#[verifier::external_body]
fn form_urlencode(pairs: &Vec<(String, String)>) -> (r: String)
    ensures
        r@ == form_urlencoded_text(pairs_of(pairs@)),
{
    url::form_urlencoded::Serializer::new(String::new()).extend_pairs(
        pairs.iter().map(|p| (p.0.as_str(), p.1.as_str())),
    ).finish()
}

/// The address of the upstream API.
pub open spec fn api_base() -> Seq<char> {
    "https://www.hqaudio.com/api.php"@
}

/// The query parameters of a call: the endpoint, the JSON format, marker
/// 0, API version 4 and the context (`web6dot0` unless given), then the
/// call's own parameters.
pub open spec fn call_pairs(
    endpoint: Seq<char>,
    params: Seq<(Seq<char>, Seq<char>)>,
    context: Option<Seq<char>>,
) -> Seq<(Seq<char>, Seq<char>)> {
    seq![
        ("__call"@, endpoint),
        ("_format"@, "json"@),
        ("_marker"@, "0"@),
        ("api_version"@, "4"@),
        ("ctx"@, match context {
            Some(c) => c,
            None => "web6dot0"@,
        }),
    ] + params
}

/// How a call of the upstream API is made and cached.
#[derive(Debug, Clone)]
pub struct FetchPlan {
    /// The URL to request.
    pub url: String,
    /// The key of the reply in the cache: endpoint, `:`, query.
    pub cache_key: String,
    /// How long the reply may be cached, in seconds (0: not at all).
    pub ttl_secs: u64,
}

/// `p` is the plan of calling `endpoint` with `params` in `context`.
pub open spec fn is_plan_of(
    p: FetchPlan,
    endpoint: Seq<char>,
    params: Seq<(Seq<char>, Seq<char>)>,
    context: Option<Seq<char>>,
) -> bool {
    let query = form_urlencoded_text(call_pairs(endpoint, params, context));
    &&& p.url@ == api_base() + "?"@ + query
    &&& p.cache_key@ == endpoint + ":"@ + query
    &&& p.ttl_secs == ttl_of(endpoint)
}

/// Plans a call of `endpoint` with `params` in `context`.
pub fn plan_fetch(endpoint: &str, params: &Vec<(String, String)>, context: Option<&str>) -> (p:
    FetchPlan)
    ensures
        is_plan_of(
            p,
            endpoint@,
            pairs_of(params@),
            match context {
                Some(c) => Some(c@),
                None => None,
            },
        ),
{
    let ctx = match context {
        Some(c) => c.to_owned(),
        None => "web6dot0".to_owned(),
    };
    let mut pairs: Vec<(String, String)> = Vec::new();
    pairs.push(("__call".to_owned(), endpoint.to_owned()));
    pairs.push(("_format".to_owned(), "json".to_owned()));
    pairs.push(("_marker".to_owned(), "0".to_owned()));
    pairs.push(("api_version".to_owned(), "4".to_owned()));
    pairs.push(("ctx".to_owned(), ctx));
    let ghost head = pairs_of(pairs@);
    let mut i: usize = 0;
    while i < params.len()
        invariant
            i <= params@.len(),
            pairs_of(pairs@) == head + pairs_of(params@).take(i as int),
        decreases params@.len() - i,
    {
        let k = params[i].0.clone();
        let v = params[i].1.clone();
        let ghost before = pairs_of(pairs@);
        pairs.push((k, v));
        assert(pairs_of(pairs@) =~= before.push((params@[i as int].0@, params@[i as int].1@)));
        assert(pairs_of(params@).take(i + 1) =~= pairs_of(params@).take(i as int).push(
            (params@[i as int].0@, params@[i as int].1@),
        ));
        assert(pairs_of(pairs@) =~= head + pairs_of(params@).take(i + 1));
        i = i + 1;
    }
    assert(pairs_of(params@).take(params@.len() as int) =~= pairs_of(params@));
    assert(head =~= seq![
        ("__call"@, endpoint@),
        ("_format"@, "json"@),
        ("_marker"@, "0"@),
        ("api_version"@, "4"@),
        ("ctx"@, match context {
            Some(c) => c@,
            None => "web6dot0"@,
        }),
    ]);
    assert(pairs_of(pairs@) == call_pairs(
        endpoint@,
        pairs_of(params@),
        match context {
            Some(c) => Some(c@),
            None => None,
        },
    ));
    let query = form_urlencode(&pairs);
    FetchPlan {
        url: join3("https://www.hqaudio.com/api.php", "?", query.as_str()),
        cache_key: join3(endpoint, ":", query.as_str()),
        ttl_secs: get_ttl(endpoint),
    }
}

/// A cached reply is looked up and stored only where the plan allows
/// caching.
pub fn uses_cache(plan: &FetchPlan) -> (r: bool)
    ensures
        r == (plan.ttl_secs > 0),
{
    plan.ttl_secs > 0
}

/// The browser that a call presents itself as: its user agent and client
/// hints (an empty hint is not sent).
#[derive(Debug, Clone, PartialEq)]
pub struct ClientIdentity {
    pub user_agent: String,
    pub sec_ch_ua: String,
    pub sec_ch_ua_mobile: String,
    pub sec_ch_ua_platform: String,
}

/// An identity from its four texts.
fn identity(user_agent: &str, sec_ch_ua: &str, mobile: &str, platform: &str) -> (r: ClientIdentity)
    ensures
        r.user_agent@ == user_agent@,
        r.sec_ch_ua@ == sec_ch_ua@,
        r.sec_ch_ua_mobile@ == mobile@,
        r.sec_ch_ua_platform@ == platform@,
{
    ClientIdentity {
        user_agent: user_agent.to_owned(),
        sec_ch_ua: sec_ch_ua.to_owned(),
        sec_ch_ua_mobile: mobile.to_owned(),
        sec_ch_ua_platform: platform.to_owned(),
    }
}

/// The identities that calls present, in order: user agent, `Sec-CH-UA`,
/// `Sec-CH-UA-Mobile` and `Sec-CH-UA-Platform`.
pub open spec fn known_identities() -> Seq<(Seq<char>, Seq<char>, Seq<char>, Seq<char>)> {
    let chrome = "\"Google Chrome\";v=\"149\", \"Chromium\";v=\"149\", \"Not.A/Brand\";v=\"24\""@;
    seq![
        ("Mozilla/5.0 (Windows NT 10.0; Win64; x64) AppleWebKit/537.36 (KHTML, like Gecko) Chrome/149.0.0.0 Safari/537.36"@, chrome, "?0"@, "\"Windows\""@),
        ("Mozilla/5.0 (Macintosh; Intel Mac OS X 10_15_7) AppleWebKit/537.36 (KHTML, like Gecko) Chrome/149.0.0.0 Safari/537.36"@, chrome, "?0"@, "\"macOS\""@),
        ("Mozilla/5.0 (Linux; Android 10; K) AppleWebKit/537.36 (KHTML, like Gecko) Chrome/149.0.0.0 Mobile Safari/537.36"@, chrome, "?1"@, "\"Android\""@),
        ("Mozilla/5.0 (Windows NT 10.0; Win64; x64; rv:152.0) Gecko/20100101 Firefox/152.0"@, ""@, "?0"@, "\"Windows\""@),
        ("Mozilla/5.0 (Macintosh; Intel Mac OS X 10_15_7) AppleWebKit/605.1.15 (KHTML, like Gecko) Version/26.5 Safari/605.1.15"@, ""@, "?0"@, "\"macOS\""@),
        ("Mozilla/5.0 (iPhone; CPU iPhone OS 26_5_1 like Mac OS X) AppleWebKit/605.1.15 (KHTML, like Gecko) Version/26.5 Mobile/15E148 Safari/604.1"@, ""@, "?1"@, "\"iOS\""@),
    ]
}

/// `c` is the identity that `t` lists.
pub open spec fn is_identity(c: ClientIdentity, t: (Seq<char>, Seq<char>, Seq<char>, Seq<char>)) -> bool {
    c.user_agent@ == t.0 && c.sec_ch_ua@ == t.1 && c.sec_ch_ua_mobile@ == t.2
        && c.sec_ch_ua_platform@ == t.3
}

/// The identities that calls present: Chrome on Windows, macOS and
/// Android, Firefox on Windows, Safari on macOS and iOS.
pub fn client_identities() -> (r: Vec<ClientIdentity>)
    ensures
        r@.len() == known_identities().len(),
        forall|i: int| 0 <= i < r@.len() ==> is_identity(#[trigger] r@[i], known_identities()[i]),
{
    let chrome_hints = "\"Google Chrome\";v=\"149\", \"Chromium\";v=\"149\", \"Not.A/Brand\";v=\"24\"";
    let mut r: Vec<ClientIdentity> = Vec::new();
    r.push(
        identity(
            "Mozilla/5.0 (Windows NT 10.0; Win64; x64) AppleWebKit/537.36 (KHTML, like Gecko) Chrome/149.0.0.0 Safari/537.36",
            chrome_hints,
            "?0",
            "\"Windows\"",
        ),
    );
    r.push(
        identity(
            "Mozilla/5.0 (Macintosh; Intel Mac OS X 10_15_7) AppleWebKit/537.36 (KHTML, like Gecko) Chrome/149.0.0.0 Safari/537.36",
            chrome_hints,
            "?0",
            "\"macOS\"",
        ),
    );
    r.push(
        identity(
            "Mozilla/5.0 (Linux; Android 10; K) AppleWebKit/537.36 (KHTML, like Gecko) Chrome/149.0.0.0 Mobile Safari/537.36",
            chrome_hints,
            "?1",
            "\"Android\"",
        ),
    );
    r.push(
        identity(
            "Mozilla/5.0 (Windows NT 10.0; Win64; x64; rv:152.0) Gecko/20100101 Firefox/152.0",
            "",
            "?0",
            "\"Windows\"",
        ),
    );
    r.push(
        identity(
            "Mozilla/5.0 (Macintosh; Intel Mac OS X 10_15_7) AppleWebKit/605.1.15 (KHTML, like Gecko) Version/26.5 Safari/605.1.15",
            "",
            "?0",
            "\"macOS\"",
        ),
    );
    r.push(
        identity(
            "Mozilla/5.0 (iPhone; CPU iPhone OS 26_5_1 like Mac OS X) AppleWebKit/605.1.15 (KHTML, like Gecko) Version/26.5 Mobile/15E148 Safari/604.1",
            "",
            "?1",
            "\"iOS\"",
        ),
    );
    r
}

/// Picks an element of `items` at random with `SliceRandom::choose` and
/// the thread's generator: `None` exactly for an empty slice, otherwise one
/// of its elements. Which one is left open.
#[verifier::external_body]
fn choose_at_random(items: &[ClientIdentity]) -> (r: Option<&ClientIdentity>)
    ensures
        match r {
            Some(x) => exists|i: int| 0 <= i < items@.len() && items@[i] == *x,
            None => items@.len() == 0,
        },
{
    items.choose(&mut rand::thread_rng())
}

/// A random one of the client identities.
pub fn pick_client_identity() -> (r: ClientIdentity)
    ensures
        exists|i: int| 0 <= i < known_identities().len() && is_identity(r, known_identities()[i]),
{
    let all = client_identities();
    let chosen = match choose_at_random(all.as_slice()) {
        Some(x) => x,
        None => &all[0],
    };
    let ghost k = choose|k: int| 0 <= k < 6 && all@[k] == *chosen;
    assert(0 <= k < 6 && all@[k] == *chosen);
    assert(is_identity(*chosen, known_identities()[k]));
    ClientIdentity {
        user_agent: chosen.user_agent.clone(),
        sec_ch_ua: chosen.sec_ch_ua.clone(),
        sec_ch_ua_mobile: chosen.sec_ch_ua_mobile.clone(),
        sec_ch_ua_platform: chosen.sec_ch_ua_platform.clone(),
    }
}

/// The headers that present `identity`: user agent and JSON content type,
/// then each client hint that is not empty.
pub open spec fn identity_headers_of(identity: ClientIdentity) -> Seq<(Seq<char>, Seq<char>)> {
    seq![("User-Agent"@, identity.user_agent@), ("Content-Type"@, "application/json"@)] + (if identity.sec_ch_ua@.len() > 0 {
        seq![("Sec-CH-UA"@, identity.sec_ch_ua@)]
    } else {
        Seq::empty()
    }) + (if identity.sec_ch_ua_mobile@.len() > 0 {
        seq![("Sec-CH-UA-Mobile"@, identity.sec_ch_ua_mobile@)]
    } else {
        Seq::empty()
    }) + (if identity.sec_ch_ua_platform@.len() > 0 {
        seq![("Sec-CH-UA-Platform"@, identity.sec_ch_ua_platform@)]
    } else {
        Seq::empty()
    })
}

/// The request headers of `identity`.
pub fn identity_headers(identity: &ClientIdentity) -> (r: Vec<(String, String)>)
    ensures
        pairs_of(r@) == identity_headers_of(*identity),
{
    let mut r: Vec<(String, String)> = Vec::new();
    r.push(("User-Agent".to_owned(), identity.user_agent.clone()));
    r.push(("Content-Type".to_owned(), "application/json".to_owned()));
    let ghost s0 = pairs_of(r@);
    if identity.sec_ch_ua.as_str().unicode_len() > 0 {
        r.push(("Sec-CH-UA".to_owned(), identity.sec_ch_ua.clone()));
    }
    let ghost s1 = pairs_of(r@);
    if identity.sec_ch_ua_mobile.as_str().unicode_len() > 0 {
        r.push(("Sec-CH-UA-Mobile".to_owned(), identity.sec_ch_ua_mobile.clone()));
    }
    let ghost s2 = pairs_of(r@);
    if identity.sec_ch_ua_platform.as_str().unicode_len() > 0 {
        r.push(("Sec-CH-UA-Platform".to_owned(), identity.sec_ch_ua_platform.clone()));
    }
    assert(pairs_of(r@) =~= identity_headers_of(*identity));
    r
}

/// Consecutive failures after which the breaker opens.
pub const FAILURE_THRESHOLD: u64 = 5;

/// How long, in seconds, an open breaker refuses calls.
pub const OPEN_SECONDS: u64 = 60;

/// The circuit breaker of upstream calls: failures in a row, and the time
/// (seconds since the Unix epoch) until which calls are refused.
#[derive(Debug, Clone, Copy, PartialEq, Eq)]
pub struct CircuitBreaker {
    pub consecutive_errors: u64,
    pub open_until: u64,
}

/// The breaker after a failed call at time `now`: one more failure in a
/// row (the count wraps at `u64::MAX`); from the fifth on, open for a
/// minute from `now`.
pub open spec fn after_failure(b: CircuitBreaker, now: u64) -> CircuitBreaker {
    let errors = if b.consecutive_errors == u64::MAX {
        0
    } else {
        (b.consecutive_errors + 1) as u64
    };
    CircuitBreaker {
        consecutive_errors: errors,
        open_until: if errors >= FAILURE_THRESHOLD {
            (now + OPEN_SECONDS) as u64
        } else {
            b.open_until
        },
    }
}

/// The breaker after a successful call.
pub open spec fn after_success(b: CircuitBreaker) -> CircuitBreaker {
    CircuitBreaker { consecutive_errors: 0, open_until: b.open_until }
}

/// Whether the breaker lets a call at time `now` through.
pub open spec fn lets_through(b: CircuitBreaker, now: u64) -> bool {
    now >= b.open_until
}

impl CircuitBreaker {
    /// A closed breaker with no failures.
    pub fn new() -> (b: CircuitBreaker)
        ensures
            b.consecutive_errors == 0,
            b.open_until == 0,
    {
        CircuitBreaker { consecutive_errors: 0, open_until: 0 }
    }

    /// Whether a call at time `now` may go ahead: only once the breaker's
    /// open time has passed.
    pub fn admits(&self, now: u64) -> (r: bool)
        ensures
            r == lets_through(*self, now),
    {
        now >= self.open_until
    }

    /// Records a failed call at time `now`: one more failure in a row; from
    /// the fifth on, the breaker opens for a minute from `now`. Returns
    /// whether it opened.
    pub fn record_failure(&mut self, now: u64) -> (opened: bool)
        requires
            now <= u64::MAX - OPEN_SECONDS,
        ensures
            *final(self) == after_failure(*old(self), now),
            opened == (final(self).consecutive_errors >= FAILURE_THRESHOLD),
            old(self).consecutive_errors < u64::MAX ==> final(self).consecutive_errors
                == old(self).consecutive_errors + 1,
            final(self).consecutive_errors >= FAILURE_THRESHOLD ==> final(self).open_until == now
                + OPEN_SECONDS,
            final(self).consecutive_errors < FAILURE_THRESHOLD ==> final(self).open_until == old(
                self,
            ).open_until,
    {
        self.consecutive_errors = self.consecutive_errors.wrapping_add(1);
        if self.consecutive_errors >= FAILURE_THRESHOLD {
            self.open_until = now + OPEN_SECONDS;
            true
        } else {
            false
        }
    }

    /// Records a successful call: the count of failures starts again.
    pub fn record_success(&mut self)
        ensures
            *final(self) == after_success(*old(self)),
    {
        self.consecutive_errors = 0;
    }
}

/// The error of a call that an open breaker refuses.
pub fn circuit_open_error() -> (r: String)
    ensures
        r@ == "HqAudio API is currently unreachable. Circuit breaker is OPEN."@,
{
    "HqAudio API is currently unreachable. Circuit breaker is OPEN.".to_owned()
}

/// The log line of a refused call: how many seconds the breaker stays open.
pub fn circuit_open_notice(breaker: &CircuitBreaker, now: u64) -> (r: String)
    requires
        now < breaker.open_until,
    ensures
        r@ == "[CIRCUIT BREAKER] Rejecting request to HqAudio for "@ + decimal_text(
            breaker.open_until - now,
        ) + "s"@,
{
    let left = format_u64(breaker.open_until - now);
    join3("[CIRCUIT BREAKER] Rejecting request to HqAudio for ", left.as_str(), "s")
}

/// Five failed calls in a row, at time `now`, after a success (or from a
/// fresh breaker) open the breaker: it refuses calls for the next minute
/// and lets them through again from then on; the first four leave the
/// open time as it was.
pub proof fn law_five_failures_open_breaker(b: CircuitBreaker, now: u64, later: u64)
    requires
        b.consecutive_errors == 0,
        now <= u64::MAX - OPEN_SECONDS,
    ensures
        ({
            let b1 = after_failure(b, now);
            let b2 = after_failure(b1, now);
            let b3 = after_failure(b2, now);
            let b4 = after_failure(b3, now);
            let b5 = after_failure(b4, now);
            &&& b4.open_until == b.open_until
            &&& b5.open_until == now + OPEN_SECONDS
            &&& (now <= later < now + OPEN_SECONDS ==> !lets_through(b5, later))
            &&& (later >= now + OPEN_SECONDS ==> lets_through(b5, later))
        }),
{
}

/// A success between failures starts the count again: after it, four more
/// failures do not change when the breaker lets calls through.
pub proof fn law_success_resets_failures(b: CircuitBreaker, now: u64)
    requires
        now <= u64::MAX - OPEN_SECONDS,
    ensures
        ({
            let s = after_success(b);
            let f4 = after_failure(after_failure(after_failure(after_failure(s, now), now), now), now);
            f4.open_until == b.open_until && f4.consecutive_errors == 4
        }),
{
}

/// Every failure that leaves at least `FAILURE_THRESHOLD` failures in a
/// row (the fifth, the sixth, and so on) opens the breaker afresh for
/// `OPEN_SECONDS` from the time of that failure, so calls in that minute are
/// refused whenever the breaker had opened before.
pub proof fn law_each_failure_from_the_fifth_reopens(b: CircuitBreaker, now: u64, later: u64)
    requires
        FAILURE_THRESHOLD - 1 <= b.consecutive_errors < u64::MAX,
        now <= u64::MAX - OPEN_SECONDS,
    ensures
        after_failure(b, now).consecutive_errors == b.consecutive_errors + 1,
        after_failure(b, now).open_until == now + OPEN_SECONDS,
        now <= later < now + OPEN_SECONDS ==> !lets_through(after_failure(b, now), later),
{
}

/// Failures go on reopening the breaker: a sixth failure at a later time
/// `t6` keeps it shut until a minute after `t6`, not after the fifth.
pub proof fn law_sixth_failure_extends_opening(b: CircuitBreaker, t5: u64, t6: u64)
    requires
        b.consecutive_errors == 0,
        t5 <= t6 <= u64::MAX - OPEN_SECONDS,
    ensures
        ({
            let b5 = after_failure(
                after_failure(after_failure(after_failure(after_failure(b, t5), t5), t5), t5),
                t5,
            );
            let b6 = after_failure(b5, t6);
            &&& b6.open_until == t6 + OPEN_SECONDS
            &&& forall|t: u64| t6 <= t < t6 + OPEN_SECONDS ==> !#[trigger] lets_through(b6, t)
        }),
{
}

} // verus!
