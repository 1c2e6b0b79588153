//! The server's own rules: which address a request comes from, when an
//! address is banned, which requests are logged and how, when the request
//! log moves to a new file, and the status report of the cache.

use vstd::prelude::*;
use vstd::string::StrSliceExecFns;
use vstd::string::StringExecFns;

use crate::number::{decimal_text, format_i64, format_u64};
use crate::text::{has_prefix, join2, join3, same_text, split_nth, split_piece, starts_with, trim, trimmed};

verus! {

/// The address of a request: the first entry of `X-Forwarded-For`
/// (trimmed), else `X-Real-IP`, else the peer's address, else `unknown`.
pub open spec fn client_ip_of(
    forwarded: Option<Seq<char>>,
    real_ip: Option<Seq<char>>,
    peer: Option<Seq<char>>,
) -> Seq<char> {
    match forwarded {
        Some(f) => match split_piece(f, ","@, 0) {
            Some(first) => trimmed(first),
            None => Seq::empty(),
        },
        None => match real_ip {
            Some(r) => r,
            None => match peer {
                Some(p) => p,
                None => "unknown"@,
            },
        },
    }
}

/// The view of an optional text.
pub open spec fn opt_view(o: Option<&str>) -> Option<Seq<char>> {
    match o {
        Some(s) => Some(s@),
        None => None,
    }
}

/// The address that a request comes from, from its headers and its peer.
pub fn client_ip(forwarded: Option<&str>, real_ip: Option<&str>, peer: Option<&str>) -> (r: String)
    ensures
        r@ == client_ip_of(opt_view(forwarded), opt_view(real_ip), opt_view(peer)),
{
    proof {
        reveal_strlit(",");
    }
    match forwarded {
        Some(f) => match split_nth(f, ",", 0) {
            Some(first) => trim(first.as_str()),
            None => String::new(),
        },
        None => match real_ip {
            Some(r) => r.to_owned(),
            None => match peer {
                Some(p) => p.to_owned(),
                None => "unknown".to_owned(),
            },
        },
    }
}

/// The user agent of a request, or `unknown`.
pub fn user_agent_or_unknown(user_agent: Option<&str>) -> (r: String)
    ensures
        r@ == match user_agent {
            Some(u) => u@,
            None => "unknown"@,
        },
{
    match user_agent {
        Some(u) => u.to_owned(),
        None => "unknown".to_owned(),
    }
}

/// How long, in seconds, strikes are counted after the first.
pub const STRIKE_WINDOW_SECS: u64 = 60;

/// Strikes within the window that get an address banned.
pub const BAN_THRESHOLD: i32 = 15;

/// How long, in seconds, a ban lasts.
pub const BAN_SECS: u64 = 86400;

/// Whether a response counts as a strike against its address: it was
/// rate-limited (429).
pub fn is_strike(status: u16) -> (r: bool)
    ensures
        r == (status == 429),
{
    status == 429
}

/// What a strike leads to.
#[derive(Debug, Clone, Copy, PartialEq, Eq)]
pub struct StrikeDecision {
    /// Start the window in which strikes are counted.
    pub start_window: bool,
    /// Ban the address.
    pub ban: bool,
}

/// What the `strikes`-th strike of an address leads to: the first starts
/// the counting window; the fifteenth and later ones ban the address.
pub fn strike_decision(strikes: i32) -> (d: StrikeDecision)
    ensures
        d.start_window == (strikes == 1),
        d.ban == (strikes >= BAN_THRESHOLD),
{
    StrikeDecision { start_window: strikes == 1, ban: strikes >= BAN_THRESHOLD }
}

/// The log line of a request refused because its address is banned.
pub fn blocked_notice(ip: &str) -> (r: String)
    ensures
        r@ == "[DDOS PROTECT] Blocked request from banned IP: "@ + ip@,
{
    join2("[DDOS PROTECT] Blocked request from banned IP: ", ip)
}

/// The log line of a new ban.
pub fn ban_notice(ip: &str, strikes: i32) -> (r: String)
    ensures
        r@ == "[DDOS PROTECT] 🚨 BANNED IP "@ + ip@ + " for 24 hours after "@ + decimal_text(
            strikes as int,
        ) + " strikes"@,
{
    let mut r = join3("[DDOS PROTECT] 🚨 BANNED IP ", ip, " for 24 hours after ");
    let count = format_i64(strikes as i64);
    r.append(count.as_str());
    r.append(" strikes");
    r
}

/// Whether a request to `uri` is logged: not those of the log viewer.
pub fn should_log_request(uri: &str) -> (r: bool)
    ensures
        r == (!has_prefix(uri@, "/logs"@) && !has_prefix(uri@, "/api/logs"@)),
{
    !starts_with(uri, "/logs") && !starts_with(uri, "/api/logs")
}

/// The access log line of a request (a missing content length reads 0).
pub fn access_log_line(
    ip: &str,
    user_agent: &str,
    method: &str,
    uri: &str,
    status: u16,
    millis: u64,
    content_length: Option<&str>,
) -> (r: String)
    ensures
        r@ == "[IP: "@ + ip@ + "] [UA: "@ + user_agent@ + "] "@ + method@ + " "@ + uri@ + " "@
            + decimal_text(status as int) + " "@ + decimal_text(millis as int) + "ms "@
            + match content_length {
            Some(c) => c@,
            None => "0"@,
        } + "B"@,
{
    let mut r = join3("[IP: ", ip, "] [UA: ");
    r.append(user_agent);
    r.append("] ");
    r.append(method);
    r.append(" ");
    r.append(uri);
    r.append(" ");
    let status_text = format_u64(status as u64);
    r.append(status_text.as_str());
    r.append(" ");
    let millis_text = format_u64(millis);
    r.append(millis_text.as_str());
    r.append("ms ");
    match content_length {
        Some(c) => r.append(c),
        None => r.append("0"),
    }
    r.append("B");
    r
}

/// A log line with its time stamp.
pub fn timestamped_line(timestamp: &str, message: &str) -> (r: String)
    ensures
        r@ == "["@ + timestamp@ + "] "@ + message@,
{
    let mut r = join3("[", timestamp, "] ");
    r.append(message);
    r
}

/// Whether the request log moves to a new file: on a new day, or where no
/// file is open.
pub fn needs_new_log_file(date: &str, current_date: &str, has_file: bool) -> (r: bool)
    ensures
        r == (date@ != current_date@ || !has_file),
{
    !same_text(date, current_date) || !has_file
}

/// The path of the request log of the day `date`.
pub fn daily_log_path(date: &str) -> (r: String)
    ensures
        r@ == "logs/requests_"@ + date@ + ".log"@,
{
    join3("logs/requests_", date, ".log")
}

/// The status report of the cache.
#[derive(Debug, Clone, PartialEq)]
pub struct SystemStatus {
    pub cache_system: String,
    pub redis: String,
    pub db: String,
    pub banned_ips: usize,
    pub ddos_protection: String,
}

/// What the status probe of the cache found.
#[derive(Debug, Clone, PartialEq)]
pub enum CacheProbe {
    /// No connection pool was set up.
    NotInitialized,
    /// No connection could be had in time.
    NoConnection,
    /// A connection answered the ping with `ping` (`None`: the ping failed
    /// or timed out) and listed `ban_keys` ban keys (`None`: the listing
    /// failed).
    Connected { ping: Option<String>, ban_keys: Option<usize> },
}

/// The state of the cache that a probe shows.
pub open spec fn redis_state(probe: CacheProbe) -> Seq<char> {
    match probe {
        CacheProbe::NotInitialized => "Not Initialized"@,
        CacheProbe::NoConnection => "Pool Exhausted/Error"@,
        CacheProbe::Connected { ping, ban_keys } => match ping {
            Some(p) => if p@ == "PONG"@ {
                "Connected"@
            } else {
                "Disconnected"@
            },
            None => "Error"@,
        },
    }
}

/// `s` is the report of `probe`: the cache works only where the ping was
/// answered `PONG`; abuse protection is active only then; the ban count is
/// that of the listing, 0 without one.
pub open spec fn is_status_of(s: SystemStatus, probe: CacheProbe) -> bool {
    let redis = redis_state(probe);
    &&& s.redis@ == redis
    &&& s.cache_system@ == (if redis == "Connected"@ {
        "Operational"@
    } else {
        "Degraded"@
    })
    &&& s.db@ == "N/A (Redis Only)"@
    &&& s.banned_ips == match probe {
        CacheProbe::Connected { ping, ban_keys } => match ban_keys {
            Some(n) => n,
            None => 0,
        },
        _ => 0,
    }
    &&& s.ddos_protection@ == (if redis == "Connected"@ {
        "Active"@
    } else {
        "Degraded"@
    })
}

/// The status report of the cache from what its probe found.
pub fn system_status(probe: &CacheProbe) -> (s: SystemStatus)
    ensures
        is_status_of(s, *probe),
{
    proof {
        reveal_strlit("Connected");
        reveal_strlit("Disconnected");
        reveal_strlit("Error");
        reveal_strlit("Not Initialized");
        reveal_strlit("Pool Exhausted/Error");
    }
    let (redis, connected, banned) = match probe {
        CacheProbe::NotInitialized => ("Not Initialized".to_owned(), false, 0usize),
        CacheProbe::NoConnection => ("Pool Exhausted/Error".to_owned(), false, 0usize),
        CacheProbe::Connected { ping, ban_keys } => {
            let banned: usize = match ban_keys {
                Some(n) => *n,
                None => 0,
            };
            match ping {
                Some(p) => if same_text(p.as_str(), "PONG") {
                    ("Connected".to_owned(), true, banned)
                } else {
                    ("Disconnected".to_owned(), false, banned)
                },
                None => ("Error".to_owned(), false, banned),
            }
        },
    };
    assert(redis@ == redis_state(*probe));
    assert(connected == (redis@ == "Connected"@));
    SystemStatus {
        cache_system: if connected {
            "Operational".to_owned()
        } else {
            "Degraded".to_owned()
        },
        redis,
        db: "N/A (Redis Only)".to_owned(),
        banned_ips: banned,
        ddos_protection: if connected {
            "Active".to_owned()
        } else {
            "Degraded".to_owned()
        },
    }
}

} // verus!
