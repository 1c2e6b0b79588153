//! The log viewer: password checks, the names of the daily request logs and
//! which of them may be opened, listed, streamed or removed, the steps of a
//! live log stream, and the keys of the ban list.

use vstd::prelude::*;
use vstd::string::StrSliceExecFns;
use vstd::utf8::encode_utf8_decode_utf8;

use crate::models::AppError;
use crate::number::{decimal_text, format_u64};
use crate::text::{
    chars_of, contains, occurs_at, ends_with, has_prefix, has_substring, has_suffix, join2, join3,
    same_text, starts_with,
};

verus! {

/// The body of a request of the log viewer that only carries its password.
#[derive(Debug, Clone)]
pub struct LogsAuthPayload {
    pub password: String,
}

/// The body of a request about one log file.
#[derive(Debug, Clone)]
pub struct ViewLogPayload {
    pub password: String,
    pub file_name: String,
}

/// The query of a live log stream.
#[derive(Debug, Clone)]
pub struct WsParams {
    pub password: Option<String>,
    pub file_name: Option<String>,
}

/// The body of an unban request.
#[derive(Debug, Clone)]
pub struct UnbanPayload {
    pub password: String,
    pub ip: String,
}

/// The message that refuses a stream of a log that may not be opened.
pub fn invalid_stream_file_notice() -> (r: String)
    ensures
        r@ == "Error: Invalid log file name"@,
{
    "Error: Invalid log file name".to_owned()
}

/// The viewer's password as configured: only a non-empty one counts.
pub open spec fn configured_password_of(raw: Option<String>) -> Option<Seq<char>> {
    match raw {
        Some(p) => if p@.len() > 0 {
            Some(p@)
        } else {
            None
        },
        None => None,
    }
}

/// The configured password, where it is set and not empty.
pub fn configured_password(raw: Option<String>) -> (r: Option<String>)
    ensures
        match r {
            Some(p) => configured_password_of(raw) == Some(p@),
            None => configured_password_of(raw) is None,
        },
{
    match raw {
        Some(p) => if p.as_str().unicode_len() > 0 {
            Some(p)
        } else {
            None
        },
        None => None,
    }
}

/// One step of the comparison: the running difference of bytes stays zero
/// exactly while every pair of bytes so far is equal.
proof fn lemma_or_xor_zero(acc: u8, x: u8, y: u8)
    ensures
        ((acc | (x ^ y)) == 0) == (acc == 0 && x == y),
{
    assert(((acc | (x ^ y)) == 0) == (acc == 0 && x == y)) by (bit_vector);
}

/// Whether `a` and `b` are the same bytes, comparing every byte whatever
/// the earlier ones were.
pub fn constant_time_eq(a: &[u8], b: &[u8]) -> (r: bool)
    ensures
        r == (a@ == b@),
{
    if a.len() != b.len() {
        return false;
    }
    let n = a.len();
    let mut acc: u8 = 0;
    let mut i: usize = 0;
    while i < n
        invariant
            n == a@.len(),
            n == b@.len(),
            i <= n,
            (acc == 0) == (forall|k: int| 0 <= k < i ==> a@[k] == b@[k]),
        decreases n - i,
    {
        proof {
            lemma_or_xor_zero(acc, a@[i as int], b@[i as int]);
        }
        acc = acc | (a[i] ^ b[i]);
        i = i + 1;
    }
    proof {
        if acc == 0 {
            assert(a@ =~= b@);
        }
    }
    acc == 0
}

/// The answer to a password: accepted where it equals the configured one;
/// refused where it differs or where none is configured.
pub open spec fn password_verdict(provided: Seq<char>, configured: Option<Seq<char>>) -> Result<
    (),
    (u16, Seq<char>),
> {
    match configured {
        Some(c) => if provided == c {
            Ok(())
        } else {
            Err((401u16, "Incorrect password"@))
        },
        None => Err((401u16, "Logs access is disabled: LOGS_PASSWORD is not configured"@)),
    }
}

/// `r` is the answer that `verdict` describes.
pub open spec fn answers(r: Result<(), AppError>, verdict: Result<(), (u16, Seq<char>)>) -> bool {
    match verdict {
        Ok(_) => r is Ok,
        Err((status, message)) => r matches Err(e) && crate::models::status_of(e) == status
            && crate::models::message_of(e) == message,
    }
}

/// Checks a password against the configured one (bytes compared in
/// constant time).
pub fn verify_logs_password(provided: &str, configured: Option<&str>) -> (r: Result<(), AppError>)
    ensures
        answers(
            r,
            password_verdict(
                provided@,
                match configured {
                    Some(c) => Some(c@),
                    None => None,
                },
            ),
        ),
{
    match configured {
        Some(correct) => {
            let same = constant_time_eq(provided.as_bytes(), correct.as_bytes());
            proof {
                encode_utf8_decode_utf8(provided@);
                encode_utf8_decode_utf8(correct@);
            }
            if same {
                Ok(())
            } else {
                Err(AppError::Unauthorized("Incorrect password".to_owned()))
            }
        },
        None => Err(
            AppError::Unauthorized(
                "Logs access is disabled: LOGS_PASSWORD is not configured".to_owned(),
            ),
        ),
    }
}

/// A daily request log: `requests_` … `.log`.
pub open spec fn is_log_file_name(name: Seq<char>) -> bool {
    has_prefix(name, "requests_"@) && has_suffix(name, ".log"@)
}

/// A request log name that stays inside the log directory: no `/`, no `\`,
/// no `..`.
pub open spec fn is_safe_log_file_name(name: Seq<char>) -> bool {
    &&& is_log_file_name(name)
    &&& !has_substring(name, "/"@)
    &&& !has_substring(name, "\\"@)
    &&& !has_substring(name, ".."@)
}

/// Whether `name` is a daily request log.
pub fn is_request_log(name: &str) -> (r: bool)
    ensures
        r == is_log_file_name(name@),
{
    starts_with(name, "requests_") && ends_with(name, ".log")
}

/// Whether `name` is a request log that may be opened.
pub fn is_safe_log_file(name: &str) -> (r: bool)
    ensures
        r == is_safe_log_file_name(name@),
{
    is_request_log(name) && !contains(name, "/") && !contains(name, "\\") && !contains(name, "..")
}

/// Refuses a log name that may not be opened (`Invalid log file name`).
pub fn check_log_file_name(name: &str) -> (r: Result<(), AppError>)
    ensures
        r is Ok <==> is_safe_log_file_name(name@),
        r matches Err(e) ==> e == AppError::BadRequest(e->BadRequest_0) && e->BadRequest_0@
            == "Invalid log file name"@,
{
    if is_safe_log_file(name) {
        Ok(())
    } else {
        Err(AppError::BadRequest("Invalid log file name".to_owned()))
    }
}

/// The path of a log file in the log directory.
pub fn log_file_path(name: &str) -> (r: String)
    ensures
        r@ == "logs/"@ + name@,
{
    join2("logs/", name)
}

/// The answer to clearing a log.
pub fn cleared_message(name: &str) -> (r: String)
    ensures
        r@ == "Log file "@ + name@ + " cleared successfully"@,
{
    join3("Log file ", name, " cleared successfully")
}

/// The name of the request log of the day `date` (`YYYY-MM-DD`).
pub fn daily_log_name(date: &str) -> (r: String)
    ensures
        r@ == "requests_"@ + date@ + ".log"@,
{
    join3("requests_", date, ".log")
}

/// `a` comes before `b` in the order of `str`: by the first differing
/// character, a prefix first.
pub open spec fn text_less(a: Seq<char>, b: Seq<char>) -> bool
    decreases a.len(),
{
    if a.len() == 0 {
        b.len() > 0
    } else if b.len() == 0 {
        false
    } else if a[0] != b[0] {
        (a[0] as u32) < (b[0] as u32)
    } else {
        text_less(a.drop_first(), b.drop_first())
    }
}

/// No text comes before itself.
pub proof fn lemma_text_less_irreflexive(a: Seq<char>)
    ensures
        !text_less(a, a),
    decreases a.len(),
{
    if a.len() > 0 {
        lemma_text_less_irreflexive(a.drop_first());
    }
}

/// The order of texts is transitive.
pub proof fn lemma_text_less_transitive(a: Seq<char>, b: Seq<char>, c: Seq<char>)
    requires
        text_less(a, b),
        text_less(b, c),
    ensures
        text_less(a, c),
    decreases a.len(),
{
    if a.len() > 0 && b.len() > 0 && c.len() > 0 && a[0] == b[0] && b[0] == c[0] {
        lemma_text_less_transitive(a.drop_first(), b.drop_first(), c.drop_first());
    }
}

/// Whether `a` comes before `b`.
fn text_less_exec(a: &str, b: &str) -> (r: bool)
    ensures
        r == text_less(a@, b@),
{
    let u = chars_of(a);
    let v = chars_of(b);
    let mut i: usize = 0;
    assert(a@.skip(0) =~= a@);
    assert(b@.skip(0) =~= b@);
    while i < u.len() && i < v.len() && u[i] == v[i]
        invariant
            u@ == a@,
            v@ == b@,
            i <= u@.len(),
            i <= v@.len(),
            text_less(a@, b@) == text_less(a@.skip(i as int), b@.skip(i as int)),
        decreases u@.len() - i,
    {
        assert(a@.skip(i as int).drop_first() =~= a@.skip(i + 1));
        assert(b@.skip(i as int).drop_first() =~= b@.skip(i + 1));
        i = i + 1;
    }
    if i == u.len() {
        i < v.len()
    } else if i == v.len() {
        false
    } else {
        (u[i] as u32) < (v[i] as u32)
    }
}

/// `names` runs from the greatest to the least.
pub open spec fn sorted_descending(names: Seq<String>) -> bool {
    forall|i: int, j: int| 0 <= i < j < names.len() ==> !text_less(names[i]@, names[j]@)
}

/// Whether a name is that of a request log.
pub open spec fn names_request_log() -> spec_fn(String) -> bool {
    |s: String| is_log_file_name(s@)
}

/// The request logs among `names`.
pub open spec fn request_logs(names: Seq<String>) -> Seq<String> {
    names.filter(names_request_log())
}

/// Puts `name` into the descending `sorted`, before the first that comes
/// before it.
fn insert_descending(sorted: &mut Vec<String>, name: String)
    requires
        sorted_descending(old(sorted)@),
    ensures
        sorted_descending(final(sorted)@),
        final(sorted)@.to_multiset() == old(sorted)@.to_multiset().insert(name),
{
    let n = sorted.len();
    let mut p: usize = 0;
    while p < n && !text_less_exec(sorted[p].as_str(), name.as_str())
        invariant
            n == sorted@.len(),
            p <= n,
            forall|k: int| 0 <= k < p ==> !text_less(#[trigger] sorted@[k]@, name@),
        decreases n - p,
    {
        p = p + 1;
    }
    let ghost before = sorted@;
    proof {
        vstd::seq_lib::to_multiset_insert(before, p as int, name);
    }
    sorted.insert(p, name);
    assert forall|i: int, j: int| 0 <= i < j < sorted@.len() implies !text_less(
        sorted@[i]@,
        sorted@[j]@,
    ) by {
        if j == p {
        } else if i == p {
            let k = j - 1;
            if text_less(name@, before[k]@) {
                lemma_text_less_transitive(before[p as int]@, name@, before[k]@);
                if k == p {
                    lemma_text_less_irreflexive(before[p as int]@);
                }
            }
        } else {
        }
    }
}

/// The request logs among `names`, the latest day first.
pub fn list_log_files(names: Vec<String>) -> (r: Vec<String>)
    ensures
        sorted_descending(r@),
        r@.to_multiset() == request_logs(names@).to_multiset(),
{
    broadcast use vstd::seq_lib::group_to_multiset_ensures;

    let mut sorted: Vec<String> = Vec::new();
    let n = names.len();
    let mut i: usize = 0;
    proof {
        reveal(Seq::filter);
        assert(names@.take(0) =~= Seq::<String>::empty());
        assert(request_logs(names@.take(0)) =~= Seq::<String>::empty());
        assert(sorted@ =~= Seq::<String>::empty());
    }
    while i < n
        invariant
            n == names@.len(),
            i <= n,
            sorted_descending(sorted@),
            sorted@.to_multiset() == request_logs(names@.take(i as int)).to_multiset(),
        decreases n - i,
    {
        let name = names[i].clone();
        proof {
            assert(names@.take(i + 1) =~= names@.take(i as int).push(names@[i as int]));
            names@.take(i as int).lemma_filter_push(names@[i as int], names_request_log());
            assert(names_request_log()(names@[i as int]) == is_log_file_name(names@[i as int]@));
        }
        let ghost prev = request_logs(names@.take(i as int));
        let ghost next = request_logs(names@.take(i + 1));
        assert(name == names@[i as int]);
        if is_request_log(name.as_str()) {
            insert_descending(&mut sorted, name);
            assert(next == prev.push(names@[i as int]));
            proof {
                prev.to_multiset_ensures();
            }
            assert(next.to_multiset() == prev.to_multiset().insert(names@[i as int]));
        } else {
            assert(next == prev);
        }
        i = i + 1;
    }
    assert(names@.take(n as int) =~= names@);
    sorted
}

/// Checks the password of a live log stream: one must be given.
pub fn authorize_stream(password: Option<&str>, configured: Option<&str>) -> (r: Result<
    (),
    AppError,
>)
    ensures
        match password {
            Some(p) => answers(
                r,
                password_verdict(
                    p@,
                    match configured {
                        Some(c) => Some(c@),
                        None => None,
                    },
                ),
            ),
            None => answers(r, Err((401u16, "Password required"@))),
        },
{
    match password {
        Some(p) => verify_logs_password(p, configured),
        None => Err(AppError::Unauthorized("Password required".to_owned())),
    }
}

/// Whether a stream may follow `file_name`: the day's log where none is
/// named, or a request log that may be opened.
pub fn stream_file_allowed(file_name: &str) -> (r: bool)
    ensures
        r == (file_name@.len() == 0 || is_safe_log_file_name(file_name@)),
{
    file_name.unicode_len() == 0 || is_safe_log_file(file_name)
}

/// The log that a stream of `file_name` shows on the day `today`.
pub open spec fn stream_target_of(file_name: Seq<char>, today: Seq<char>) -> Seq<char> {
    if file_name.len() == 0 {
        "requests_"@ + today + ".log"@
    } else {
        file_name
    }
}

/// A stream of `target` follows new lines: `target` is the day's log.
pub open spec fn is_live_target(target: Seq<char>, today: Seq<char>) -> bool {
    target == "requests_"@ + today + ".log"@
}

/// The log that a stream shows: the named one, else the day's.
pub fn stream_target(file_name: &str, today: &str) -> (r: String)
    ensures
        r@ == stream_target_of(file_name@, today@),
{
    if file_name.unicode_len() == 0 {
        daily_log_name(today)
    } else {
        file_name.to_owned()
    }
}

/// The first message of a stream: the log's content so far (nothing where
/// it cannot be read) after an `[INITIAL_DUMP]` line.
pub fn initial_dump(content: Option<&str>) -> (r: String)
    ensures
        r@ == "[INITIAL_DUMP]\n"@ + match content {
            Some(c) => c@,
            None => Seq::empty(),
        },
{
    match content {
        Some(c) => join2("[INITIAL_DUMP]\n", c),
        None => {
            let r = "[INITIAL_DUMP]\n".to_owned();
            assert(r@ =~= "[INITIAL_DUMP]\n"@ + Seq::<char>::empty());
            r
        },
    }
}

/// Whether a stream of `target` follows new log lines: only the day's log
/// grows.
pub fn stream_is_live(target: &str, today: &str) -> (r: bool)
    ensures
        r == is_live_target(target@, today@),
{
    let daily = daily_log_name(today);
    same_text(target, daily.as_str())
}

/// What happens next in a live log stream.
#[derive(Debug, Clone, PartialEq)]
pub enum StreamEvent {
    /// The client closed the connection or its reader stopped.
    ClientGone,
    /// A new log line was broadcast.
    Line(String),
    /// The stream fell behind and this many lines were dropped.
    Lagged(u64),
    /// The broadcast of log lines ended.
    BroadcastClosed,
    /// It is time for a keep-alive ping.
    PingDue,
    /// Sending to the client failed.
    SendFailed,
    /// The client answered the ping.
    PongReceived,
    /// The client did not answer the ping in time.
    PongTimedOut,
}

/// What a live log stream does about an event.
#[derive(Debug, Clone, PartialEq)]
pub enum StreamAction {
    /// End the stream.
    Stop,
    /// Send a text; where `stop_on_failure` holds, a failed send ends the
    /// stream.
    Send { text: String, stop_on_failure: bool },
    /// Send a ping and wait for the answer.
    Ping,
    /// Wait for the next event.
    Continue,
}

/// The notice of dropped lines.
pub open spec fn lag_notice(n: u64) -> Seq<char> {
    "[SYSTEM] Warning: "@ + decimal_text(n as int) + " log messages were dropped due to slow connection"@
}

/// `a` is what a live stream does about `e`.
pub open spec fn is_stream_step(e: StreamEvent, a: StreamAction) -> bool {
    match e {
        StreamEvent::ClientGone => a == StreamAction::Stop,
        StreamEvent::Line(line) => a matches StreamAction::Send { text, stop_on_failure }
            && text@ == line@ && stop_on_failure,
        StreamEvent::Lagged(n) => a matches StreamAction::Send { text, stop_on_failure }
            && text@ == lag_notice(n) && !stop_on_failure,
        StreamEvent::BroadcastClosed => a == StreamAction::Stop,
        StreamEvent::PingDue => a == StreamAction::Ping,
        StreamEvent::SendFailed => a == StreamAction::Stop,
        StreamEvent::PongReceived => a == StreamAction::Continue,
        StreamEvent::PongTimedOut => a == StreamAction::Stop,
    }
}

/// Decides what a live log stream does about `event`.
pub fn stream_step(event: StreamEvent) -> (a: StreamAction)
    ensures
        is_stream_step(event, a),
{
    match event {
        StreamEvent::ClientGone => StreamAction::Stop,
        StreamEvent::Line(line) => StreamAction::Send { text: line, stop_on_failure: true },
        StreamEvent::Lagged(n) => {
            let count = format_u64(n);
            StreamAction::Send {
                text: join3(
                    "[SYSTEM] Warning: ",
                    count.as_str(),
                    " log messages were dropped due to slow connection",
                ),
                stop_on_failure: false,
            }
        },
        StreamEvent::BroadcastClosed => StreamAction::Stop,
        StreamEvent::PingDue => StreamAction::Ping,
        StreamEvent::SendFailed => StreamAction::Stop,
        StreamEvent::PongReceived => StreamAction::Continue,
        StreamEvent::PongTimedOut => StreamAction::Stop,
    }
}

/// The texts of `s`.
pub open spec fn texts(s: Seq<String>) -> Seq<Seq<char>> {
    s.map_values(|x: String| x@)
}

/// The address of a ban key (`ban:` and the address), where it is one.
pub open spec fn banned_address(key: Seq<char>) -> Option<Seq<char>> {
    if has_prefix(key, "ban:"@) {
        Some(key.skip(4))
    } else {
        None
    }
}

/// The banned addresses among the ban keys, in order.
pub fn banned_ips(keys: &Vec<String>) -> (r: Vec<String>)
    ensures
        texts(r@) == texts(keys@).filter_map(|k: Seq<char>| banned_address(k)),
{
    proof {
        reveal_strlit("ban:");
    }
    let mut r: Vec<String> = Vec::new();
    let n = keys.len();
    let mut i: usize = 0;
    assert(texts(keys@).take(0) =~= Seq::<Seq<char>>::empty());
    assert(texts(r@) =~= Seq::<Seq<char>>::empty());
    while i < n
        invariant
            n == keys@.len(),
            i <= n,
            texts(r@) == texts(keys@).take(i as int).filter_map(|k: Seq<char>| banned_address(k)),
        decreases n - i,
    {
        proof {
            texts(keys@).lemma_filter_map_take_succ(|k: Seq<char>| banned_address(k), i as int);
        }
        let key = keys[i].as_str();
        proof {
            reveal_strlit("ban:");
        }
        if starts_with(key, "ban:") {
            let ip = key.substring_char(4, key.unicode_len());
            r.push(ip.to_owned());
            assert(texts(r@) =~= texts(keys@).take(i + 1).filter_map(
                |k: Seq<char>| banned_address(k),
            ));
        }
        i = i + 1;
    }
    assert(texts(keys@).take(n as int) =~= texts(keys@));
    r
}

/// The ban key of an address.
pub fn ban_key(ip: &str) -> (r: String)
    ensures
        r@ == "ban:"@ + ip@,
{
    join2("ban:", ip)
}

/// The key that counts an address's rate-limit strikes.
pub fn strike_key(ip: &str) -> (r: String)
    ensures
        r@ == "strikes:"@ + ip@,
{
    join2("strikes:", ip)
}

/// The log line of a manual unban.
pub fn unban_message(ip: &str) -> (r: String)
    ensures
        r@ == "[SYSTEM] IP "@ + ip@ + " was manually unbanned by admin"@,
{
    join3("[SYSTEM] IP ", ip, " was manually unbanned by admin")
}

/// Whether the clean-up removes `name`: a request log of neither today
/// (`today_log`) nor yesterday (`yesterday_log`).
pub fn should_remove_log(name: &str, today_log: &str, yesterday_log: &str) -> (r: bool)
    ensures
        r == (is_log_file_name(name@) && name@ != today_log@ && name@ != yesterday_log@),
{
    is_request_log(name) && !same_text(name, today_log) && !same_text(name, yesterday_log)
}

/// A log name that passes the check keeps its path inside the log
/// directory: the path's only `/` is the one after `logs`, and it has no
/// `..`.
pub proof fn law_safe_log_path_stays_in_log_dir(name: Seq<char>)
    requires
        is_safe_log_file_name(name),
    ensures
        forall|i: int| 0 <= i < ("logs/"@ + name).len() && ("logs/"@ + name)[i] == '/' ==> i == 4,
        !has_substring("logs/"@ + name, ".."@),
{
    reveal_strlit("logs/");
    reveal_strlit("/");
    reveal_strlit("..");
    reveal_strlit("requests_");
    let path = "logs/"@ + name;
    assert forall|i: int| 0 <= i < path.len() && path[i] == '/' implies i == 4 by {
        if i >= 5 {
            assert(name.subrange(i - 5, i - 5 + 1) =~= "/"@);
            assert(occurs_at(name, "/"@, i - 5));
        }
    }
    assert forall|i: int| !occurs_at(path, ".."@, i) by {
        if occurs_at(path, ".."@, i) {
            assert(path.subrange(i, i + 2)[0] == '.');
            assert(path.subrange(i, i + 2)[1] == '.');
            if i >= 5 {
                assert(name.subrange(i - 5, i - 3) =~= ".."@);
                assert(occurs_at(name, ".."@, i - 5));
            } else if i == 4 {
                assert(name.take(9) =~= "requests_"@);
                assert(name[0] == 'r');
            }
        }
    }
}

/// The name of a day's log is that of a request log, whatever the date.
pub proof fn law_daily_log_is_request_log(date: Seq<char>)
    ensures
        is_log_file_name("requests_"@ + date + ".log"@),
{
    let name = "requests_"@ + date + ".log"@;
    assert(name.take("requests_"@.len() as int) =~= "requests_"@);
    assert(name.skip(name.len() - ".log"@.len()) =~= ".log"@);
}

/// The address in the ban key of an address is that address.
pub proof fn law_ban_key_round_trip(ip: Seq<char>)
    ensures
        banned_address("ban:"@ + ip) == Some(ip),
{
    reveal_strlit("ban:");
    let key = "ban:"@ + ip;
    assert(key.take(4) =~= "ban:"@);
    assert(key.skip(4) =~= ip);
}

/// A stream that names no file follows the day's request log, live.
pub proof fn law_default_stream_is_live(today: Seq<char>)
    ensures
        is_live_target(stream_target_of(Seq::empty(), today), today),
        is_log_file_name(stream_target_of(Seq::empty(), today)),
{
    law_daily_log_is_request_log(today);
}

} // verus!
