//! The ingest client: endpoint normalisation, the requests it sends, how a
//! reply is judged, and the one-event batches of its convenience calls.

use vstd::prelude::*;

use crate::error::UsermonError;
use crate::text::{
    char_pred, concat2, drop_leading, has_suffix, is_blank, is_space,
    lemma_drop_leading_concat, lemma_drop_leading_noop, lemma_drop_leading_shape,
    lemma_drop_trailing_idem,
    lemma_drop_trailing_last, lemma_drop_trailing_noop, lemma_trim_empty_iff_blank,
    lemma_trim_ends, space_pred, strip_suffix, strip_suffix_str, trim, trim_end_char,
    trim_end_char_str, trim_str,
};
use crate::types::{
    ApiSpan, Exception, IngestBatch, IssueLevel, LogEvent, LogLevel, Platform, Session,
};

verus! {

/// The ingest endpoint used when none is given.
pub const DEFAULT_ENDPOINT: &'static str = "https://ingest.usermon.dev";

/// The path of the ingest route below the endpoint.
pub const INGEST_PATH: &'static str = "/v1/ingest";

/// The path of the health route below the endpoint.
pub const HEALTH_PATH: &'static str = "/health";

// ── Time ────────────────────────────────────────────────────────────────────

/// `std::time::SystemTime`, carried through opaque.
#[verifier::external_type_specification]
#[verifier::external_body]
pub struct ExSystemTime(std::time::SystemTime);

/// `std::time::SystemTimeError`, carried through opaque.
#[verifier::external_type_specification]
#[verifier::external_body]
pub struct ExSystemTimeError(std::time::SystemTimeError);

/// `SystemTime::now`: the machine's clock. Nothing is claimed of it.
#[verifier::external_body]
fn system_time_now() -> std::time::SystemTime {
    std::time::SystemTime::now()
}

/// `SystemTime::duration_since(UNIX_EPOCH)`: how long after the epoch `t`
/// lies, or an error when it lies before. Nothing is claimed of which.
#[verifier::external_body]
fn elapsed_since_unix_epoch(t: &std::time::SystemTime) -> std::result::Result<
    std::time::Duration,
    std::time::SystemTimeError,
> {
    t.duration_since(std::time::UNIX_EPOCH)
}

/// `Duration::as_millis`: the whole milliseconds of `d`. A `Duration` has no
/// view here, so nothing is claimed of the number.
#[verifier::external_body]
fn duration_as_millis(d: &std::time::Duration) -> u128 {
    d.as_millis()
}

/// The millisecond timestamp for a clock reading: the milliseconds since the
/// epoch truncated to 64 bits, or 0 when the clock reads before the epoch.
pub fn epoch_millis_to_u64(ms: Option<u128>) -> (r: u64)
    ensures
        r == match ms {
            Some(m) => m as u64,
            None => 0u64,
        },
{
    match ms {
        Some(m) => m as u64,
        None => 0,
    }
}

/// The current time in milliseconds since the UNIX epoch (0 when the clock
/// reads before the epoch).
pub fn now_ms() -> u64 {
    let now = system_time_now();
    let ms = match elapsed_since_unix_epoch(&now) {
        Ok(d) => Some(duration_as_millis(&d)),
        Err(_) => None,
    };
    epoch_millis_to_u64(ms)
}

// ── Random identifiers ──────────────────────────────────────────────────────

/// A lower-case hexadecimal digit.
pub open spec fn is_lower_hex(c: char) -> bool {
    ('0' <= c <= '9') || ('a' <= c <= 'f')
}

/// `uuid::Uuid::new_v4().simple().to_string()`: a fresh random version 4
/// UUID in its simple form. Claims what the crate's `format_simple` writes:
/// 32 characters, each `0`-`9` or `a`-`f`; which ones is left to chance.
#[verifier::external_body]
fn random_uuid_simple() -> (s: String)
    ensures
        s@.len() == 32,
        forall|i: int| 0 <= i < 32 ==> is_lower_hex(#[trigger] s@[i]),
{
    uuid::Uuid::new_v4().simple().to_string()
}

/// The first `bytes` characters of an identifier.
pub fn hex_prefix(id: &str, bytes: usize) -> (r: String)
    requires
        bytes <= id@.len(),
    ensures
        r@ == id@.take(bytes as int),
{
    let r = String::from_str(id.substring_char(0, bytes));
    assert(id@.subrange(0, bytes as int) =~= id@.take(bytes as int));
    r
}

/// A random lower-case hexadecimal identifier of `bytes` characters, made
/// of as many fresh UUIDs as it takes, the last one cut to fit.
pub fn hex_id(bytes: usize) -> (r: String)
    ensures
        r@.len() == bytes,
        forall|i: int| 0 <= i < r@.len() ==> is_lower_hex(#[trigger] r@[i]),
{
    let mut r = String::new();
    let mut have: usize = 0;
    while have < bytes
        invariant
            have <= bytes,
            r@.len() == have,
            forall|i: int| 0 <= i < r@.len() ==> is_lower_hex(#[trigger] r@[i]),
        decreases bytes - have,
    {
        let id = random_uuid_simple();
        let need = bytes - have;
        let ghost before = r@;
        if need >= 32 {
            r.append(id.as_str());
            have = have + 32;
            assert forall|i: int| 0 <= i < r@.len() implies is_lower_hex(#[trigger] r@[i]) by {
                if i >= before.len() {
                    assert(r@[i] == id@[i - before.len()]);
                } else {
                    assert(r@[i] == before[i]);
                }
            }
        } else {
            let part = hex_prefix(id.as_str(), need);
            r.append(part.as_str());
            have = have + need;
            assert forall|i: int| 0 <= i < r@.len() implies is_lower_hex(#[trigger] r@[i]) by {
                if i >= before.len() {
                    assert(r@[i] == part@[i - before.len()]);
                    assert(part@[i - before.len()] == id@[i - before.len()]);
                } else {
                    assert(r@[i] == before[i]);
                }
            }
        }
    }
    r
}

// ── Endpoint ────────────────────────────────────────────────────────────────

/// The base URL a client keeps for an endpoint as given: the default
/// endpoint when the text is blank; otherwise the text trimmed of white
/// space and of trailing `/`, with one trailing `/v1/ingest` removed and
/// the `/` left before it trimmed again.
pub open spec fn normalized_base(endpoint: Seq<char>) -> Seq<char> {
    let t = trim(endpoint);
    if t.len() == 0 {
        DEFAULT_ENDPOINT@
    } else {
        let s = trim_end_char(t, '/');
        let u = match strip_suffix(s, INGEST_PATH@) {
            Some(v) => v,
            None => s,
        };
        trim_end_char(u, '/')
    }
}

/// An endpoint that is empty or only white space stands for the default
/// endpoint.
pub proof fn law_blank_endpoint_is_default(endpoint: Seq<char>)
    requires
        is_blank(endpoint),
    ensures
        normalized_base(endpoint) == DEFAULT_ENDPOINT@,
{
    lemma_trim_empty_iff_blank(endpoint);
}

/// The base URL a client keeps never ends with `/`, so that appending
/// `/health` or `/v1/ingest` never doubles a slash.
pub proof fn law_base_has_no_trailing_slash(endpoint: Seq<char>)
    ensures
        normalized_base(endpoint).len() > 0 ==> normalized_base(endpoint).last() != '/',
{
    reveal_strlit("https://ingest.usermon.dev");
    let t = trim(endpoint);
    if t.len() > 0 {
        let sl = trim_end_char(t, '/');
        let u = match strip_suffix(sl, INGEST_PATH@) {
            Some(v) => v,
            None => sl,
        };
        lemma_drop_trailing_last(u, char_pred('/'));
    }
}

proof fn lemma_ingest_path_chars()
    ensures
        INGEST_PATH@ == seq!['/', 'v', '1', '/', 'i', 'n', 'g', 'e', 's', 't'],
{
    reveal_strlit("/v1/ingest");
}

/// An endpoint given with the ingest path `/v1/ingest` appended names the
/// same base as the endpoint alone, provided the endpoint ends with a
/// character that is not white space and does not itself already end with
/// the ingest path once trimmed of trailing `/`.
pub proof fn law_ingest_path_suffix_is_ignored(endpoint: Seq<char>)
    requires
        endpoint.len() > 0,
        !is_space(endpoint.last()),
        !has_suffix(trim_end_char(trim(endpoint), '/'), INGEST_PATH@),
    ensures
        normalized_base(endpoint + INGEST_PATH@) == normalized_base(endpoint),
{
    lemma_ingest_path_chars();
    let ip = INGEST_PATH@;
    let sp = space_pred();
    let slash = char_pred('/');
    let x = endpoint + ip;
    lemma_drop_leading_concat(endpoint, ip, sp, endpoint.len() - 1);
    let l = drop_leading(endpoint, sp);
    lemma_drop_leading_shape(endpoint, sp);
    let k = choose|k: int|
        0 <= k <= endpoint.len() && (forall|j: int| 0 <= j < k ==> sp(#[trigger] endpoint[j]))
            && (k == endpoint.len() || !sp(endpoint[k])) && drop_leading(endpoint, sp)
            == endpoint.skip(k);
    if k == endpoint.len() {
        assert(sp(endpoint[endpoint.len() - 1]));
    }
    assert(l.len() > 0);
    assert(l.last() == endpoint.last());
    assert((l + ip).last() == 't');
    lemma_drop_trailing_noop(l + ip, sp);
    lemma_drop_trailing_noop(l, sp);
    assert(trim(x) == l + ip);
    assert(trim(endpoint) == l);
    lemma_drop_trailing_noop(l + ip, slash);
    assert((l + ip).subrange((l + ip).len() - ip.len(), (l + ip).len() as int) =~= ip);
    assert((l + ip).take((l + ip).len() - ip.len()) =~= l);
    assert(strip_suffix(trim_end_char(l + ip, '/'), ip) == Some(l));
    lemma_drop_trailing_idem(l, slash);
}

/// A client base that is not empty, does not end with white space and does
/// not end with the ingest path is kept as it is when given again as the
/// endpoint.
pub proof fn law_base_is_stable(endpoint: Seq<char>)
    requires
        normalized_base(endpoint).len() > 0,
        !is_space(normalized_base(endpoint).last()),
        !has_suffix(normalized_base(endpoint), INGEST_PATH@),
    ensures
        normalized_base(normalized_base(endpoint)) == normalized_base(endpoint),
{
    let b = normalized_base(endpoint);
    let sp = space_pred();
    let slash = char_pred('/');
    law_base_has_no_trailing_slash(endpoint);
    let t = trim(endpoint);
    if t.len() == 0 {
        reveal_strlit("https://ingest.usermon.dev");
        assert(b[0] == 'h');
    } else {
        lemma_trim_ends(endpoint);
        let sl = trim_end_char(t, '/');
        lemma_drop_trailing_last(t, slash);
        let u = match strip_suffix(sl, INGEST_PATH@) {
            Some(v) => v,
            None => sl,
        };
        assert(u == sl.take(u.len() as int));
        lemma_drop_trailing_last(u, slash);
        assert(b[0] == u[0]);
        assert(u[0] == sl[0]);
        assert(sl[0] == t[0]);
    }
    lemma_drop_leading_noop(b, sp);
    lemma_drop_trailing_noop(b, sp);
    assert(trim(b) == b);
    lemma_drop_trailing_noop(b, slash);
}

/// A synchronous Usermon ingest client: where it sends and with which key.
#[derive(Clone, Debug)]
pub struct UsermonClient {
    ingest_url: String,
    ingest_key: String,
}

/// The method of an HTTP request the client sends.
#[derive(Clone, Copy, Debug, PartialEq, Eq, Structural)]
pub enum HttpMethod {
    Get,
    Post,
}

/// An HTTP request as the client wants it sent.
#[derive(Clone, Debug)]
pub struct HttpRequest {
    pub method: HttpMethod,
    pub url: String,
    pub headers: Vec<(String, String)>,
    pub body: Option<String>,
}

impl UsermonClient {
    /// The base URL requests go below.
    pub closed spec fn base_url(&self) -> Seq<char> {
        self.ingest_url@
    }

    /// The project ingest key.
    pub closed spec fn key(&self) -> Seq<char> {
        self.ingest_key@
    }

    /// A client for `endpoint` (the default endpoint when it is blank) and
    /// the ingest key `ingest_key`.
    pub fn new(endpoint: &str, ingest_key: &str) -> (c: UsermonClient)
        ensures
            c.base_url() == normalized_base(endpoint@),
            c.key() == ingest_key@,
    {
        let trimmed = trim_str(endpoint);
        let base = if trimmed.unicode_len() == 0 {
            String::from_str(DEFAULT_ENDPOINT)
        } else {
            let s = trim_end_char_str(trimmed, '/');
            let u = match strip_suffix_str(s, INGEST_PATH) {
                Some(v) => v,
                None => s,
            };
            String::from_str(trim_end_char_str(u, '/'))
        };
        UsermonClient { ingest_url: base, ingest_key: String::from_str(ingest_key) }
    }

    /// The base URL requests go below.
    pub fn ingest_url(&self) -> (r: &str)
        ensures
            r@ == self.base_url(),
    {
        self.ingest_url.as_str()
    }

    /// The project ingest key.
    pub fn ingest_key(&self) -> (r: &str)
        ensures
            r@ == self.key(),
    {
        self.ingest_key.as_str()
    }

    /// The value of the `Authorization` header: `Bearer <key>`.
    pub fn auth_header(&self) -> (r: String)
        ensures
            r@ == "Bearer "@ + self.key(),
    {
        concat2("Bearer ", self.ingest_key.as_str())
    }

    /// The health check: `GET <base>/health`, with no header and no body.
    pub fn health_request(&self) -> (r: HttpRequest)
        ensures
            r.method == HttpMethod::Get,
            r.url@ == self.base_url() + HEALTH_PATH@,
            r.headers@.len() == 0,
            r.body is None,
    {
        HttpRequest {
            method: HttpMethod::Get,
            url: concat2(self.ingest_url.as_str(), HEALTH_PATH),
            headers: Vec::new(),
            body: None,
        }
    }

    /// Sending a batch whose JSON text is `body`: `POST <base>/v1/ingest`
    /// with the bearer key and a JSON content type.
    pub fn ingest_request(&self, body: String) -> (r: HttpRequest)
        ensures
            r.method == HttpMethod::Post,
            r.url@ == self.base_url() + INGEST_PATH@,
            r.headers@.len() == 2,
            r.headers@[0].0@ == "Authorization"@,
            r.headers@[0].1@ == "Bearer "@ + self.key(),
            r.headers@[1].0@ == "Content-Type"@,
            r.headers@[1].1@ == "application/json"@,
            r.body == Some(body),
    {
        let mut headers: Vec<(String, String)> = Vec::new();
        headers.push((String::from_str("Authorization"), self.auth_header()));
        headers.push((String::from_str("Content-Type"), String::from_str("application/json")));
        HttpRequest {
            method: HttpMethod::Post,
            url: concat2(self.ingest_url.as_str(), INGEST_PATH),
            headers,
            body: Some(body),
        }
    }
}

/// Whether an HTTP status counts as success: 200 to 299.
pub open spec fn is_success_status(status: u16) -> bool {
    200 <= status <= 299
}

/// A reply counts as a success exactly for the statuses 200 to 299: a
/// redirect, a client error or a server error never does.
pub proof fn law_success_is_2xx(status: u16)
    ensures
        is_success_status(status) <==> (200 <= status && status <= 299),
        status >= 300 ==> !is_success_status(status),
        status < 200 ==> !is_success_status(status),
{
}

/// How the client judges a reply: its body when the status is a success,
/// otherwise an `Api` error that carries the status and the body.
pub fn check_reply(status: u16, body: String) -> (r: Result<String, UsermonError>)
    ensures
        is_success_status(status) ==> r == Ok::<String, UsermonError>(body),
        !is_success_status(status) ==> r == Err::<String, UsermonError>(
            UsermonError::Api { status, body },
        ),
        r is Ok <==> 200 <= status <= 299,
        (status < 200 || status > 299) ==> r == Err::<String, UsermonError>(
            UsermonError::Api { status, body },
        ),
        (200 <= status <= 299) ==> r == Ok::<String, UsermonError>(body),
{
    if 200 <= status && status <= 299 {
        Ok(body)
    } else {
        Err(UsermonError::Api { status, body })
    }
}

// ── One-event batches ───────────────────────────────────────────────────────

/// A batch with the single exception described.
pub fn exception_batch(
    message: String,
    stack: Option<String>,
    platform: Platform,
    route: Option<String>,
    level: Option<IssueLevel>,
    release: Option<String>,
    session_key: Option<String>,
    trace_id: Option<String>,
    timestamp: u64,
) -> (b: IngestBatch)
    ensures
        b.sessions@.len() == 0,
        b.rum_events@.len() == 0,
        b.api_spans@.len() == 0,
        b.logs@.len() == 0,
        b.exceptions@ == seq![
            (Exception {
                message,
                stack,
                platform,
                route,
                level,
                session_key,
                trace_id,
                release,
                timestamp,
            }),
        ],
{
    let mut b = IngestBatch::default();
    b.exceptions.push(
        Exception { message, stack, platform, route, level, session_key, trace_id, release, timestamp },
    );
    b
}

/// A batch with the single log line described.
pub fn log_batch(
    level: LogLevel,
    message: String,
    attrs_json: Option<String>,
    platform: Platform,
    release: Option<String>,
    session_key: Option<String>,
    trace_id: Option<String>,
    timestamp: u64,
) -> (b: IngestBatch)
    ensures
        b.sessions@.len() == 0,
        b.rum_events@.len() == 0,
        b.api_spans@.len() == 0,
        b.exceptions@.len() == 0,
        b.logs@ == seq![
            (LogEvent {
                level,
                message,
                attrs_json,
                platform,
                release,
                session_key,
                trace_id,
                timestamp,
            }),
        ],
{
    let mut b = IngestBatch::default();
    b.logs.push(
        LogEvent { level, message, attrs_json, platform, release, session_key, trace_id, timestamp },
    );
    b
}

/// What `str::to_uppercase` returns for `s` (Unicode upper-case mapping).
pub uninterp spec fn uppercase(s: Seq<char>) -> Seq<char>;

/// `str::to_uppercase`. Claims only that the result is a function of the
/// characters of `s`, named `uppercase`; the Unicode case mapping itself is
/// not stated.
#[verifier::external_body]
fn to_uppercase_string(s: &str) -> (r: String)
    ensures
        r@ == uppercase(s@),
{
    s.to_uppercase()
}

/// A batch with the single client-side API span described, whose method is
/// already upper case: no parent span, no name, operation `http.client`.
pub fn span_batch_upper(
    method: String,
    route: String,
    status: u16,
    duration_ms: u64,
    platform: Platform,
    release: Option<String>,
    trace_id: Option<String>,
    span_id: Option<String>,
    session_key: Option<String>,
    timestamp: u64,
) -> (b: IngestBatch)
    ensures
        b.sessions@.len() == 0,
        b.rum_events@.len() == 0,
        b.exceptions@.len() == 0,
        b.logs@.len() == 0,
        b.api_spans@.len() == 1,
        b.api_spans@[0].method == method,
        b.api_spans@[0].route == route,
        b.api_spans@[0].status == status,
        b.api_spans@[0].duration_ms == duration_ms,
        b.api_spans@[0].platform == platform,
        b.api_spans@[0].trace_id == trace_id,
        b.api_spans@[0].span_id == span_id,
        b.api_spans@[0].parent_span_id is None,
        b.api_spans@[0].name is None,
        b.api_spans@[0].op matches Some(op) && op@ == "http.client"@,
        b.api_spans@[0].session_key == session_key,
        b.api_spans@[0].release == release,
        b.api_spans@[0].timestamp == timestamp,
{
    let mut b = IngestBatch::default();
    b.api_spans.push(
        ApiSpan {
            method,
            route,
            status,
            duration_ms,
            platform,
            trace_id,
            span_id,
            parent_span_id: None,
            name: None,
            op: Some(String::from_str("http.client")),
            session_key,
            release,
            timestamp,
        },
    );
    b
}

/// A batch with the single client-side API span described; the method is
/// sent upper case.
pub fn span_batch(
    method: &str,
    route: String,
    status: u16,
    duration_ms: u64,
    platform: Platform,
    release: Option<String>,
    trace_id: Option<String>,
    span_id: Option<String>,
    session_key: Option<String>,
    timestamp: u64,
) -> (b: IngestBatch)
    ensures
        b.sessions@.len() == 0,
        b.rum_events@.len() == 0,
        b.exceptions@.len() == 0,
        b.logs@.len() == 0,
        b.api_spans@.len() == 1,
        b.api_spans@[0].method@ == uppercase(method@),
        b.api_spans@[0].route == route,
        b.api_spans@[0].status == status,
        b.api_spans@[0].duration_ms == duration_ms,
        b.api_spans@[0].platform == platform,
        b.api_spans@[0].trace_id == trace_id,
        b.api_spans@[0].span_id == span_id,
        b.api_spans@[0].parent_span_id is None,
        b.api_spans@[0].name is None,
        b.api_spans@[0].op matches Some(op) && op@ == "http.client"@,
        b.api_spans@[0].session_key == session_key,
        b.api_spans@[0].release == release,
        b.api_spans@[0].timestamp == timestamp,
{
    let upper = to_uppercase_string(method);
    span_batch_upper(
        upper,
        route,
        status,
        duration_ms,
        platform,
        release,
        trace_id,
        span_id,
        session_key,
        timestamp,
    )
}

/// The key a new session goes under: the one given, or a fresh random
/// 32-digit hexadecimal key.
pub fn session_key_or_new(session_key: Option<String>) -> (r: String)
    ensures
        session_key matches Some(k) ==> r == k,
        session_key is None ==> r@.len() == 32 && forall|i: int|
            0 <= i < 32 ==> is_lower_hex(#[trigger] r@[i]),
{
    match session_key {
        Some(k) => k,
        None => hex_id(32),
    }
}

/// A batch that starts the single session described; its country is left
/// unset.
pub fn session_batch(
    session_key: String,
    platform: Platform,
    release: Option<String>,
    device_os: Option<String>,
    started_at: u64,
) -> (b: IngestBatch)
    ensures
        b.rum_events@.len() == 0,
        b.api_spans@.len() == 0,
        b.exceptions@.len() == 0,
        b.logs@.len() == 0,
        b.sessions@ == seq![
            (Session { session_key, platform, release, device_os, country: None, started_at }),
        ],
{
    let mut b = IngestBatch::default();
    b.sessions.push(Session { session_key, platform, release, device_os, country: None, started_at });
    b
}

} // verus!
