//! The decisions of the `usermon` command line: where the client connects,
//! how piped log lines are grouped into batches, and how errors are shown.

use vstd::prelude::*;

use crate::client::{normalized_base, UsermonClient, DEFAULT_ENDPOINT};
use crate::project::ProjectConfig;
use crate::text::{concat2, trim, trim_str};
use crate::types::{IngestBatch, LogEvent, LogLevel, Platform};

verus! {

/// Everything that can name the endpoint and the key of the client, from
/// the strongest to the weakest: command-line flags, environment, and the
/// project linked to the working directory.
#[derive(Clone, Debug, PartialEq)]
pub struct ConnectionSources {
    /// `--endpoint` (or `USERMON_ENDPOINT`, as the flag parser reads it).
    pub flag_endpoint: Option<String>,
    /// `--ingest-url` (or `USERMON_INGEST_URL`, as the flag parser reads it).
    pub flag_ingest_url: Option<String>,
    /// `--ingest-key` (or `USERMON_INGEST_KEY`, as the flag parser reads it).
    pub flag_ingest_key: Option<String>,
    /// The `USERMON_ENDPOINT` environment variable.
    pub env_endpoint: Option<String>,
    /// The `USERMON_INGEST_URL` environment variable.
    pub env_ingest_url: Option<String>,
    /// The `USERMON_INGEST_KEY` environment variable.
    pub env_ingest_key: Option<String>,
    /// The configuration of the linked project, if one is found.
    pub project: Option<ProjectConfig>,
}

/// The endpoint the client is made for: the first of the flag endpoint,
/// the flag ingest URL, the two environment variables, the project's
/// endpoint, and the default endpoint.
pub open spec fn endpoint_choice(s: ConnectionSources) -> Seq<char> {
    match s.flag_endpoint {
        Some(e) => e@,
        None => match s.flag_ingest_url {
            Some(e) => e@,
            None => match s.env_endpoint {
                Some(e) => e@,
                None => match s.env_ingest_url {
                    Some(e) => e@,
                    None => match s.project {
                        Some(p) => p.endpoint@,
                        None => DEFAULT_ENDPOINT@,
                    },
                },
            },
        },
    }
}

/// The key the client is made with: the first of the flag, the environment
/// variable and the project's key, if any.
pub open spec fn key_choice(s: ConnectionSources) -> Option<Seq<char>> {
    match s.flag_ingest_key {
        Some(k) => Some(k@),
        None => match s.env_ingest_key {
            Some(k) => Some(k@),
            None => match s.project {
                Some(p) => match p.ingest_key {
                    Some(k) => Some(k@),
                    None => None,
                },
                None => None,
            },
        },
    }
}

/// Where no flag and no environment variable names an endpoint, a linked
/// project's endpoint is used, whether or not the project holds a key; any
/// flag or variable that names one wins over the project, the flags first.
pub proof fn law_project_endpoint_is_used(s: ConnectionSources)
    ensures
        (s.flag_endpoint is None && s.flag_ingest_url is None && s.env_endpoint is None
            && s.env_ingest_url is None && s.project is Some) ==> endpoint_choice(s)
            == s.project->0.endpoint@,
        s.flag_endpoint is Some ==> endpoint_choice(s) == s.flag_endpoint->0@,
        (s.flag_endpoint is None && s.flag_ingest_url is Some) ==> endpoint_choice(s)
            == s.flag_ingest_url->0@,
        (s.flag_endpoint is None && s.flag_ingest_url is None && s.env_endpoint is Some)
            ==> endpoint_choice(s) == s.env_endpoint->0@,
        (s.flag_endpoint is None && s.flag_ingest_url is None && s.env_endpoint is None
            && s.env_ingest_url is Some) ==> endpoint_choice(s) == s.env_ingest_url->0@,
        (s.flag_endpoint is None && s.flag_ingest_url is None && s.env_endpoint is None
            && s.env_ingest_url is None && s.project is None) ==> endpoint_choice(s)
            == DEFAULT_ENDPOINT@,
{
}

/// The key comes from the flag, else the environment, else the linked
/// project; it is missing only when none of them holds one.
pub proof fn law_key_sources(s: ConnectionSources)
    ensures
        s.flag_ingest_key is Some ==> key_choice(s) == Some(s.flag_ingest_key->0@),
        (s.flag_ingest_key is None && s.env_ingest_key is Some) ==> key_choice(s) == Some(
            s.env_ingest_key->0@,
        ),
        (s.flag_ingest_key is None && s.env_ingest_key is None && s.project is Some
            && s.project->0.ingest_key is Some) ==> key_choice(s) == Some(
            s.project->0.ingest_key->0@,
        ),
        key_choice(s) is None <==> (s.flag_ingest_key is None && s.env_ingest_key is None && (
        s.project is None || s.project->0.ingest_key is None)),
{
}

/// The error when no source names a key.
pub const MISSING_KEY_ERROR: &'static str = "Missing --ingest-key, USERMON_INGEST_KEY, or run `usermon link` to connect a project";

/// The endpoint the client is made for.
pub fn resolve_endpoint(s: &ConnectionSources) -> (r: &str)
    ensures
        r@ == endpoint_choice(*s),
        s.flag_endpoint matches Some(e) ==> r@ == e@,
        (s.flag_endpoint is None && s.flag_ingest_url is Some) ==> r@ == s.flag_ingest_url->0@,
        (s.flag_endpoint is None && s.flag_ingest_url is None && s.env_endpoint is Some) ==> r@
            == s.env_endpoint->0@,
        (s.flag_endpoint is None && s.flag_ingest_url is None && s.env_endpoint is None
            && s.env_ingest_url is Some) ==> r@ == s.env_ingest_url->0@,
        (s.flag_endpoint is None && s.flag_ingest_url is None && s.env_endpoint is None
            && s.env_ingest_url is None && s.project is Some) ==> r@ == s.project->0.endpoint@,
        s.flag_endpoint is None && s.flag_ingest_url is None && s.env_endpoint is None
            && s.env_ingest_url is None && s.project is None ==> r@ == DEFAULT_ENDPOINT@,
{
    match &s.flag_endpoint {
        Some(e) => e.as_str(),
        None => match &s.flag_ingest_url {
            Some(e) => e.as_str(),
            None => match &s.env_endpoint {
                Some(e) => e.as_str(),
                None => match &s.env_ingest_url {
                    Some(e) => e.as_str(),
                    None => match &s.project {
                        Some(p) => p.endpoint.as_str(),
                        None => DEFAULT_ENDPOINT,
                    },
                },
            },
        },
    }
}

/// The key the client is made with, if any source names one.
pub fn resolve_ingest_key(s: &ConnectionSources) -> (r: Option<&str>)
    ensures
        match key_choice(*s) {
            Some(k) => r matches Some(x) && x@ == k,
            None => r is None,
        },
{
    match &s.flag_ingest_key {
        Some(k) => Some(k.as_str()),
        None => match &s.env_ingest_key {
            Some(k) => Some(k.as_str()),
            None => match &s.project {
                Some(p) => match &p.ingest_key {
                    Some(k) => Some(k.as_str()),
                    None => None,
                },
                None => None,
            },
        },
    }
}

/// The client the command line works with: made for the chosen endpoint
/// and key, or refused with `MISSING_KEY_ERROR` when no source names a key.
pub fn make_client(s: &ConnectionSources) -> (r: Result<UsermonClient, String>)
    ensures
        match key_choice(*s) {
            Some(k) => (r matches Ok(c) && c.base_url() == normalized_base(endpoint_choice(*s))
                && c.key() == k),
            None => (r matches Err(e) && e@ == MISSING_KEY_ERROR@),
        },
        (s.flag_endpoint is None && s.flag_ingest_url is None && s.env_endpoint is None
            && s.env_ingest_url is None && s.project is Some && r is Ok) ==> r->Ok_0.base_url()
            == normalized_base(s.project->0.endpoint@),
{
    match resolve_ingest_key(s) {
        Some(key) => Ok(UsermonClient::new(resolve_endpoint(s), key)),
        None => Err(String::from_str(MISSING_KEY_ERROR)),
    }
}

/// How an error is printed in JSON output mode: `{"error":"<text>"}`, the
/// text inserted as it is.
pub fn error_json(err: &str) -> (r: String)
    ensures
        r@ == "{\"error\":\""@ + err@ + "\"}"@,
{
    let mut r = concat2("{\"error\":\"", err);
    r.append("\"}");
    r
}

/// Appends one line read from a file or standard input, with its newline.
pub fn append_line(out: &mut String, line: &str)
    ensures
        final(out)@ == old(out)@ + line@ + "\n"@,
{
    out.append(line);
    out.append("\n");
}

// ── Piping log lines ────────────────────────────────────────────────────────

/// How many piped lines go into one batch.
pub const PIPE_BATCH_SIZE: usize = 50;

/// Whether a piped line is sent: lines that are blank after trimming are
/// skipped.
pub open spec fn pipe_accepts(line: Seq<char>) -> bool {
    trim(line).len() > 0
}

/// What every piped line shares.
#[derive(Clone, Debug, PartialEq)]
pub struct LogTemplate {
    pub level: LogLevel,
    pub platform: Platform,
    pub release: Option<String>,
    pub session_key: Option<String>,
}

/// The log event for a piped line.
pub open spec fn piped_event(t: LogTemplate, line: String, timestamp: u64) -> LogEvent {
    LogEvent {
        level: t.level,
        message: line,
        attrs_json: None,
        platform: t.platform,
        release: t.release,
        session_key: t.session_key,
        trace_id: None,
        timestamp,
    }
}

fn clone_opt(o: &Option<String>) -> (r: Option<String>)
    ensures
        r == *o,
{
    match o {
        Some(s) => Some(s.clone()),
        None => None,
    }
}

/// The messages of some log events.
pub open spec fn messages(events: Seq<LogEvent>) -> Seq<Seq<char>> {
    events.map_values(|e: LogEvent| e.message@)
}

/// The state of `usermon pipe`: the lines read but not yet sent, and how
/// many lines were sent.
pub ghost struct PipeModel {
    pub pending: Seq<Seq<char>>,
    pub sent: nat,
}

/// One piped line applied to the state: a blank line changes nothing; any
/// other is queued, and when that makes a full batch the batch goes out.
pub open spec fn pipe_step(m: PipeModel, line: Seq<char>) -> (PipeModel, Option<Seq<Seq<char>>>) {
    if !pipe_accepts(line) {
        (m, None)
    } else if m.pending.len() + 1 == PIPE_BATCH_SIZE {
        (PipeModel { pending: Seq::empty(), sent: m.sent + PIPE_BATCH_SIZE as nat }, Some(m.pending.push(line)))
    } else {
        (PipeModel { pending: m.pending.push(line), sent: m.sent }, None)
    }
}

/// The state and the batches sent after piping `lines`, from nothing.
pub open spec fn pipe_run(lines: Seq<Seq<char>>) -> (PipeModel, Seq<Seq<Seq<char>>>)
    decreases lines.len(),
{
    if lines.len() == 0 {
        (PipeModel { pending: Seq::empty(), sent: 0 }, Seq::empty())
    } else {
        let before = pipe_run(lines.drop_last());
        let step = pipe_step(before.0, lines.last());
        (
            step.0,
            match step.1 {
                Some(b) => before.1.push(b),
                None => before.1,
            },
        )
    }
}

/// The lines of some batches, in order.
pub open spec fn concat_batches(bs: Seq<Seq<Seq<char>>>) -> Seq<Seq<char>>
    decreases bs.len(),
{
    if bs.len() == 0 {
        Seq::empty()
    } else {
        concat_batches(bs.drop_last()) + bs.last()
    }
}

/// The lines of `lines` that are sent.
pub open spec fn accepted_lines(lines: Seq<Seq<char>>) -> Seq<Seq<char>> {
    lines.filter(|l: Seq<char>| pipe_accepts(l))
}

/// `usermon pipe` sends every line that is not blank exactly once and in
/// order: the batches sent so far followed by the lines still waiting are
/// the non-blank lines read; every batch sent holds `PIPE_BATCH_SIZE` lines,
/// fewer wait, and the count of lines sent is the size of the batches sent.
/// (`LogPipe::finish` then sends the waiting lines, so the final count is
/// the number of non-blank lines.)
pub proof fn law_pipe_sends_each_line_once(lines: Seq<Seq<char>>)
    ensures
        concat_batches(pipe_run(lines).1) + pipe_run(lines).0.pending == accepted_lines(lines),
        forall|i: int|
            0 <= i < pipe_run(lines).1.len() ==> (#[trigger] pipe_run(lines).1[i]).len()
                == PIPE_BATCH_SIZE,
        pipe_run(lines).0.pending.len() < PIPE_BATCH_SIZE,
        pipe_run(lines).0.sent == PIPE_BATCH_SIZE * pipe_run(lines).1.len(),
        pipe_run(lines).0.sent + pipe_run(lines).0.pending.len() == accepted_lines(lines).len(),
    decreases lines.len(),
{
    reveal_with_fuel(Seq::<_>::filter, 1);
    if lines.len() > 0 {
        let rest = lines.drop_last();
        law_pipe_sends_each_line_once(rest);
        let before = pipe_run(rest);
        let l = lines.last();
        let step = pipe_step(before.0, l);
        let out = pipe_run(lines).1;
        if !pipe_accepts(l) {
            assert(accepted_lines(lines) == accepted_lines(rest));
        } else if before.0.pending.len() + 1 == PIPE_BATCH_SIZE {
            assert(accepted_lines(lines) == accepted_lines(rest).push(l));
            assert(out.drop_last() == before.1);
            assert(concat_batches(out) == concat_batches(before.1) + before.0.pending.push(l));
            assert(concat_batches(out) + Seq::<Seq<char>>::empty() =~= accepted_lines(lines));
            assert forall|i: int| 0 <= i < out.len() implies (#[trigger] out[i]).len()
                == PIPE_BATCH_SIZE by {
                if i < before.1.len() {
                    assert(out[i] == before.1[i]);
                }
            }
        } else {
            assert(accepted_lines(lines) == accepted_lines(rest).push(l));
            assert(concat_batches(out) + step.0.pending =~= accepted_lines(lines));
        }
    } else {
        assert(accepted_lines(lines) =~= Seq::<Seq<char>>::empty());
    }
}

/// The event of a piped line is the line itself, at the time given, with
/// the level, platform, release and session key of the pipe, and no
/// attributes or trace.
pub proof fn law_piped_event_carries_template(t: LogTemplate, line: String, timestamp: u64)
    ensures
        piped_event(t, line, timestamp).level == t.level,
        piped_event(t, line, timestamp).platform == t.platform,
        piped_event(t, line, timestamp).release == t.release,
        piped_event(t, line, timestamp).session_key == t.session_key,
        piped_event(t, line, timestamp).message == line,
        piped_event(t, line, timestamp).attrs_json is None,
        piped_event(t, line, timestamp).trace_id is None,
        piped_event(t, line, timestamp).timestamp == timestamp,
{
}

/// Groups piped log lines into batches of `PIPE_BATCH_SIZE`.
pub struct LogPipe {
    pending: Vec<LogEvent>,
    sent: u32,
}

impl LogPipe {
    /// The lines read but not yet sent, as events.
    pub closed spec fn pending_events(&self) -> Seq<LogEvent> {
        self.pending@
    }

    /// How many lines were sent.
    pub closed spec fn sent_count(&self) -> nat {
        self.sent as nat
    }

    /// A partial batch never reaches the batch size.
    pub open spec fn wf(&self) -> bool {
        self.pending_events().len() < PIPE_BATCH_SIZE
    }

    /// The state in the terms of `pipe_step`.
    pub open spec fn model(&self) -> PipeModel {
        PipeModel { pending: messages(self.pending_events()), sent: self.sent_count() }
    }

    /// Nothing read, nothing sent.
    pub fn new() -> (p: LogPipe)
        ensures
            p.wf(),
            p.pending_events().len() == 0,
            p.sent_count() == 0,
    {
        LogPipe { pending: Vec::new(), sent: 0 }
    }

    /// How many lines were sent.
    pub fn sent(&self) -> (r: u32)
        ensures
            r == self.sent_count(),
    {
        self.sent
    }

    /// How many lines wait for the next batch.
    pub fn pending_count(&self) -> (r: usize)
        ensures
            r == self.pending_events().len(),
    {
        self.pending.len()
    }

    /// Takes one line read at `timestamp`: skips it when blank, else queues
    /// its event and hands back a full batch when there is one.
    pub fn push_line(&mut self, line: String, template: &LogTemplate, timestamp: u64) -> (r:
        Option<IngestBatch>)
        requires
            old(self).wf(),
            pipe_accepts(line@) && old(self).pending_events().len() + 1 == PIPE_BATCH_SIZE
                ==> old(self).sent_count() + PIPE_BATCH_SIZE <= u32::MAX,
        ensures
            final(self).wf(),
            (final(self).model(), match r {
                Some(b) => Some(messages(b.logs@)),
                None => None,
            }) == pipe_step(old(self).model(), line@),
            !pipe_accepts(line@) ==> final(self).pending_events() == old(self).pending_events(),
            pipe_accepts(line@) && r is None ==> final(self).pending_events() == old(
                self,
            ).pending_events().push(piped_event(*template, line, timestamp)),
            r matches Some(b) ==> b.logs@ == old(self).pending_events().push(
                piped_event(*template, line, timestamp),
            ) && b.sessions@.len() == 0 && b.rum_events@.len() == 0 && b.api_spans@.len() == 0
                && b.exceptions@.len() == 0 && final(self).pending_events().len() == 0,
            pipe_accepts(line@) ==> ({
                let e = match r {
                    Some(b) => b.logs@.last(),
                    None => final(self).pending_events().last(),
                };
                &&& e.level == template.level
                &&& e.platform == template.platform
                &&& e.release == template.release
                &&& e.session_key == template.session_key
                &&& e.message == line
                &&& e.attrs_json is None
                &&& e.trace_id is None
                &&& e.timestamp == timestamp
            }),
            (forall|i: int| 0 <= i < old(self).pending_events().len()
                ==> #[trigger] old(self).pending_events()[i].level == template.level
                && old(self).pending_events()[i].platform == template.platform) ==> (
            forall|i: int| 0 <= i < final(self).pending_events().len()
                ==> #[trigger] final(self).pending_events()[i].level == template.level
                && final(self).pending_events()[i].platform == template.platform),
            (forall|i: int| 0 <= i < old(self).pending_events().len()
                ==> #[trigger] old(self).pending_events()[i].level == template.level
                && old(self).pending_events()[i].platform == template.platform) ==> (r matches Some(
                b) ==> forall|i: int| 0 <= i < b.logs@.len() ==> #[trigger] b.logs@[i].level
                == template.level && b.logs@[i].platform == template.platform),
    {
        let ghost old_pending = self.pending@;
        let blank = trim_str(line.as_str()).unicode_len() == 0;
        if blank {
            return None;
        }
        let event = LogEvent {
            level: template.level,
            message: line,
            attrs_json: None,
            platform: template.platform,
            release: clone_opt(&template.release),
            session_key: clone_opt(&template.session_key),
            trace_id: None,
            timestamp,
        };
        let mut pending = Vec::new();
        std::mem::swap(&mut pending, &mut self.pending);
        pending.push(event);
        assert(messages(pending@) =~= messages(old_pending).push(line@));
        if pending.len() >= PIPE_BATCH_SIZE {
            self.sent = self.sent + 50;
            let mut b = IngestBatch::default();
            b.logs = pending;
            assert(messages(self.pending@) =~= Seq::<Seq<char>>::empty());
            Some(b)
        } else {
            self.pending = pending;
            None
        }
    }

    /// Ends the input: hands back the last, partial batch if any line waits,
    /// and the number of lines sent in all.
    pub fn finish(self) -> (r: (Option<IngestBatch>, u32))
        requires
            self.wf(),
            self.sent_count() + self.pending_events().len() <= u32::MAX,
        ensures
            r.1 == self.sent_count() + self.pending_events().len(),
            self.pending_events().len() == 0 ==> r.0 is None,
            self.pending_events().len() > 0 ==> (r.0 matches Some(b) && b.logs@
                == self.pending_events() && b.sessions@.len() == 0 && b.rum_events@.len() == 0
                && b.api_spans@.len() == 0 && b.exceptions@.len() == 0),
    {
        if self.pending.len() == 0 {
            (None, self.sent)
        } else {
            let count = self.sent + self.pending.len() as u32;
            let mut b = IngestBatch::default();
            b.logs = self.pending;
            (Some(b), count)
        }
    }
}

} // verus!
