//! The log record and the best-effort persistence plan.
//!
//! After a response is finalized the exchange is serialized once into a
//! record; persisting it is planned, never awaited: absent a backend the
//! record is discarded, and no outcome of the persistence path reaches the
//! caller-visible response.

use vstd::prelude::*;
use vstd::string::StringExecFns;
use crate::json::JsonValue;
use crate::json::json_text;
use crate::json::render_json;
use crate::relay::SingleExchange;
use crate::relay::StreamRelay;
use crate::request::ChatMessage;
use crate::request::CompletionRequest;

verus! {

/// The persisted description of one completed exchange. The creation
/// timestamp is supplied by the store at insert time.
#[derive(Debug, PartialEq, Eq)]
pub struct LogRecord {
    pub request_json: String,
    pub response_json: String,
    pub client_ip: String,
    pub user_agent: Option<String>,
}

/// How one chat message prints as JSON: an object of its role and content,
/// in that order.
pub open spec fn message_json_rel(m: ChatMessage, v: JsonValue) -> bool {
    &&& v matches JsonValue::Obj(fs)
    &&& fs@.len() == 2
    &&& fs@[0].0@ == "role"@
    &&& fs@[0].1 matches JsonValue::Text(r) && r == m.role
    &&& fs@[1].0@ == "content"@
    &&& fs@[1].1 matches JsonValue::Text(c) && c == m.content
}

/// How the optional model identifier prints: its text, or null when unset.
pub open spec fn model_json_rel(m: Option<String>, v: JsonValue) -> bool {
    match m {
        Some(s) => v matches JsonValue::Text(t) && t == s,
        None => v == JsonValue::Null,
    }
}

/// How the optional stream flag prints: its value, or null when unset.
pub open spec fn stream_json_rel(s: Option<bool>, v: JsonValue) -> bool {
    match s {
        Some(b) => v == JsonValue::Bool(b),
        None => v == JsonValue::Null,
    }
}

/// How a whole request prints as JSON: its messages, model and stream flag
/// first, then every passthrough parameter unchanged, in their order.
pub open spec fn req_json_rel(req: CompletionRequest, v: JsonValue) -> bool {
    &&& v matches JsonValue::Obj(es)
    &&& es@.len() == 3 + req.extra@.len()
    &&& es@[0].0@ == "messages"@
    &&& es@[0].1 matches JsonValue::Arr(ms) && ms@.len() == req.messages@.len() && (forall|i: int|
        0 <= i < ms@.len() ==> message_json_rel(req.messages@[i], #[trigger] ms@[i]))
    &&& es@[1].0@ == "model"@
    &&& model_json_rel(req.model, es@[1].1)
    &&& es@[2].0@ == "stream"@
    &&& stream_json_rel(req.stream, es@[2].1)
    &&& forall|i: int| 0 <= i < req.extra@.len() ==> es@[3 + i] == #[trigger] req.extra@[i]
}

/// Turn a request into the JSON value its log entry is printed from.
pub fn request_to_json(req: CompletionRequest) -> (r: JsonValue)
    ensures
        req_json_rel(req, r),
{
    let CompletionRequest { mut messages, model, stream, mut extra } = req;
    let ghost msgs0 = messages@;
    let ghost extra0 = extra@;
    let mut ms: Vec<JsonValue> = Vec::new();
    while messages.len() > 0
        invariant
            ms@.len() + messages@.len() == msgs0.len(),
            messages@ == msgs0.skip(ms@.len() as int),
            forall|j: int|
                0 <= j < ms@.len() ==> message_json_rel(msgs0[j], #[trigger] ms@[j]),
        decreases messages@.len(),
    {
        let ghost k = ms@.len() as int;
        let m = messages.remove(0);
        proof {
            assert(msgs0.skip(k)[0] == msgs0[k]);
            assert(messages@ =~= msgs0.skip(k + 1));
        }
        let mut fs: Vec<(String, JsonValue)> = Vec::new();
        fs.push((String::from_str("role"), JsonValue::Text(m.role)));
        fs.push((String::from_str("content"), JsonValue::Text(m.content)));
        ms.push(JsonValue::Obj(fs));
    }
    let mut es: Vec<(String, JsonValue)> = Vec::new();
    es.push((String::from_str("messages"), JsonValue::Arr(ms)));
    es.push(
        (
            String::from_str("model"),
            match model {
                Some(s) => JsonValue::Text(s),
                None => JsonValue::Null,
            },
        ),
    );
    es.push(
        (
            String::from_str("stream"),
            match stream {
                Some(b) => JsonValue::Bool(b),
                None => JsonValue::Null,
            },
        ),
    );
    proof {
        assert(msgs0.skip(0) =~= msgs0);
    }
    es.append(&mut extra);
    proof {
        assert forall|i: int| 0 <= i < extra0.len() implies es@[3 + i] == #[trigger] extra0[i] by {}
    }
    JsonValue::Obj(es)
}

/// Build the record for one exchange: the request and the unstripped
/// response serialized to their JSON text, with the client address and
/// user agent as given.
pub fn make_record(
    req: CompletionRequest,
    response: &JsonValue,
    client_ip: String,
    user_agent: Option<String>,
) -> (r: LogRecord)
    ensures
        exists|v: JsonValue| #[trigger] req_json_rel(req, v) && r.request_json@ == json_text(v),
        r.response_json@ == json_text(*response),
        r.client_ip == client_ip,
        r.user_agent == user_agent,
{
    let v = request_to_json(req);
    let request_json = render_json(&v);
    let response_json = render_json(response);
    proof {
        assert(req_json_rel(req, v) && request_json@ == json_text(v));
    }
    LogRecord { request_json, response_json, client_ip, user_agent }
}

/// What becomes of a record: handed to a detached persistence task, or
/// discarded (at most echoed as a local diagnostic) when no backend is
/// configured. Nothing of it flows back to the response.
#[derive(Debug)]
pub enum PublishPlan {
    Persist(LogRecord),
    Discard(LogRecord),
}

/// Plan the persistence of one record. With a backend the record goes to a
/// detached task; without one it is discarded. Neither choice carries any
/// error or value back toward the caller of the exchange.
pub fn plan_publish(backend_available: bool, record: LogRecord) -> (r: PublishPlan)
    ensures
        backend_available ==> r == PublishPlan::Persist(record),
        !backend_available ==> r == PublishPlan::Discard(record),
{
    if backend_available {
        PublishPlan::Persist(record)
    } else {
        PublishPlan::Discard(record)
    }
}

/// The caller-visible body of a non-streaming exchange, as a function of
/// the exchange and of the persistence path's fate. It is defined by the
/// exchange alone: the two further arguments do not occur in it.
pub open spec fn caller_view_single(
    ex: SingleExchange,
    backend_available: bool,
    persist_ok: bool,
) -> Seq<char> {
    ex.caller_body@
}

/// The caller-visible frames of a streamed exchange, as a function of the
/// relay's history and of the persistence path's fate. It is defined by
/// the history alone: the two further arguments do not occur in it.
pub open spec fn caller_view_stream(
    st: StreamRelay,
    backend_available: bool,
    persist_ok: bool,
) -> Seq<Seq<char>> {
    st.frames@
}

/// Persistence unavailability or failure never alters a non-streaming
/// response: the caller sees the same body whatever became of the record.
pub proof fn lemma_persistence_invisible_single(
    ex: SingleExchange,
    b1: bool,
    p1: bool,
    b2: bool,
    p2: bool,
)
    ensures
        caller_view_single(ex, b1, p1) == caller_view_single(ex, b2, p2),
{
}

/// Persistence unavailability or failure never alters a streamed response:
/// the caller sees the same frames whatever became of the record.
pub proof fn lemma_persistence_invisible_stream(
    st: StreamRelay,
    b1: bool,
    p1: bool,
    b2: bool,
    p2: bool,
)
    ensures
        caller_view_stream(st, b1, p1) == caller_view_stream(st, b2, p2),
{
}

/// The operator summary shown on the index page: the stored token total,
/// or a sentinel code describing why it could not be read. The codes are
/// the page's own convention.
#[derive(Debug, PartialEq, Eq)]
pub enum UsageProbe {
    NotConfigured,
    ConnectionFailed,
    QueryFailed,
    Total(Option<i64>),
}

/// Collapse a probe of the log store into the number the index page
/// shows: the total where one was read, zero for an empty store, and a
/// negative sentinel per failure class.
pub fn usage_total_code(p: &UsageProbe) -> (r: i64)
    ensures
        match *p {
            UsageProbe::NotConfigured => r == -3,
            UsageProbe::ConnectionFailed => r == -2,
            UsageProbe::QueryFailed => r == -1,
            UsageProbe::Total(t) => match t {
                None => r == 0,
                Some(v) => r == v,
            },
        },
{
    match p {
        UsageProbe::NotConfigured => -3,
        UsageProbe::ConnectionFailed => -2,
        UsageProbe::QueryFailed => -1,
        UsageProbe::Total(t) => match t {
            None => 0,
            Some(v) => *v,
        },
    }
}

} // verus!
