//! The stream relay.
//!
//! Given one provider's response, either relay a stream element by element —
//! forwarding each element to the caller as it arrives, stripped of the
//! accounting field, while capturing the last raw element for logging — or
//! read a single body, return it stripped, and keep the whole value for the
//! log. Frames reach the caller in exactly the order received; nothing is
//! buffered beyond the frame in hand.

use vstd::prelude::*;
use vstd::string::StringExecFns;
use crate::json::JsonValue;
use crate::json::accounting_key;
use crate::json::is_stripped;
use crate::json::json_text;
use crate::json::lemma_strip_keeps_other_keys;
use crate::json::lemma_stripped_no_accounting;
use crate::json::obj_has_key;
use crate::json::parse_json;
use crate::json::parsed_json;
use crate::json::render_json;
use crate::json::strip_accounting;

verus! {

/// A mid-relay failure: one element of the stream, or the single body,
/// could not be parsed as a JSON value.
#[derive(Debug, PartialEq, Eq)]
pub enum RelayError {
    UnparsableElement,
}

/// Framing noise that carries no element: an empty line, or the
/// terminator sentinel that closes an event stream. Such lines are
/// forwarded unchanged and never captured for the log.
pub open spec fn is_passthrough_line(l: Seq<char>) -> bool {
    l.len() == 0 || l == "data: [DONE]"@
}

/// The relay state for one streamed response. The ghost history records
/// every element accepted (`elems`), what was forwarded for each
/// (`stripped`, `frames`); the last raw element text is kept so the log
/// can be built after the stream ends.
pub struct StreamRelay {
    pub last_line: Option<String>,
    pub elems: Ghost<Seq<JsonValue>>,
    pub stripped: Ghost<Seq<JsonValue>>,
    pub frames: Ghost<Seq<Seq<char>>>,
}

impl StreamRelay {
    /// The relay's invariant: one stripped value and one frame per element,
    /// each frame the printed stripped element plus the frame delimiter,
    /// and the kept text parses back to exactly the last element.
    pub open spec fn wf(self) -> bool {
        &&& self.stripped@.len() == self.elems@.len()
        &&& self.frames@.len() == self.elems@.len()
        &&& forall|i: int|
            0 <= i < self.elems@.len() ==> is_stripped(#[trigger] self.elems@[i], self.stripped@[i])
                && self.frames@[i] == json_text(self.stripped@[i]).push('\n')
        &&& match self.last_line {
            None => self.elems@.len() == 0,
            Some(l) => self.elems@.len() > 0 && parsed_json(l@) == Some(self.elems@.last()),
        }
    }

    /// A relay that has seen nothing yet.
    pub fn new() -> (r: StreamRelay)
        ensures
            r.wf(),
            r.elems@ == Seq::<JsonValue>::empty(),
            r.frames@ == Seq::<Seq<char>>::empty(),
            r.last_line is None,
    {
        StreamRelay {
            last_line: None,
            elems: Ghost(Seq::empty()),
            stripped: Ghost(Seq::empty()),
            frames: Ghost(Seq::empty()),
        }
    }

    /// Relay one line of the stream. A passthrough line is forwarded as it
    /// came; an element is captured unmodified, stripped of the accounting
    /// field, printed, and forwarded with the frame delimiter; an element
    /// that does not parse fails this slot and changes nothing — frames
    /// already forwarded stand.
    pub fn relay_line(&mut self, line: &str) -> (r: Result<String, RelayError>)
        requires
            old(self).wf(),
        ensures
            final(self).wf(),
            is_passthrough_line(line@) ==> *final(self) == *old(self) && (r matches Ok(f) && f@
                == line@.push('\n')),
            !is_passthrough_line(line@) ==> match parsed_json(line@) {
                None => r == Err::<String, RelayError>(RelayError::UnparsableElement)
                    && *final(self) == *old(self),
                Some(v) => {
                    &&& final(self).elems@ == old(self).elems@.push(v)
                    &&& final(self).stripped@.len() == old(self).stripped@.len() + 1
                    &&& final(self).stripped@.drop_last() == old(self).stripped@
                    &&& is_stripped(v, final(self).stripped@.last())
                    &&& final(self).frames@ == old(self).frames@.push(
                        json_text(final(self).stripped@.last()).push('\n'),
                    )
                    &&& (r matches Ok(f) && f@ == final(self).frames@.last())
                    &&& (final(self).last_line matches Some(ll) && ll@ == line@)
                },
            },
    {
        if line.is_empty() || line.to_owned() == String::from_str("data: [DONE]") {
            let mut f = line.to_owned();
            f.append("\n");
            proof {
                reveal_strlit("\n");
                assert(f@ =~= line@.push('\n'));
            }
            Ok(f)
        } else {
            match parse_json(line) {
                None => Err(RelayError::UnparsableElement),
                Some(v) => {
                    let ghost gv = v;
                    let s = strip_accounting(v);
                    let ghost gs = s;
                    let mut f = render_json(&s);
                    f.append("\n");
                    self.last_line = Some(line.to_owned());
                    proof {
                        reveal_strlit("\n");
                        assert(f@ =~= json_text(gs).push('\n'));
                        self.elems@ = self.elems@.push(gv);
                        self.stripped@ = self.stripped@.push(gs);
                        self.frames@ = self.frames@.push(f@);
                        assert(self.stripped@.drop_last() =~= old(self).stripped@);
                        assert forall|i: int|
                            0 <= i < self.elems@.len() implies is_stripped(
                            #[trigger] self.elems@[i],
                            self.stripped@[i],
                        ) && self.frames@[i] == json_text(self.stripped@[i]).push('\n') by {
                            if i < self.elems@.len() - 1 {
                                assert(old(self).elems@[i] == self.elems@[i]);
                                assert(old(self).stripped@[i] == self.stripped@[i]);
                                assert(old(self).frames@[i] == self.frames@[i]);
                            }
                        }
                    }
                    Ok(f)
                },
            }
        }
    }

    /// The value handed to the persistence path once the stream has ended:
    /// the last element received, re-read from the kept raw text, so the
    /// log sees it unstripped; nothing if the stream held no element.
    pub fn finish(self) -> (r: Option<JsonValue>)
        requires
            self.wf(),
        ensures
            self.elems@.len() == 0 ==> r is None,
            self.elems@.len() > 0 ==> r == Some(self.elems@.last()),
    {
        match self.last_line {
            None => None,
            Some(l) => parse_json(l.as_str()),
        }
    }
}

/// A streamed response of M elements reaches the caller as exactly M
/// payload frames, in arrival order: frame i is element i stripped of the
/// accounting field and printed — and no frame shows that field, even
/// where the element held it.
pub proof fn lemma_frames_relayed_in_order(st: StreamRelay)
    requires
        st.wf(),
    ensures
        st.frames@.len() == st.elems@.len(),
        forall|i: int|
            0 <= i < st.elems@.len() ==> is_stripped(#[trigger] st.elems@[i], st.stripped@[i])
                && st.frames@[i] == json_text(st.stripped@[i]).push('\n') && !obj_has_key(
                st.stripped@[i],
                accounting_key(),
            ),
{
    assert forall|i: int|
        0 <= i < st.elems@.len() implies is_stripped(#[trigger] st.elems@[i], st.stripped@[i])
        && st.frames@[i] == json_text(st.stripped@[i]).push('\n') && !obj_has_key(
        st.stripped@[i],
        accounting_key(),
    ) by {
        lemma_stripped_no_accounting(st.elems@[i], st.stripped@[i]);
    }
}

/// The log is handed the last element observed — never the first and never
/// an aggregate: the kept text parses back to the stream's final element.
pub proof fn lemma_log_value_is_last_element(st: StreamRelay)
    requires
        st.wf(),
        st.elems@.len() > 0,
    ensures
        st.last_line matches Some(l) && parsed_json(l@) == Some(st.elems@.last()),
{
}

/// A non-streaming exchange: the value the caller receives (stripped, with
/// its printed body) and the untouched value kept for the log.
#[derive(Debug, PartialEq)]
pub struct SingleExchange {
    pub caller_value: JsonValue,
    pub caller_body: String,
    pub log_value: JsonValue,
}

/// Relay a single non-streaming body: parse it as one JSON value, strip
/// the accounting field for the caller, and keep the whole value for the
/// log. A body that does not parse is this attempt's failure.
pub fn relay_single(body: &str) -> (r: Result<SingleExchange, RelayError>)
    ensures
        match parsed_json(body@) {
            None => r == Err::<SingleExchange, RelayError>(RelayError::UnparsableElement),
            Some(v) => (r matches Ok(ex) && ex.log_value == v && is_stripped(v, ex.caller_value)
                && ex.caller_body@ == json_text(ex.caller_value)),
        },
{
    match parse_json(body) {
        None => Err(RelayError::UnparsableElement),
        Some(v) => {
            let caller_value = strip_accounting(v);
            let caller_body = render_json(&caller_value);
            // the unstripped value for the log: the same text reads back
            // to the same value
            match parse_json(body) {
                Some(log_value) => Ok(SingleExchange { caller_value, caller_body, log_value }),
                None => Err(RelayError::UnparsableElement),
            }
        },
    }
}

/// The round trip of one object through an exchange: the caller's copy has
/// lost exactly the accounting field — it shows no accounting field, and it
/// holds a field under every other key exactly where the upstream object
/// did, with the surviving entries unchanged and in their order — while the
/// log's copy is the upstream object whole.
pub proof fn lemma_single_round_trip(v: JsonValue, s: JsonValue, key: Seq<char>)
    requires
        is_stripped(v, s),
        v matches JsonValue::Obj(_),
    ensures
        !obj_has_key(s, accounting_key()),
        key != accounting_key() ==> (obj_has_key(s, key) <==> obj_has_key(v, key)),
{
    lemma_stripped_no_accounting(v, s);
    if key != accounting_key() {
        lemma_strip_keeps_other_keys(v, s, key);
    }
}

/// How one relayed frame relates to the line it came from: a passthrough
/// line goes out as it came, an element goes out stripped and printed,
/// each with the frame delimiter.
pub open spec fn line_frame_rel(l: Seq<char>, f: Seq<char>) -> bool {
    if is_passthrough_line(l) {
        f == l.push('\n')
    } else {
        parsed_json(l) matches Some(v) && exists|s: JsonValue|
            #[trigger] is_stripped(v, s) && f == json_text(s).push('\n')
    }
}

/// A whole streamed response relayed over a prepared list of lines: the
/// frames produced, whether a bad element cut the stream short, and the
/// value for the log. The final relay state is kept as the run's witness.
pub struct RelayRun {
    pub frames: Vec<String>,
    pub log_value: Option<JsonValue>,
    pub failed: bool,
    pub state: Ghost<StreamRelay>,
}

/// Relay every line in order until the first bad element: one frame per
/// line relayed, in the lines' order, and the log value is the last
/// element among them.
pub fn run_relay(lines: &Vec<String>) -> (r: RelayRun)
    ensures
        r.state@.wf(),
        r.frames@.len() <= lines@.len(),
        !r.failed ==> r.frames@.len() == lines@.len(),
        r.failed ==> r.frames@.len() < lines@.len() && !is_passthrough_line(
            lines@[r.frames@.len() as int]@,
        ) && parsed_json(lines@[r.frames@.len() as int]@) is None,
        forall|i: int| 0 <= i < r.frames@.len() ==> line_frame_rel(lines@[i]@, r.frames@[i]@),
        match r.log_value {
            None => r.state@.elems@.len() == 0,
            Some(v) => r.state@.elems@.len() > 0 && v == r.state@.elems@.last(),
        },
{
    let mut relay = StreamRelay::new();
    let mut frames: Vec<String> = Vec::new();
    let n = lines.len();
    let mut i: usize = 0;
    let mut failed = false;
    while i < n && !failed
        invariant
            relay.wf(),
            n == lines@.len(),
            0 <= i <= n,
            !failed ==> frames@.len() == i,
            failed ==> frames@.len() == i < n && !is_passthrough_line(lines@[i as int]@)
                && parsed_json(lines@[i as int]@) is None,
            forall|j: int| 0 <= j < frames@.len() ==> line_frame_rel(lines@[j]@, frames@[j]@),
        decreases n - i, (if failed { 0int } else { 1int }),
    {
        match relay.relay_line(lines[i].as_str()) {
            Ok(f) => {
                frames.push(f);
                i += 1;
            },
            Err(_) => {
                failed = true;
            },
        }
    }
    let ghost gstate = relay;
    let log_value = relay.finish();
    RelayRun { frames, log_value, failed, state: Ghost(gstate) }
}

} // verus!
