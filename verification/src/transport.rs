//! The transport layer's verified core: the wire form of a completion call
//! (one fixed system turn re-injected ahead of the stored log), the retry
//! policy for rate-limited requests, decoding of buffered response bodies,
//! and decoding of streamed event frames.

use vstd::prelude::*;
use vstd::string::*;

use crate::turn::{system_turn, Turn, TurnView, ToolRequest, ToolRequestView};
use crate::text::{spec_starts_with, str_eq, str_starts_with};
use crate::json::{json_of, json_parse, spec_get, Json, JsonView};
use crate::{BACKOFF_SECONDS, MAX_RETRIES};

verus! {

/// How a completion response is delivered: whole, or as a token stream.
#[derive(Clone, Copy, PartialEq, Eq, Structural, Debug)]
pub enum Mode {
    Buffered,
    Streamed,
}

/// The delivery mode used for one call: buffered whenever tool use is
/// possible (tool-calling and streaming are mutually exclusive per call),
/// otherwise whatever the user selected.
pub open spec fn spec_call_mode(tools_enabled: bool, stream_selected: bool) -> Mode {
    if tools_enabled {
        Mode::Buffered
    } else if stream_selected {
        Mode::Streamed
    } else {
        Mode::Buffered
    }
}

/// Pick the delivery mode for one completion call.
pub fn call_mode(tools_enabled: bool, stream_selected: bool) -> (m: Mode)
    ensures
        m == spec_call_mode(tools_enabled, stream_selected),
        tools_enabled ==> m == Mode::Buffered,
{
    if tools_enabled {
        Mode::Buffered
    } else if stream_selected {
        Mode::Streamed
    } else {
        Mode::Buffered
    }
}

/// One decoded model reply: optional text, plus the tool requests it carries.
pub struct Reply {
    pub text: Option<String>,
    pub tool_requests: Vec<ToolRequest>,
}

/// Mathematical model of a `Reply`.
#[verifier::ext_equal]
pub ghost struct ReplyView {
    pub text: Option<Seq<char>>,
    pub tool_requests: Seq<ToolRequestView>,
}

impl View for Reply {
    type V = ReplyView;

    open spec fn view(&self) -> ReplyView {
        ReplyView {
            text: match self.text {
                Some(t) => Some(t@),
                None => None,
            },
            tool_requests: self.tool_requests@.map_values(|r: ToolRequest| r@),
        }
    }
}

/// A reply with neither text nor tool requests is normalized to empty text;
/// any other reply is kept as it is.
pub open spec fn spec_normalize(r: ReplyView) -> ReplyView {
    if r.text is None && r.tool_requests.len() == 0 {
        ReplyView { text: Some(Seq::empty()), tool_requests: r.tool_requests }
    } else {
        r
    }
}

/// Normalize a reply, as `spec_normalize` describes.
pub fn normalize_reply(r: Reply) -> (n: Reply)
    ensures
        n@ == spec_normalize(r@),
{
    match r.text {
        Some(t) => Reply { text: Some(t), tool_requests: r.tool_requests },
        None => {
            if r.tool_requests.len() == 0 {
                let n = Reply { text: Some(String::new()), tool_requests: r.tool_requests };
                proof {
                    assert(n@ =~= spec_normalize(ReplyView { text: None, tool_requests: n@.tool_requests }));
                }
                n
            } else {
                Reply { text: None, tool_requests: r.tool_requests }
            }
        },
    }
}

/// A failed completion call.
///
/// A connectivity failure is recoverable: the loop rolls back the pending
/// user turn and the session continues, since the very next call may be
/// served fine. A spent retry budget, and a response body that decodes
/// into no recognized shape, are fatal to the session: a persistently
/// broken backend is deliberately not retried in silence forever.
#[derive(Clone, Copy, PartialEq, Eq, Structural, Debug)]
pub enum TransportError {
    /// The request could not be sent or the connection broke.
    Connectivity,
    /// The response body did not decode into any recognized shape.
    MalformedBody,
    /// A rate-limited request was retried up to the fixed maximum and
    /// still rate-limited.
    RetriesExhausted,
}

impl TransportError {
    /// Whether this failure must terminate the session rather than the turn.
    pub fn is_fatal(&self) -> (r: bool)
        ensures
            r == (*self is RetriesExhausted || *self is MalformedBody),
    {
        match self {
            TransportError::RetriesExhausted => true,
            TransportError::MalformedBody => true,
            TransportError::Connectivity => false,
        }
    }
}

/// The fixed instruction injected as a system turn ahead of the stored log
/// on every completion call; it is never stored in the conversation.
pub open spec fn spec_system_prompt() -> Seq<char> {
    "You are a helpful AI assistant with access to real-time information via the `brave_search` tool. You can use it to find up-to-date information. Do not attempt to use any tools that are not listed here. Specifically, do NOT use a tool named `open` or `read_file`; they do not exist."@
}

/// The fixed system instruction sent with every completion call.
pub fn system_prompt() -> (r: &'static str)
    ensures
        r@ == spec_system_prompt(),
{
    "You are a helpful AI assistant with access to real-time information via the `brave_search` tool. You can use it to find up-to-date information. Do not attempt to use any tools that are not listed here. Specifically, do NOT use a tool named `open` or `read_file`; they do not exist."
}

/// The turns put on the wire for one call: the fixed system turn, then the
/// stored log unchanged.
pub open spec fn spec_wire_turns(stored: Seq<TurnView>) -> Seq<TurnView> {
    seq![system_turn(spec_system_prompt())] + stored
}

/// Build the wire form of the stored log, as `spec_wire_turns` describes.
/// The stored log itself is left untouched.
pub fn wire_turns(stored: &Vec<Turn>) -> (w: Vec<Turn>)
    ensures
        w@.map_values(|t: Turn| t@) == spec_wire_turns(stored@.map_values(|t: Turn| t@)),
{
    let mut w: Vec<Turn> = Vec::new();
    w.push(Turn::system(system_prompt()));
    let mut i: usize = 0;
    while i < stored.len()
        invariant
            i <= stored.len(),
            w@.len() == i + 1,
            w@[0]@ == system_turn(spec_system_prompt()),
            forall|j: int| 0 <= j < i ==> w@[j + 1]@ == stored@[j]@,
        decreases stored.len() - i,
    {
        w.push(stored[i].duplicate());
        i = i + 1;
    }
    proof {
        assert(w@.map_values(|t: Turn| t@) =~= spec_wire_turns(
            stored@.map_values(|t: Turn| t@),
        ));
    }
    w
}

/// What the client does after one rate-limited attempt.
#[derive(Clone, Copy, PartialEq, Eq, Structural, Debug)]
pub enum RetryDecision {
    /// Sleep this many seconds, then retry the identical request.
    Backoff { seconds: u64 },
    /// The retry budget is spent; the failure is fatal to the session.
    Fatal,
}

/// The decision taken when a rate-limited response arrives after `retries`
/// retries have already been used.
pub open spec fn spec_retry_decision(retries: u64) -> RetryDecision {
    if retries < MAX_RETRIES {
        RetryDecision::Backoff { seconds: BACKOFF_SECONDS }
    } else {
        RetryDecision::Fatal
    }
}

/// The retry count after that decision.
pub open spec fn spec_retries_after(retries: u64) -> u64 {
    if retries < MAX_RETRIES {
        (retries + 1) as u64
    } else {
        retries
    }
}

/// The retry budget of one completion call: how many retries a run of
/// rate-limited responses has used so far.
pub struct RetryState {
    retries: u64,
}

impl RetryState {
    /// How many retries have been used.
    pub closed spec fn retries_spec(&self) -> u64 {
        self.retries
    }

    /// A fresh budget, before the first attempt of a call.
    pub fn new() -> (s: RetryState)
        ensures
            s.retries_spec() == 0,
    {
        RetryState { retries: 0 }
    }

    /// Record one rate-limited response and decide what follows: a fixed
    /// backoff and a retry while the budget lasts, and a fatal failure once
    /// it is spent.
    pub fn on_rate_limit(&mut self) -> (d: RetryDecision)
        ensures
            d == spec_retry_decision(old(self).retries_spec()),
            final(self).retries_spec() == spec_retries_after(old(self).retries_spec()),
    {
        if self.retries < MAX_RETRIES {
            self.retries = self.retries + 1;
            RetryDecision::Backoff { seconds: BACKOFF_SECONDS }
        } else {
            RetryDecision::Fatal
        }
    }
}

/// Law: starting from a fresh budget, a run of rate-limited responses is
/// retried after a fixed backoff exactly three times — so two backoff waits
/// intervene between the retries — and a fourth rate-limited attempt is
/// fatal.
pub proof fn lemma_retry_budget()
    ensures
        spec_retry_decision(0) == (RetryDecision::Backoff { seconds: BACKOFF_SECONDS }),
        spec_retry_decision(spec_retries_after(0)) == (RetryDecision::Backoff {
            seconds: BACKOFF_SECONDS,
        }),
        spec_retry_decision(spec_retries_after(spec_retries_after(0))) == (RetryDecision::Backoff {
            seconds: BACKOFF_SECONDS,
        }),
        spec_retry_decision(spec_retries_after(spec_retries_after(spec_retries_after(0))))
            == RetryDecision::Fatal,
{
}

/// What one tool-call entry decodes to: its id, name and arguments
/// strings, and nothing when any of them is missing or not a string.
pub open spec fn spec_tool_call_of(v: JsonView) -> Option<ToolRequestView> {
    match spec_get(v, "id"@) {
        Some(JsonView::Str(id)) => match spec_get(v, "function"@) {
            Some(f) => match spec_get(f, "name"@) {
                Some(JsonView::Str(name)) => match spec_get(f, "arguments"@) {
                    Some(JsonView::Str(arguments)) => Some(
                        ToolRequestView { id: id, tool_name: name, arguments: arguments },
                    ),
                    _ => None,
                },
                _ => None,
            },
            None => None,
        },
        _ => None,
    }
}

/// Whether every entry of a tool-call array decodes.
pub open spec fn tool_calls_all_ok(items: Seq<JsonView>) -> bool {
    forall|j: int| 0 <= j < items.len() ==> (#[trigger] spec_tool_call_of(items[j])) is Some
}

/// The request one entry decodes to; meaningful under `tool_calls_all_ok`.
pub open spec fn spec_tool_call(v: JsonView) -> ToolRequestView {
    match spec_tool_call_of(v) {
        Some(r) => r,
        None => ToolRequestView {
            id: Seq::empty(),
            tool_name: Seq::empty(),
            arguments: Seq::empty(),
        },
    }
}

/// What the first choice's `message` object decodes to: a role string is
/// required; missing or non-string content is no text; absent or null
/// tool calls are none; a tool-call array must decode entirely.
pub open spec fn spec_decode_message(msg: JsonView) -> Result<ReplyView, TransportError> {
    match spec_get(msg, "role"@) {
        Some(JsonView::Str(_)) => {
            let text = match spec_get(msg, "content"@) {
                Some(JsonView::Str(s)) => Some(s),
                _ => None,
            };
            match spec_get(msg, "tool_calls"@) {
                None => Ok(ReplyView { text: text, tool_requests: Seq::empty() }),
                Some(JsonView::Null) => Ok(ReplyView { text: text, tool_requests: Seq::empty() }),
                Some(JsonView::Arr(items)) => if tool_calls_all_ok(items) {
                    Ok(
                        ReplyView {
                            text: text,
                            tool_requests: items.map_values(|v: JsonView| spec_tool_call(v)),
                        },
                    )
                } else {
                    Err(TransportError::MalformedBody)
                },
                Some(_) => Err(TransportError::MalformedBody),
            }
        },
        _ => Err(TransportError::MalformedBody),
    }
}

/// What a buffered completion body decodes to: a JSON document with a
/// `choices` array is required; an empty array is an empty-text reply;
/// otherwise the first choice's `message` decides, as
/// `spec_decode_message` says. A body of any other shape is a
/// malformed-body transport error.
pub open spec fn spec_decode(body: Seq<char>) -> Result<ReplyView, TransportError> {
    match json_of(body) {
        None => Err(TransportError::MalformedBody),
        Some(doc) => match spec_get(doc, "choices"@) {
            Some(JsonView::Arr(items)) => if items.len() == 0 {
                Ok(ReplyView { text: Some(Seq::empty()), tool_requests: Seq::empty() })
            } else {
                match spec_get(items[0], "message"@) {
                    Some(msg) => spec_decode_message(msg),
                    None => Err(TransportError::MalformedBody),
                }
            },
            _ => Err(TransportError::MalformedBody),
        },
    }
}

/// Decode one tool-call entry, exactly as `spec_tool_call_of` describes.
fn decode_tool_call(entry: &Json) -> (r: Option<ToolRequest>)
    ensures
        (match r {
            Some(t) => Some(t@),
            None => None::<ToolRequestView>,
        }) == spec_tool_call_of(entry.model()),
{
    let id = match entry.get("id") {
        Some(idv) => {
            match idv.as_string() {
                Some(s) => s,
                None => {
                    return None;
                },
            }
        },
        None => {
            return None;
        },
    };
    let func = match entry.get("function") {
        Some(f) => f,
        None => {
            return None;
        },
    };
    let name = match func.get("name") {
        Some(n) => {
            match n.as_string() {
                Some(s) => s,
                None => {
                    return None;
                },
            }
        },
        None => {
            return None;
        },
    };
    let arguments = match func.get("arguments") {
        Some(a) => {
            match a.as_string() {
                Some(s) => s,
                None => {
                    return None;
                },
            }
        },
        None => {
            return None;
        },
    };
    let request = ToolRequest { id: id, tool_name: name, arguments: arguments };
    proof {
        assert(Some(request@) =~= spec_tool_call_of(entry.model()));
    }
    Some(request)
}

/// Decode one buffered completion response body, exactly as `spec_decode`
/// describes.
pub fn decode_completion_body(body: &str) -> (r: Result<Reply, TransportError>)
    ensures
        (match r {
            Ok(rep) => Ok::<ReplyView, TransportError>(rep@),
            Err(e) => Err::<ReplyView, TransportError>(e),
        }) == spec_decode(body@),
{
    let doc = match json_parse(body) {
        Some(d) => d,
        None => {
            return Err(TransportError::MalformedBody);
        },
    };
    let choices = match doc.get("choices") {
        Some(c) => c,
        None => {
            return Err(TransportError::MalformedBody);
        },
    };
    let len = match choices.arr_len() {
        Some(n) => n,
        None => {
            return Err(TransportError::MalformedBody);
        },
    };
    let ghost citems = choices.model()->Arr_0;
    if len == 0 {
        let rep = Reply { text: Some(String::new()), tool_requests: Vec::new() };
        proof {
            assert(rep@ =~= (ReplyView { text: Some(Seq::empty()), tool_requests: Seq::empty() }));
        }
        return Ok(rep);
    }
    let first = choices.arr_get(0).unwrap();
    let msg = match first.get("message") {
        Some(m) => m,
        None => {
            return Err(TransportError::MalformedBody);
        },
    };
    match msg.get("role") {
        Some(role) => {
            match role.as_string() {
                Some(_) => {},
                None => {
                    return Err(TransportError::MalformedBody);
                },
            }
        },
        None => {
            return Err(TransportError::MalformedBody);
        },
    };
    let text = match msg.get("content") {
        Some(c) => {
            match c.as_string() {
                Some(s) => Some(s),
                None => None,
            }
        },
        None => None,
    };
    proof {
        assert((match text {
            Some(s) => Some(s@),
            None => None::<Seq<char>>,
        }) == (match spec_get(msg.model(), "content"@) {
            Some(JsonView::Str(s)) => Some(s),
            _ => None::<Seq<char>>,
        }));
    }
    let mut requests: Vec<ToolRequest> = Vec::new();
    match msg.get("tool_calls") {
        Some(calls) => {
            if !calls.is_null() {
                let clen = match calls.arr_len() {
                    Some(n) => n,
                    None => {
                        return Err(TransportError::MalformedBody);
                    },
                };
                let ghost entries = calls.model()->Arr_0;
                let ghost wanted = entries.map_values(|v: JsonView| spec_tool_call(v));
                let mut i: usize = 0;
                proof {
                    assert(requests@.map_values(|x: ToolRequest| x@) =~= wanted.take(0));
                }
                #[verifier::loop_isolation(false)]
                while i < clen
                    invariant
                        i <= clen,
                        clen == entries.len(),
                        calls.model() == JsonView::Arr(entries),
                        wanted == entries.map_values(|v: JsonView| spec_tool_call(v)),
                        forall|j: int|
                            0 <= j < i ==> (#[trigger] spec_tool_call_of(entries[j])) is Some,
                        requests@.map_values(|x: ToolRequest| x@) == wanted.take(i as int),
                    decreases clen - i,
                {
                    let ghost prev = requests@.map_values(|x: ToolRequest| x@);
                    let entry = calls.arr_get(i).unwrap();
                    proof {
                        assert(entry.model() == entries[i as int]);
                    }
                    let request = match decode_tool_call(&entry) {
                        Some(t) => t,
                        None => {
                            proof {
                                assert(spec_tool_call_of(entries[i as int]) is None);
                            }
                            return Err(TransportError::MalformedBody);
                        },
                    };
                    requests.push(request);
                    proof {
                        assert(requests@.map_values(|x: ToolRequest| x@) =~= prev.push(
                            spec_tool_call(entries[i as int]),
                        ));
                        assert(prev.push(spec_tool_call(entries[i as int])) =~= wanted.take(
                            i + 1,
                        ));
                    }
                    i = i + 1;
                }
                proof {
                    assert(wanted.take(clen as int) =~= wanted);
                    assert(tool_calls_all_ok(entries));
                }
            }
        },
        None => {},
    };
    let rep = Reply { text: text, tool_requests: requests };
    proof {
        if rep@.tool_requests.len() == 0 {
            assert(rep@.tool_requests =~= Seq::<ToolRequestView>::empty());
        }
    }
    Ok(rep)
}

/// One decoded frame of a streamed response.
pub enum StreamEvent {
    /// Not an event frame, or a malformed payload: silently skipped.
    Skip,
    /// The sentinel terminator frame: the stream is over.
    Done,
    /// One incremental text fragment.
    Fragment(String),
}

/// The text fragment an event-frame payload carries: the string under
/// `choices[0].delta.content`, and nothing when the payload is not JSON
/// or has no such string.
pub open spec fn spec_stream_fragment(payload: Seq<char>) -> Option<Seq<char>> {
    match json_of(payload) {
        None => None,
        Some(doc) => match spec_get(doc, "choices"@) {
            Some(JsonView::Arr(items)) => if items.len() == 0 {
                None
            } else {
                match spec_get(items[0], "delta"@) {
                    Some(d) => match spec_get(d, "content"@) {
                        Some(JsonView::Str(s)) => Some(s),
                        _ => None,
                    },
                    None => None,
                }
            },
            _ => None,
        },
    }
}

/// Decode one newline-delimited frame of a streamed response. A line
/// without the fixed `data: ` marker, or with a payload that is not a
/// recognizable event, is skipped; the fixed sentinel payload ends the
/// stream; any other payload yields exactly the fragment
/// `spec_stream_fragment` names, or is skipped when it carries none.
pub fn parse_stream_line(line: &str) -> (e: StreamEvent)
    ensures
        !spec_starts_with(line@, "data: "@) ==> e is Skip,
        (e is Done) <==> line@ == "data: [DONE]"@,
        spec_starts_with(line@, "data: "@) && line@ != "data: [DONE]"@ ==> (match e {
            StreamEvent::Fragment(s) => Some(s@),
            _ => None::<Seq<char>>,
        }) == spec_stream_fragment(line@.subrange(6, line@.len() as int)),
{
    proof {
        reveal_strlit("data: ");
        reveal_strlit("data: [DONE]");
        reveal_strlit("[DONE]");
        assert("data: [DONE]"@.subrange(0, 6) =~= "data: "@);
        assert("data: [DONE]"@.subrange(6, 12) =~= "[DONE]"@);
    }
    if !str_starts_with(line, "data: ") {
        return StreamEvent::Skip;
    }
    let len = line.unicode_len();
    let payload = line.substring_char(6, len);
    proof {
        assert(line@ =~= line@.subrange(0, 6) + line@.subrange(6, line@.len() as int));
    }
    if str_eq(payload, "[DONE]") {
        proof {
            assert(line@ =~= "data: [DONE]"@);
        }
        return StreamEvent::Done;
    }
    let doc = match json_parse(payload) {
        Some(d) => d,
        None => {
            return StreamEvent::Skip;
        },
    };
    let choices = match doc.get("choices") {
        Some(c) => c,
        None => {
            return StreamEvent::Skip;
        },
    };
    let len = match choices.arr_len() {
        Some(n) => n,
        None => {
            return StreamEvent::Skip;
        },
    };
    if len == 0 {
        return StreamEvent::Skip;
    }
    let first = choices.arr_get(0).unwrap();
    let delta = match first.get("delta") {
        Some(d) => d,
        None => {
            return StreamEvent::Skip;
        },
    };
    match delta.get("content") {
        Some(c) => {
            match c.as_string() {
                Some(s) => StreamEvent::Fragment(s),
                None => StreamEvent::Skip,
            }
        },
        None => StreamEvent::Skip,
    }
}

/// Accumulates the fragments of one streamed response into the full text
/// returned once the stream ends.
pub struct StreamAccumulator {
    text: String,
}

impl View for StreamAccumulator {
    type V = Seq<char>;

    closed spec fn view(&self) -> Seq<char> {
        self.text@
    }
}

impl StreamAccumulator {
    /// An empty accumulator for a fresh stream.
    pub fn new() -> (a: StreamAccumulator)
        ensures
            a@ == Seq::<char>::empty(),
    {
        let a = StreamAccumulator { text: String::new() };
        proof {
            assert(a@ =~= Seq::<char>::empty());
        }
        a
    }

    /// Append one fragment, in arrival order.
    pub fn push_fragment(&mut self, fragment: &str)
        ensures
            final(self)@ == old(self)@ + fragment@,
    {
        self.text.append(fragment);
    }

    /// The full-text reply returned once the stream has ended. A streamed
    /// response never carries tool requests.
    pub fn into_reply(self) -> (r: Reply)
        ensures
            r@.text == Some(self@),
            r@.tool_requests.len() == 0,
    {
        let r = Reply { text: Some(self.text), tool_requests: Vec::new() };
        proof {
            assert(r@.tool_requests =~= Seq::<ToolRequestView>::empty());
        }
        r
    }
}

} // verus!
