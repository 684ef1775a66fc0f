//! The agent loop: the state machine that drives one multi-turn exchange.
//!
//! The loop owns the conversation log. It accepts one line of user input,
//! asks for one completion, and either emits the reply's text or executes
//! the reply's tool requests one by one — appending exactly one tool turn
//! per request — before asking for the next completion. The outside world
//! (HTTP, sleeping, rendering) is driven by the caller: each method here
//! only decides, mutates the log, and says what outside work is due.

use vstd::prelude::*;
use vstd::pervasive::unreached;

use crate::conversation::Conversation;
use crate::search::{format_results, parse_search_results, spec_format_results, spec_parse_search, SearchParse};
use crate::tools::{
    failure_text, spec_failure_text, spec_tool_action, tool_action, OpenStrategy, ToolAction,
    ToolActionView,
};
use crate::transport::{normalize_reply, spec_normalize, Reply};
use crate::turn::{
    assistant_turn, duplicate_requests, tool_turn, user_turn, Role, ToolRequest, ToolRequestView,
    Turn, TurnView,
};

verus! {

/// Whether `t` is the tool turn that answers the request `req`.
pub open spec fn answers(t: TurnView, req: ToolRequestView) -> bool {
    t.role is Tool && t.tool_result_id == Some(req.id)
}

/// Whether the assistant turn at index `i` is immediately followed by
/// exactly one tool turn per request it carries, each with the matching
/// correlation id, in order.
pub open spec fn tool_block_at(log: Seq<TurnView>, i: int) -> bool
    recommends
        0 <= i < log.len(),
{
    &&& i + log[i].tool_requests.len() < log.len()
    &&& forall|j: int|
        0 <= j < log[i].tool_requests.len() ==> answers(
            #[trigger] log[i + 1 + j],
            log[i].tool_requests[j],
        )
}

/// Whether every assistant turn in the log has its complete tool block.
pub open spec fn tool_blocks_complete(log: Seq<TurnView>) -> bool {
    forall|i: int|
        0 <= i < log.len() && (#[trigger] log[i]).role is Assistant ==> tool_block_at(log, i)
}

/// The field shape of one stored turn: text is absent exactly on an
/// assistant turn that carries only tool requests, tool requests appear
/// only on assistant turns, and a result id appears exactly on tool turns.
pub open spec fn turn_shape_ok(t: TurnView) -> bool {
    &&& (t.text is None ==> t.role is Assistant && t.tool_requests.len() > 0)
    &&& (t.tool_requests.len() > 0 ==> t.role is Assistant)
    &&& (t.tool_result_id is Some <==> t.role is Tool)
}

/// Whether every stored turn has the field shape of its role.
pub open spec fn turns_shaped(log: Seq<TurnView>) -> bool {
    forall|i: int| 0 <= i < log.len() ==> turn_shape_ok(#[trigger] log[i])
}

/// Pushing a well-shaped turn keeps the log well-shaped.
proof fn lemma_push_preserves_shape(log: Seq<TurnView>, t: TurnView)
    requires
        turns_shaped(log),
        turn_shape_ok(t),
    ensures
        turns_shaped(log.push(t)),
{
    let log2 = log.push(t);
    assert forall|i: int| 0 <= i < log2.len() implies turn_shape_ok(#[trigger] log2[i]) by {
        if i < log.len() {
            assert(log2[i] == log[i]);
        } else {
            assert(log2[i] == t);
        }
    }
}

/// Removing the final turn keeps the log well-shaped.
proof fn lemma_drop_last_preserves_shape(log: Seq<TurnView>)
    requires
        turns_shaped(log),
        log.len() > 0,
    ensures
        turns_shaped(log.drop_last()),
{
    let log2 = log.drop_last();
    assert forall|i: int| 0 <= i < log2.len() implies turn_shape_ok(#[trigger] log2[i]) by {
        assert(log2[i] == log[i]);
    }
}

/// Whether the tool turn at index `i` stands inside the tool block of an
/// assistant turn before it, answering the request its position names.
pub open spec fn grounded_at(log: Seq<TurnView>, i: int) -> bool
    recommends
        0 <= i < log.len(),
{
    exists|j: int|
        {
            &&& 0 <= j < i
            &&& (#[trigger] log[j]).role is Assistant
            &&& i <= j + log[j].tool_requests.len()
            &&& log[i].tool_result_id == Some(log[j].tool_requests[i - j - 1].id)
        }
}

/// Whether every tool turn in the log answers a request of a preceding
/// assistant turn, standing inside that turn's tool block.
pub open spec fn tool_turns_grounded(log: Seq<TurnView>) -> bool {
    forall|i: int|
        0 <= i < log.len() && (#[trigger] log[i]).role is Tool ==> grounded_at(log, i)
}

/// Whether the log ends with an assistant turn carrying `requests`,
/// followed by the tool turns answering the first `next` of them, with
/// everything before that assistant turn complete.
pub open spec fn partial_block(
    log: Seq<TurnView>,
    requests: Seq<ToolRequestView>,
    next: int,
) -> bool {
    let a = log.len() - 1 - next;
    &&& 0 <= next <= requests.len()
    &&& log.len() >= 1 + next
    &&& log[a].role is Assistant
    &&& log[a].tool_requests == requests
    &&& (forall|j: int| 0 <= j < next ==> answers(#[trigger] log[a + 1 + j], requests[j]))
    &&& tool_blocks_complete(log.take(a))
}

/// Where the agent loop stands.
pub enum Phase {
    /// Waiting for the next line of user input.
    AwaitingUser,
    /// A completion call for the current log is due.
    CallingModel,
    /// The assistant turn just appended carries `requests`; those below
    /// `next` are answered, and the one at `next` is being executed.
    ExecutingTools { requests: Vec<ToolRequest>, next: usize },
}

/// Mathematical model of a `Phase`.
#[verifier::ext_equal]
pub ghost enum PhaseView {
    AwaitingUser,
    CallingModel,
    ExecutingTools { requests: Seq<ToolRequestView>, next: int },
}

impl View for Phase {
    type V = PhaseView;

    open spec fn view(&self) -> PhaseView {
        match self {
            Phase::AwaitingUser => PhaseView::AwaitingUser,
            Phase::CallingModel => PhaseView::CallingModel,
            Phase::ExecutingTools { requests, next } => PhaseView::ExecutingTools {
                requests: requests@.map_values(|r: ToolRequest| r@),
                next: *next as int,
            },
        }
    }
}

/// Mathematical model of an `Agent`.
#[verifier::ext_equal]
pub ghost struct AgentView {
    pub log: Seq<TurnView>,
    pub phase: PhaseView,
    pub stream: bool,
    pub strategy: OpenStrategy,
    pub rounds: u64,
    pub round_cap: Option<u64>,
}

/// What the caller reports back about the pending tool request.
pub enum ToolOutcome {
    /// The outside call was made and returned this response body.
    Fetched { body: String },
    /// The outside call was made and failed.
    FetchFailed,
    /// No outside call was asked for.
    NotRun,
}

/// Mathematical model of a `ToolOutcome`.
pub ghost enum ToolOutcomeView {
    Fetched(Seq<char>),
    FetchFailed,
    NotRun,
}

impl View for ToolOutcome {
    type V = ToolOutcomeView;

    open spec fn view(&self) -> ToolOutcomeView {
        match self {
            ToolOutcome::Fetched { body } => ToolOutcomeView::Fetched(body@),
            ToolOutcome::FetchFailed => ToolOutcomeView::FetchFailed,
            ToolOutcome::NotRun => ToolOutcomeView::NotRun,
        }
    }
}

/// The text of the tool turn that answers a request, given its decided
/// action and what the caller reports: a rejected request is answered
/// with the rejection's text, whatever the outcome; a fetched body is
/// answered with the formatted block of what it parses to, or with the
/// tool's fixed failure text when the body is not JSON at all; a failed
/// or absent call is answered with that fixed failure text.
pub open spec fn spec_resolved_text(
    req: ToolRequestView,
    strategy: OpenStrategy,
    outcome: ToolOutcomeView,
) -> Seq<char> {
    match spec_tool_action(req, strategy) {
        ToolActionView::Reject(message) => message,
        _ => match outcome {
            ToolOutcomeView::Fetched(body) => if spec_parse_search(body) is NotJson {
                spec_failure_text(req.tool_name)
            } else {
                spec_format_results(spec_parse_search(body))
            },
            _ => spec_failure_text(req.tool_name),
        },
    }
}

/// The agent loop's state: the conversation log it owns, the phase it
/// stands in, the open-URL strategy, and the per-user-turn bound on tool
/// round trips (no bound reproduces the unbounded continuation loop).
pub struct Agent {
    conversation: Conversation,
    phase: Phase,
    open_strategy: OpenStrategy,
    rounds_this_turn: u64,
    tool_round_cap: Option<u64>,
}

impl View for Agent {
    type V = AgentView;

    closed spec fn view(&self) -> AgentView {
        AgentView {
            log: self.conversation@,
            phase: self.phase@,
            stream: self.conversation.stream_mode_spec(),
            strategy: self.open_strategy,
            rounds: self.rounds_this_turn,
            round_cap: self.tool_round_cap,
        }
    }
}

/// Whether one more tool round trip is allowed under the configured cap.
pub open spec fn under_cap(rounds: u64, cap: Option<u64>) -> bool {
    match cap {
        Some(c) => rounds < c,
        None => true,
    }
}

/// The tool-turn text used when the tool-round cap ends a turn early.
pub open spec fn spec_cap_text() -> Seq<char> {
    "Error: The tool round limit for this turn was reached. Please answer with what is known."@
}

/// The tool-turn text used when the tool-round cap ends a turn early.
pub fn cap_text() -> (r: &'static str)
    ensures
        r@ == spec_cap_text(),
{
    "Error: The tool round limit for this turn was reached. Please answer with what is known."
}

/// The tool turns that answer every request with the cap-reached text.
pub open spec fn cap_answers(requests: Seq<ToolRequestView>) -> Seq<TurnView> {
    requests.map_values(|r: ToolRequestView| tool_turn(spec_cap_text(), r.id))
}

/// Pushing a turn that is not a tool turn keeps every tool turn grounded.
proof fn lemma_push_preserves_grounded(log: Seq<TurnView>, t: TurnView)
    requires
        tool_turns_grounded(log),
        !(t.role is Tool),
    ensures
        tool_turns_grounded(log.push(t)),
{
    let log2 = log.push(t);
    assert forall|i: int| 0 <= i < log2.len() && (#[trigger] log2[i]).role is Tool
        implies grounded_at(log2, i) by {
        assert(log2[i] == log[i]);
        assert(grounded_at(log, i));
        let j = choose|j: int|
            {
                &&& 0 <= j < i
                &&& (#[trigger] log[j]).role is Assistant
                &&& i <= j + log[j].tool_requests.len()
                &&& log[i].tool_result_id == Some(log[j].tool_requests[i - j - 1].id)
            };
        assert(log2[j] == log[j]);
        assert(0 <= j < i && log2[j].role is Assistant && i <= j + log2[j].tool_requests.len()
            && log2[i].tool_result_id == Some(log2[j].tool_requests[i - j - 1].id));
    }
}

/// Pushing the tool turn that answers the request at `next` of the
/// assistant turn ending the log's open block keeps every tool turn
/// grounded.
proof fn lemma_answer_preserves_grounded(
    log: Seq<TurnView>,
    requests: Seq<ToolRequestView>,
    next: int,
    text: Seq<char>,
)
    requires
        tool_turns_grounded(log),
        partial_block(log, requests, next),
        0 <= next < requests.len(),
    ensures
        tool_turns_grounded(log.push(tool_turn(text, requests[next].id))),
{
    let t = tool_turn(text, requests[next].id);
    let log2 = log.push(t);
    let a = log.len() - 1 - next;
    assert forall|i: int| 0 <= i < log2.len() && (#[trigger] log2[i]).role is Tool
        implies grounded_at(log2, i) by {
        if i < log.len() {
            assert(log2[i] == log[i]);
            assert(grounded_at(log, i));
            let j = choose|j: int|
                {
                    &&& 0 <= j < i
                    &&& (#[trigger] log[j]).role is Assistant
                    &&& i <= j + log[j].tool_requests.len()
                    &&& log[i].tool_result_id == Some(log[j].tool_requests[i - j - 1].id)
                };
            assert(log2[j] == log[j]);
            assert(0 <= j < i && log2[j].role is Assistant && i <= j
                + log2[j].tool_requests.len() && log2[i].tool_result_id == Some(
                log2[j].tool_requests[i - j - 1].id,
            ));
        } else {
            assert(log2[a] == log[a]);
            assert(i - a - 1 == next);
            assert(0 <= a < i && log2[a].role is Assistant && i <= a
                + log2[a].tool_requests.len() && log2[i].tool_result_id == Some(
                log2[a].tool_requests[i - a - 1].id,
            ));
        }
    }
}

/// Removing a final turn that is not a tool turn keeps every tool turn
/// grounded: no grounding can point at or past the removed turn.
proof fn lemma_drop_last_preserves_grounded(log: Seq<TurnView>)
    requires
        tool_turns_grounded(log),
        log.len() > 0,
        !(log.last().role is Tool),
    ensures
        tool_turns_grounded(log.drop_last()),
{
    let log2 = log.drop_last();
    assert forall|i: int| 0 <= i < log2.len() && (#[trigger] log2[i]).role is Tool
        implies grounded_at(log2, i) by {
        assert(log2[i] == log[i]);
        assert(grounded_at(log, i));
        let j = choose|j: int|
            {
                &&& 0 <= j < i
                &&& (#[trigger] log[j]).role is Assistant
                &&& i <= j + log[j].tool_requests.len()
                &&& log[i].tool_result_id == Some(log[j].tool_requests[i - j - 1].id)
            };
        assert(log2[j] == log[j]);
        assert(0 <= j < i && log2[j].role is Assistant && i <= j + log2[j].tool_requests.len()
            && log2[i].tool_result_id == Some(log2[j].tool_requests[i - j - 1].id));
    }
}

/// Pushing a turn that is not an assistant turn carrying requests keeps
/// every tool block complete.
proof fn lemma_push_preserves_complete(log: Seq<TurnView>, t: TurnView)
    requires
        tool_blocks_complete(log),
        t.role is Assistant ==> t.tool_requests.len() == 0,
    ensures
        tool_blocks_complete(log.push(t)),
{
    let log2 = log.push(t);
    assert forall|i: int| 0 <= i < log2.len() && (#[trigger] log2[i]).role is Assistant
        implies tool_block_at(log2, i) by {
        if i < log.len() {
            assert(log2[i] == log[i]);
            assert(tool_block_at(log, i));
            assert forall|j: int| 0 <= j < log2[i].tool_requests.len() implies answers(
                #[trigger] log2[i + 1 + j],
                log2[i].tool_requests[j],
            ) by {
                assert(log2[i + 1 + j] == log[i + 1 + j]);
            }
        } else {
            assert(log2[i] == t);
        }
    }
}

/// Removing a final user turn keeps every tool block complete: no block can
/// reach a user turn, so none reached the removed one.
proof fn lemma_drop_last_user_preserves_complete(log: Seq<TurnView>)
    requires
        tool_blocks_complete(log),
        log.len() > 0,
        log.last().role is User,
    ensures
        tool_blocks_complete(log.drop_last()),
{
    let log2 = log.drop_last();
    assert forall|i: int| 0 <= i < log2.len() && (#[trigger] log2[i]).role is Assistant
        implies tool_block_at(log2, i) by {
        assert(log2[i] == log[i]);
        assert(tool_block_at(log, i));
        let k = log[i].tool_requests.len() as int;
        if i + k == log.len() - 1 && k > 0 {
            assert(answers(log[i + 1 + (k - 1)], log[i].tool_requests[k - 1]));
            assert(log[log.len() - 1].role is Tool);
            assert(false);
        }
        assert forall|j: int| 0 <= j < log2[i].tool_requests.len() implies answers(
            #[trigger] log2[i + 1 + j],
            log2[i].tool_requests[j],
        ) by {
            assert(log2[i + 1 + j] == log[i + 1 + j]);
        }
    }
}

/// A log whose final block just closed — an assistant turn carrying
/// `requests` followed by one answering tool turn per request — is
/// complete when everything before the assistant turn was.
proof fn lemma_closed_block_complete(log: Seq<TurnView>, requests: Seq<ToolRequestView>)
    requires
        partial_block(log, requests, requests.len() as int),
    ensures
        tool_blocks_complete(log),
{
    let a = log.len() - 1 - requests.len();
    assert forall|i: int| 0 <= i < log.len() && (#[trigger] log[i]).role is Assistant
        implies tool_block_at(log, i) by {
        if i < a {
            assert(log.take(a)[i] == log[i]);
            assert(tool_block_at(log.take(a), i));
            assert forall|j: int| 0 <= j < log[i].tool_requests.len() implies answers(
                #[trigger] log[i + 1 + j],
                log[i].tool_requests[j],
            ) by {
                assert(log.take(a)[i + 1 + j] == log[i + 1 + j]);
            }
        } else if i == a {
            assert forall|j: int| 0 <= j < log[i].tool_requests.len() implies answers(
                #[trigger] log[i + 1 + j],
                log[i].tool_requests[j],
            ) by {
                assert(answers(log[a + 1 + j], requests[j]));
            }
        } else {
            assert(answers(log[a + 1 + (i - a - 1)], requests[i - a - 1]));
            assert(log[i].role is Tool);
            assert(false);
        }
    }
}

impl Agent {
    /// The loop's invariant: every stored turn has the field shape of its
    /// role; every tool turn is grounded in a preceding assistant turn's
    /// block; outside tool execution every tool block is
    /// complete; during it, the log ends with the open block, and the
    /// pending index stays within the requests.
    pub open spec fn wf(&self) -> bool {
        &&& turns_shaped(self@.log)
        &&& tool_turns_grounded(self@.log)
        &&& match self@.phase {
            PhaseView::AwaitingUser => tool_blocks_complete(self@.log),
            PhaseView::CallingModel => tool_blocks_complete(self@.log),
            PhaseView::ExecutingTools { requests, next } => {
                &&& partial_block(self@.log, requests, next)
                &&& next < requests.len()
            },
        }
    }

    /// A fresh agent: empty log, awaiting input, buffered delivery.
    pub fn new(strategy: OpenStrategy, tool_round_cap: Option<u64>) -> (a: Agent)
        ensures
            a.wf(),
            a@.log == Seq::<TurnView>::empty(),
            a@.phase is AwaitingUser,
            !a@.stream,
            a@.strategy == strategy,
            a@.round_cap == tool_round_cap,
    {
        Agent {
            conversation: Conversation::new(),
            phase: Phase::AwaitingUser,
            open_strategy: strategy,
            rounds_this_turn: 0,
            tool_round_cap: tool_round_cap,
        }
    }

    /// Read access to the conversation the loop owns.
    pub fn conversation(&self) -> (c: &Conversation)
        ensures
            c@ == self@.log,
            c.stream_mode_spec() == self@.stream,
    {
        &self.conversation
    }

    /// Truncate the log to empty; allowed only between turns. Clearing an
    /// already empty log is a no-op that leaves the log empty.
    pub fn clear_conversation(&mut self)
        requires
            old(self).wf(),
            old(self)@.phase is AwaitingUser,
        ensures
            final(self).wf(),
            final(self)@.log == Seq::<TurnView>::empty(),
            final(self)@.phase is AwaitingUser,
            final(self)@.stream == old(self)@.stream,
            final(self)@.strategy == old(self)@.strategy,
            final(self)@.round_cap == old(self)@.round_cap,
    {
        self.conversation.clear();
    }

    /// Flip between buffered and streamed delivery; nothing else changes.
    pub fn toggle_stream_mode(&mut self)
        requires
            old(self).wf(),
        ensures
            final(self).wf(),
            final(self)@.stream == !old(self)@.stream,
            final(self)@.log == old(self)@.log,
            final(self)@.phase == old(self)@.phase,
            final(self)@.strategy == old(self)@.strategy,
            final(self)@.round_cap == old(self)@.round_cap,
    {
        self.conversation.toggle_stream_mode();
    }

    /// Whether the user has selected streamed delivery.
    pub fn is_stream_mode(&self) -> (m: bool)
        ensures
            m == self@.stream,
    {
        self.conversation.is_stream_mode()
    }

    /// Accept one line of user input: append it as a user turn and make a
    /// completion call due. Resets the tool-round budget for this turn.
    pub fn submit_user(&mut self, text: &str)
        requires
            old(self).wf(),
            old(self)@.phase is AwaitingUser,
        ensures
            final(self).wf(),
            final(self)@.log == old(self)@.log.push(user_turn(text@)),
            final(self)@.phase is CallingModel,
            final(self)@.stream == old(self)@.stream,
            final(self)@.strategy == old(self)@.strategy,
            final(self)@.rounds == 0,
            final(self)@.round_cap == old(self)@.round_cap,
    {
        proof {
            lemma_push_preserves_complete(self@.log, user_turn(text@));
            lemma_push_preserves_grounded(self@.log, user_turn(text@));
            lemma_push_preserves_shape(self@.log, user_turn(text@));
        }
        self.conversation.add_user_message(text);
        self.phase = Phase::CallingModel;
        self.rounds_this_turn = 0;
    }

    /// Record one successful model reply: the normalized reply is appended
    /// as an assistant turn unconditionally, before it is inspected. A
    /// reply without tool requests ends the turn and emits its text; one
    /// with tool requests opens tool execution — unless the tool-round cap
    /// is spent, in which case the loop fails closed: every request is
    /// answered with the fixed cap-reached text and the reply's text (or
    /// an empty text) is emitted as a best effort.
    pub fn on_reply(&mut self, reply: Reply) -> (emitted: Option<String>)
        requires
            old(self).wf(),
            old(self)@.phase is CallingModel,
        ensures
            final(self).wf(),
            final(self)@.stream == old(self)@.stream,
            final(self)@.strategy == old(self)@.strategy,
            final(self)@.round_cap == old(self)@.round_cap,
            spec_normalize(reply@).tool_requests.len() == 0 ==> {
                &&& final(self)@.log == old(self)@.log.push(
                    assistant_turn(
                        spec_normalize(reply@).text,
                        spec_normalize(reply@).tool_requests,
                    ),
                )
                &&& final(self)@.phase is AwaitingUser
                &&& emitted matches Some(t) && Some(t@) == spec_normalize(reply@).text
            },
            spec_normalize(reply@).tool_requests.len() > 0 && under_cap(
                old(self)@.rounds,
                old(self)@.round_cap,
            ) ==> {
                &&& final(self)@.log == old(self)@.log.push(
                    assistant_turn(
                        spec_normalize(reply@).text,
                        spec_normalize(reply@).tool_requests,
                    ),
                )
                &&& final(self)@.phase == (PhaseView::ExecutingTools {
                    requests: spec_normalize(reply@).tool_requests,
                    next: 0,
                })
                &&& emitted is None
            },
            spec_normalize(reply@).tool_requests.len() > 0 && !under_cap(
                old(self)@.rounds,
                old(self)@.round_cap,
            ) ==> {
                &&& final(self)@.log == old(self)@.log.push(
                    assistant_turn(
                        spec_normalize(reply@).text,
                        spec_normalize(reply@).tool_requests,
                    ),
                ) + cap_answers(spec_normalize(reply@).tool_requests)
                &&& final(self)@.phase is AwaitingUser
                &&& emitted is Some
            },
    {
        let n = normalize_reply(reply);
        let ghost nv = spec_normalize(reply@);
        if n.tool_requests.len() == 0 {
            let txt: String = match n.text {
                Some(t) => t,
                None => String::new(),
            };
            let stored = txt.clone();
            let turn = Turn::assistant(Some(stored), n.tool_requests);
            proof {
                assert(turn@ =~= assistant_turn(nv.text, nv.tool_requests));
                lemma_push_preserves_complete(self@.log, turn@);
                lemma_push_preserves_grounded(self@.log, turn@);
                lemma_push_preserves_shape(self@.log, turn@);
            }
            self.conversation.push_turn(turn);
            self.phase = Phase::AwaitingUser;
            Some(txt)
        } else {
            let proceed = match self.tool_round_cap {
                Some(c) => self.rounds_this_turn < c,
                None => true,
            };
            if proceed {
                let turn_requests = duplicate_requests(&n.tool_requests);
                let turn = Turn::assistant(n.text, turn_requests);
                proof {
                    assert(turn@ =~= assistant_turn(nv.text, nv.tool_requests));
                    lemma_push_preserves_grounded(self@.log, turn@);
                    lemma_push_preserves_shape(self@.log, turn@);
                }
                self.conversation.push_turn(turn);
                self.phase = Phase::ExecutingTools { requests: n.tool_requests, next: 0 };
                if self.rounds_this_turn < u64::MAX {
                    self.rounds_this_turn = self.rounds_this_turn + 1;
                }
                proof {
                    let log2 = old(self)@.log.push(assistant_turn(nv.text, nv.tool_requests));
                    assert(log2.take(log2.len() - 1) =~= old(self)@.log);
                    assert(self@.phase =~= (PhaseView::ExecutingTools {
                        requests: nv.tool_requests,
                        next: 0,
                    }));
                }
                None
            } else {
                let txt: String = match &n.text {
                    Some(t) => t.clone(),
                    None => String::new(),
                };
                let turn_requests = duplicate_requests(&n.tool_requests);
                let turn = Turn::assistant(n.text, turn_requests);
                proof {
                    assert(turn@ =~= assistant_turn(nv.text, nv.tool_requests));
                    lemma_push_preserves_grounded(self@.log, turn@);
                    lemma_push_preserves_shape(self@.log, turn@);
                }
                self.conversation.push_turn(turn);
                let ghost base = old(self)@.log.push(assistant_turn(nv.text, nv.tool_requests));
                let ghost a = base.len() - 1;
                let answer = cap_text();
                let mut i: usize = 0;
                proof {
                    assert(nv.tool_requests.take(0) =~= Seq::<ToolRequestView>::empty());
                    assert(cap_answers(nv.tool_requests.take(0))
                        =~= Seq::<TurnView>::empty());
                    assert(base + cap_answers(nv.tool_requests.take(0)) =~= base);
                    assert(base.take(a) =~= old(self)@.log);
                    assert(partial_block(base, nv.tool_requests, 0));
                }
                while i < n.tool_requests.len()
                    invariant
                        i <= n.tool_requests.len(),
                        nv.tool_requests == n.tool_requests@.map_values(|r: ToolRequest| r@),
                        answer@ == spec_cap_text(),
                        a == base.len() - 1,
                        base.len() >= 1,
                        base[a] == assistant_turn(nv.text, nv.tool_requests),
                        self.conversation@ == base + cap_answers(nv.tool_requests.take(i as int)),
                        partial_block(self.conversation@, nv.tool_requests, i as int),
                        tool_turns_grounded(self.conversation@),
                        turns_shaped(self.conversation@),
                        self.conversation.stream_mode_spec() == old(self)@.stream,
                        self.open_strategy == old(self)@.strategy,
                        self.rounds_this_turn == old(self)@.rounds,
                        self.tool_round_cap == old(self)@.round_cap,
                    decreases n.tool_requests.len() - i,
                {
                    let ghost prev = self.conversation@;
                    self.conversation.push_turn(Turn::tool(answer, n.tool_requests[i].id.as_str()));
                    proof {
                        assert(nv.tool_requests[i as int] == n.tool_requests@[i as int]@);
                        assert(self.conversation@ == prev.push(
                            tool_turn(spec_cap_text(), nv.tool_requests[i as int].id),
                        ));
                        lemma_answer_preserves_grounded(
                            prev,
                            nv.tool_requests,
                            i as int,
                            spec_cap_text(),
                        );
                        lemma_push_preserves_shape(
                            prev,
                            tool_turn(spec_cap_text(), nv.tool_requests[i as int].id),
                        );
                        let log2 = self.conversation@;
                        assert(log2.take(a) =~= prev.take(a));
                        assert forall|j: int| 0 <= j < i + 1 implies answers(
                            #[trigger] log2[a + 1 + j],
                            nv.tool_requests[j],
                        ) by {
                            if j < i {
                                assert(log2[a + 1 + j] == prev[a + 1 + j]);
                            } else {
                                assert(log2[a + 1 + j] == tool_turn(
                                    spec_cap_text(),
                                    nv.tool_requests[i as int].id,
                                ));
                            }
                        }
                        assert(partial_block(log2, nv.tool_requests, i + 1));
                        assert(log2 =~= base + cap_answers(nv.tool_requests.take(i + 1)));
                    }
                    i = i + 1;
                }
                self.phase = Phase::AwaitingUser;
                proof {
                    assert(nv.tool_requests.take(nv.tool_requests.len() as int)
                        =~= nv.tool_requests);
                    lemma_closed_block_complete(self@.log, nv.tool_requests);
                    assert(self@.log == base + cap_answers(nv.tool_requests));
                }
                Some(txt)
            }
        }
    }

    /// The tool requests still pending, and the index of the one to run.
    pub open spec fn pending(&self) -> (Seq<ToolRequestView>, int)
        recommends
            self@.phase is ExecutingTools,
    {
        match self@.phase {
            PhaseView::ExecutingTools { requests, next } => (requests, next),
            _ => (Seq::empty(), 0),
        }
    }

    /// The request being executed.
    pub open spec fn current_request(&self) -> ToolRequestView
        recommends
            self@.phase is ExecutingTools,
    {
        self.pending().0[self.pending().1]
    }

    /// How many tool requests are still unanswered, or nothing when no
    /// tool execution is open.
    pub fn tools_pending(&self) -> (r: Option<usize>)
        requires
            self.wf(),
        ensures
            (r is Some) <==> self@.phase is ExecutingTools,
            r matches Some(k) ==> k == self.pending().0.len() - self.pending().1 && k > 0,
    {
        match &self.phase {
            Phase::ExecutingTools { requests, next } => {
                proof {
                    assert(self@.phase == (PhaseView::ExecutingTools {
                        requests: requests@.map_values(|r: ToolRequest| r@),
                        next: *next as int,
                    }));
                    assert((*next as int) < requests@.len());
                }
                Some(requests.len() - *next)
            },
            _ => None,
        }
    }

    /// Decide the outside action for the pending tool request, exactly as
    /// `spec_tool_action` describes. A request whose arguments cannot be
    /// decoded, or that names an unregistered tool, asks for no outside
    /// call.
    pub fn tool_directive(&self) -> (a: ToolAction)
        requires
            self.wf(),
            self@.phase is ExecutingTools,
        ensures
            a@ == spec_tool_action(self.current_request(), self@.strategy),
    {
        match &self.phase {
            Phase::ExecutingTools { requests, next } => {
                proof {
                    assert(self@.phase == (PhaseView::ExecutingTools {
                        requests: requests@.map_values(|r: ToolRequest| r@),
                        next: *next as int,
                    }));
                    assert((*next as int) < requests@.len());
                    assert(requests@[*next as int]@ == self.current_request());
                }
                tool_action(&requests[*next], self.open_strategy)
            },
            _ => unreached(),
        }
    }

    /// Append the tool turn that answers the pending request with `text`,
    /// and advance: to the next request, or back to a completion call once
    /// every request in this assistant turn is answered.
    pub fn answer_tool(&mut self, text: &str)
        requires
            old(self).wf(),
            old(self)@.phase is ExecutingTools,
            text@.len() > 0,
        ensures
            final(self).wf(),
            final(self)@.stream == old(self)@.stream,
            final(self)@.strategy == old(self)@.strategy,
            final(self)@.rounds == old(self)@.rounds,
            final(self)@.round_cap == old(self)@.round_cap,
            final(self)@.log == old(self)@.log.push(
                tool_turn(text@, old(self).current_request().id),
            ),
            old(self).pending().1 + 1 < old(self).pending().0.len() ==> final(self)@.phase
                == (PhaseView::ExecutingTools {
                requests: old(self).pending().0,
                next: old(self).pending().1 + 1,
            }),
            old(self).pending().1 + 1 == old(self).pending().0.len() ==> final(self)@.phase
                is CallingModel,
    {
        let ghost reqs = self.pending().0;
        let ghost nx = self.pending().1;
        match &self.phase {
            Phase::ExecutingTools { requests, next } => {
                proof {
                    assert(self@.phase == (PhaseView::ExecutingTools {
                        requests: requests@.map_values(|r: ToolRequest| r@),
                        next: *next as int,
                    }));
                    assert((*next as int) < requests@.len());
                }
                let len: usize = requests.len();
                proof {
                    assert(*next < len);
                }
                let id: &str = requests[*next].id.as_str();
                let new_next: usize = *next + 1;
                let finished: bool = new_next == len;
                proof {
                    lemma_answer_preserves_grounded(self@.log, reqs, nx, text@);
                    lemma_push_preserves_shape(self@.log, tool_turn(text@, reqs[nx].id));
                    assert(reqs[nx] == requests@[*next as int]@);
                }
                self.conversation.push_turn(Turn::tool(text, id));
                proof {
                    let log2 = self@.log;
                    let a = log2.len() - 1 - (nx + 1);
                    assert(log2 == old(self)@.log.push(tool_turn(text@, reqs[nx].id)));
                    assert(log2[a] == old(self)@.log[old(self)@.log.len() - 1 - nx]);
                    assert(log2.take(a) =~= old(self)@.log.take(a));
                    assert forall|j: int| 0 <= j < nx + 1 implies answers(
                        #[trigger] log2[a + 1 + j],
                        reqs[j],
                    ) by {
                        if j < nx {
                            assert(log2[a + 1 + j] == old(self)@.log[a + 1 + j]);
                        } else {
                            assert(log2[a + 1 + j] == tool_turn(text@, reqs[nx].id));
                        }
                    }
                    assert(partial_block(log2, reqs, nx + 1));
                }
                if finished {
                    self.phase = Phase::CallingModel;
                    proof {
                        lemma_closed_block_complete(self@.log, reqs);
                    }
                } else {
                    let kept = duplicate_requests(requests);
                    self.phase = Phase::ExecutingTools { requests: kept, next: new_next };
                    proof {
                        assert(self@.phase =~= (PhaseView::ExecutingTools {
                            requests: reqs,
                            next: nx + 1,
                        }));
                    }
                }
            },
            _ => {
                proof {
                    assert(false);
                }
            },
        }
    }

    /// Resolve the pending tool request from what the caller reports.
    /// Exactly one tool turn is appended — a tool failure never aborts
    /// the turn — and its text is exactly `spec_resolved_text`: the
    /// rejection's text for a rejected request; the formatted block of
    /// what a fetched body parses to; the tool's fixed failure text for a
    /// failed or absent call, or for a fetched body that is not JSON.
    pub fn resolve_tool(&mut self, outcome: ToolOutcome)
        requires
            old(self).wf(),
            old(self)@.phase is ExecutingTools,
        ensures
            final(self).wf(),
            final(self)@.stream == old(self)@.stream,
            final(self)@.strategy == old(self)@.strategy,
            final(self)@.rounds == old(self)@.rounds,
            final(self)@.round_cap == old(self)@.round_cap,
            final(self)@.log == old(self)@.log.push(
                tool_turn(
                    spec_resolved_text(
                        old(self).current_request(),
                        old(self)@.strategy,
                        outcome@,
                    ),
                    old(self).current_request().id,
                ),
            ),
            spec_resolved_text(old(self).current_request(), old(self)@.strategy, outcome@).len()
                > 0,
            old(self).pending().1 + 1 < old(self).pending().0.len() ==> final(self)@.phase
                == (PhaseView::ExecutingTools {
                requests: old(self).pending().0,
                next: old(self).pending().1 + 1,
            }),
            old(self).pending().1 + 1 == old(self).pending().0.len() ==> final(self)@.phase
                is CallingModel,
    {
        let action = self.tool_directive();
        let ghost req = self.current_request();
        let ghost strat = self@.strategy;
        let ghost wanted = spec_resolved_text(req, strat, outcome@);
        match &action {
            ToolAction::Reject { message } => {
                proof {
                    reveal_strlit(
                        "Error: The tool arguments could not be decoded. Please retry with corrected arguments.",
                    );
                    reveal_strlit("Error: Unknown tool. Only brave_search and open are available.");
                    assert(wanted == message@);
                    assert(message@.len() > 0);
                }
                self.answer_tool(message.as_str());
            },
            _ => {
                proof {
                    assert(!(spec_tool_action(req, strat) is Reject));
                }
                match &outcome {
                    ToolOutcome::Fetched { body } => {
                        let parsed = parse_search_results(body.as_str());
                        match &parsed {
                            SearchParse::NotJson => {
                                let t = self.current_failure_text();
                                proof {
                                    reveal_failure_texts();
                                    assert(wanted == t@);
                                }
                                self.answer_tool(t);
                            },
                            _ => {
                                let block = format_results(&parsed);
                                proof {
                                    crate::search::lemma_block_well_formed(parsed@);
                                    reveal_strlit("### Brave Search Results\n\n");
                                    assert(block@.len() > 0);
                                    assert(wanted == block@);
                                }
                                self.answer_tool(block.as_str());
                            },
                        }
                    },
                    ToolOutcome::FetchFailed => {
                        let t = self.current_failure_text();
                        proof {
                            reveal_failure_texts();
                            assert(wanted == t@);
                        }
                        self.answer_tool(t);
                    },
                    ToolOutcome::NotRun => {
                        let t = self.current_failure_text();
                        proof {
                            reveal_failure_texts();
                            assert(wanted == t@);
                        }
                        self.answer_tool(t);
                    },
                }
            },
        }
    }

    /// The fixed failure text of the pending request's tool.
    fn current_failure_text(&self) -> (r: &'static str)
        requires
            self.wf(),
            self@.phase is ExecutingTools,
        ensures
            r@ == spec_failure_text(self.current_request().tool_name),
    {
        match &self.phase {
            Phase::ExecutingTools { requests, next } => failure_text(
                requests[*next].tool_name.as_str(),
            ),
            _ => unreached(),
        }
    }

    /// Record a recoverable transport failure of the due completion call:
    /// if the most recent turn is an unanswered user turn, it is rolled
    /// back, so the log is exactly as it was before that user turn; the
    /// session continues, awaiting input.
    pub fn on_model_failure(&mut self)
        requires
            old(self).wf(),
            old(self)@.phase is CallingModel,
        ensures
            final(self).wf(),
            final(self)@.stream == old(self)@.stream,
            final(self)@.strategy == old(self)@.strategy,
            final(self)@.round_cap == old(self)@.round_cap,
            final(self)@.phase is AwaitingUser,
            old(self)@.log.len() > 0 && old(self)@.log.last().role is User ==> final(self)@.log
                == old(self)@.log.drop_last(),
            !(old(self)@.log.len() > 0 && old(self)@.log.last().role is User) ==> final(self)@.log
                == old(self)@.log,
    {
        let n = self.conversation.len();
        if n > 0 {
            let is_user = {
                let last = self.conversation.get(n - 1);
                last.role == Role::User
            };
            if is_user {
                proof {
                    lemma_drop_last_user_preserves_complete(self@.log);
                    lemma_drop_last_preserves_grounded(self@.log);
                    lemma_drop_last_preserves_shape(self@.log);
                }
                self.conversation.remove_last_message();
            }
        }
        self.phase = Phase::AwaitingUser;
    }
}

/// Reveal the literals behind the fixed failure texts, so their non-zero
/// length is known.
proof fn reveal_failure_texts()
    ensures
        spec_failure_text("open"@).len() > 0,
        spec_failure_text("brave_search"@).len() > 0,
        forall|name: Seq<char>| (#[trigger] spec_failure_text(name)).len() > 0,
{
    reveal_strlit("Error: Failed to read page content. Please try searching instead.");
    reveal_strlit("Error: Search failed. Please answer without search.");
}

/// One simple exchange appended to a log: a user turn, then an assistant
/// turn holding only text.
pub open spec fn spec_simple_round(
    log: Seq<TurnView>,
    user_text: Seq<char>,
    reply_text: Seq<char>,
) -> Seq<TurnView> {
    log.push(user_turn(user_text)).push(assistant_turn(Some(reply_text), Seq::empty()))
}

/// The log after a run of simple exchanges, each a user text answered by a
/// reply without tool requests.
pub open spec fn spec_simple_run(pairs: Seq<(Seq<char>, Seq<char>)>) -> Seq<TurnView>
    decreases pairs.len(),
{
    if pairs.len() == 0 {
        Seq::empty()
    } else {
        spec_simple_round(
            spec_simple_run(pairs.drop_last()),
            pairs.last().0,
            pairs.last().1,
        )
    }
}

/// Law: after a run of N user turns each answered by a successful reply
/// without tool requests, the conversation holds exactly 2N turns,
/// alternating: the user turns at the even indices and the assistant turns
/// at the odd ones, in order.
pub proof fn lemma_simple_run_alternates(pairs: Seq<(Seq<char>, Seq<char>)>)
    ensures
        spec_simple_run(pairs).len() == 2 * pairs.len(),
        forall|i: int|
            0 <= i < pairs.len() ==> #[trigger] spec_simple_run(pairs)[2 * i] == user_turn(
                pairs[i].0,
            ),
        forall|i: int|
            0 <= i < pairs.len() ==> #[trigger] spec_simple_run(pairs)[2 * i + 1]
                == assistant_turn(Some(pairs[i].1), Seq::empty()),
    decreases pairs.len(),
{
    if pairs.len() > 0 {
        lemma_simple_run_alternates(pairs.drop_last());
        let prev = spec_simple_run(pairs.drop_last());
        let full = spec_simple_run(pairs);
        assert forall|i: int| 0 <= i < pairs.len() implies #[trigger] full[2 * i] == user_turn(
            pairs[i].0,
        ) && full[2 * i + 1] == assistant_turn(Some(pairs[i].1), Seq::empty()) by {
            if i < pairs.len() - 1 {
                assert(pairs.drop_last()[i] == pairs[i]);
                assert(full[2 * i] == prev[2 * i]);
                assert(full[2 * i + 1] == prev[2 * i + 1]);
            }
        }
    }
}

/// Law: a well-formed agent that is not mid-execution has every
/// tool-requesting assistant turn immediately followed by exactly one tool
/// turn per request it carried, each with the matching correlation id,
/// before any subsequent turn.
pub proof fn lemma_tool_blocks_outside_execution(a: Agent)
    requires
        a.wf(),
        !(a@.phase is ExecutingTools),
    ensures
        tool_blocks_complete(a@.log),
{
}

/// Law: in a well-formed agent, every stored turn has the field shape of
/// its role: text is absent exactly on an assistant turn that carries only
/// tool requests, tool requests appear only on assistant turns, and a
/// correlation id appears exactly on tool turns.
pub proof fn lemma_turn_shapes(a: Agent)
    requires
        a.wf(),
    ensures
        turns_shaped(a@.log),
{
}

/// Law: in a well-formed agent, every tool turn stands inside the tool
/// block of a preceding assistant turn and answers the request its
/// position names — the transport layer never sees an orphaned tool turn.
pub proof fn lemma_no_orphan_tool_turns(a: Agent)
    requires
        a.wf(),
    ensures
        tool_turns_grounded(a@.log),
{
}

} // verus!
