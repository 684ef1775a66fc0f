//! One conversational unit (a turn) and the tool requests a turn can carry.

use vstd::prelude::*;

verus! {

/// Who produced a turn in the conversation log.
#[derive(Clone, Copy, PartialEq, Eq, Structural, Debug)]
pub enum Role {
    System,
    User,
    Assistant,
    Tool,
}

/// A model-issued instruction to invoke a named tool.
/// `arguments` holds the JSON-encoded argument payload as the model sent it.
pub struct ToolRequest {
    pub id: String,
    pub tool_name: String,
    pub arguments: String,
}

/// Mathematical model of a `ToolRequest`.
#[verifier::ext_equal]
pub ghost struct ToolRequestView {
    pub id: Seq<char>,
    pub tool_name: Seq<char>,
    pub arguments: Seq<char>,
}

impl View for ToolRequest {
    type V = ToolRequestView;

    open spec fn view(&self) -> ToolRequestView {
        ToolRequestView { id: self.id@, tool_name: self.tool_name@, arguments: self.arguments@ }
    }
}

/// One entry in the conversation log.
///
/// `text` is absent exactly when the turn is an assistant turn that carries
/// only tool requests; `tool_requests` is non-empty only on assistant turns;
/// `tool_result_id` is present only on tool turns, where it names the request
/// the turn answers.
pub struct Turn {
    pub role: Role,
    pub text: Option<String>,
    pub tool_requests: Vec<ToolRequest>,
    pub tool_result_id: Option<String>,
}

/// Mathematical model of a `Turn`.
#[verifier::ext_equal]
pub ghost struct TurnView {
    pub role: Role,
    pub text: Option<Seq<char>>,
    pub tool_requests: Seq<ToolRequestView>,
    pub tool_result_id: Option<Seq<char>>,
}

impl View for Turn {
    type V = TurnView;

    open spec fn view(&self) -> TurnView {
        TurnView {
            role: self.role,
            text: match self.text {
                Some(t) => Some(t@),
                None => None,
            },
            tool_requests: self.tool_requests@.map_values(|r: ToolRequest| r@),
            tool_result_id: match self.tool_result_id {
                Some(i) => Some(i@),
                None => None,
            },
        }
    }
}

/// The model of a user turn holding `text`.
pub open spec fn user_turn(text: Seq<char>) -> TurnView {
    TurnView { role: Role::User, text: Some(text), tool_requests: Seq::empty(), tool_result_id: None }
}

/// The model of a system turn holding `text`.
pub open spec fn system_turn(text: Seq<char>) -> TurnView {
    TurnView { role: Role::System, text: Some(text), tool_requests: Seq::empty(), tool_result_id: None }
}

/// The model of an assistant turn with optional text and its tool requests.
pub open spec fn assistant_turn(text: Option<Seq<char>>, requests: Seq<ToolRequestView>) -> TurnView {
    TurnView { role: Role::Assistant, text: text, tool_requests: requests, tool_result_id: None }
}

/// The model of a tool turn answering the request named `id` with `text`.
pub open spec fn tool_turn(text: Seq<char>, id: Seq<char>) -> TurnView {
    TurnView { role: Role::Tool, text: Some(text), tool_requests: Seq::empty(), tool_result_id: Some(id) }
}

impl ToolRequest {
    /// A copy of this request that models as the same value.
    pub fn duplicate(&self) -> (r: ToolRequest)
        ensures
            r@ == self@,
    {
        ToolRequest {
            id: self.id.clone(),
            tool_name: self.tool_name.clone(),
            arguments: self.arguments.clone(),
        }
    }
}

/// Copies of the given requests that model as the same values.
pub fn duplicate_requests(requests: &Vec<ToolRequest>) -> (r: Vec<ToolRequest>)
    ensures
        r@.map_values(|x: ToolRequest| x@) == requests@.map_values(|x: ToolRequest| x@),
{
    let mut r: Vec<ToolRequest> = Vec::new();
    let mut i: usize = 0;
    while i < requests.len()
        invariant
            i <= requests.len(),
            r@.len() == i as nat,
            forall|j: int| 0 <= j < i ==> r@[j]@ == requests@[j]@,
        decreases requests.len() - i,
    {
        r.push(requests[i].duplicate());
        i = i + 1;
    }
    proof {
        assert(r@.map_values(|x: ToolRequest| x@) =~= requests@.map_values(
            |x: ToolRequest| x@,
        ));
    }
    r
}

impl Turn {
    /// A fresh user turn holding `content`.
    pub fn user(content: &str) -> (t: Turn)
        ensures
            t@ == user_turn(content@),
    {
        let t = Turn {
            role: Role::User,
            text: Some(content.to_owned()),
            tool_requests: Vec::new(),
            tool_result_id: None,
        };
        proof {
            assert(t@ =~= user_turn(content@));
        }
        t
    }

    /// A fresh system turn holding `content`.
    pub fn system(content: &str) -> (t: Turn)
        ensures
            t@ == system_turn(content@),
    {
        let t = Turn {
            role: Role::System,
            text: Some(content.to_owned()),
            tool_requests: Vec::new(),
            tool_result_id: None,
        };
        proof {
            assert(t@ =~= system_turn(content@));
        }
        t
    }

    /// A fresh assistant turn with optional text and its tool requests.
    pub fn assistant(text: Option<String>, requests: Vec<ToolRequest>) -> (t: Turn)
        ensures
            t@ == assistant_turn(
                match text {
                    Some(s) => Some(s@),
                    None => None,
                },
                requests@.map_values(|r: ToolRequest| r@),
            ),
    {
        Turn { role: Role::Assistant, text: text, tool_requests: requests, tool_result_id: None }
    }

    /// A fresh tool turn answering the request named `id` with `content`.
    pub fn tool(content: &str, id: &str) -> (t: Turn)
        ensures
            t@ == tool_turn(content@, id@),
    {
        let t = Turn {
            role: Role::Tool,
            text: Some(content.to_owned()),
            tool_requests: Vec::new(),
            tool_result_id: Some(id.to_owned()),
        };
        proof {
            assert(t@ =~= tool_turn(content@, id@));
        }
        t
    }

    /// A copy of this turn that models as the same value.
    pub fn duplicate(&self) -> (r: Turn)
        ensures
            r@ == self@,
    {
        let requests = duplicate_requests(&self.tool_requests);
        let text = match &self.text {
            Some(t) => Some(t.clone()),
            None => None,
        };
        let tool_result_id = match &self.tool_result_id {
            Some(t) => Some(t.clone()),
            None => None,
        };
        let r = Turn { role: self.role, text: text, tool_requests: requests, tool_result_id: tool_result_id };
        proof {
            assert(r@.tool_requests =~= self@.tool_requests);
            assert(r@ =~= self@);
        }
        r
    }
}

} // verus!
