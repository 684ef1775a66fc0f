//! The tool registry: the two fixed tool declarations sent with every
//! completion call, and the verified decisions of the tool executor —
//! which outside action a tool request calls for, and the fixed texts used
//! when a tool cannot run or fails.

use vstd::prelude::*;

use crate::json::{json_of, json_parse, spec_get, JsonView};
use crate::text::str_eq;
use crate::turn::{ToolRequest, ToolRequestView};

verus! {

/// One callable tool, as declared to the model: a name, a description, and
/// the JSON text of its parameter schema. Declarations are fixed for the
/// process lifetime.
pub struct ToolDeclaration {
    pub name: String,
    pub description: String,
    pub parameter_schema: String,
}

/// Mathematical model of a `ToolDeclaration`.
#[verifier::ext_equal]
pub ghost struct ToolDeclarationView {
    pub name: Seq<char>,
    pub description: Seq<char>,
    pub parameter_schema: Seq<char>,
}

impl View for ToolDeclaration {
    type V = ToolDeclarationView;

    open spec fn view(&self) -> ToolDeclarationView {
        ToolDeclarationView {
            name: self.name@,
            description: self.description@,
            parameter_schema: self.parameter_schema@,
        }
    }
}

/// The declaration of the web-search tool.
pub open spec fn spec_search_declaration() -> ToolDeclarationView {
    ToolDeclarationView {
        name: "brave_search"@,
        description: "Search the web for up-to-date information, news, current events, and general knowledge. Use this for questions that require real-time data or when you need to verify facts."@,
        parameter_schema: "{\"type\":\"object\",\"properties\":{\"query\":{\"type\":\"string\",\"description\":\"The search query to look up on the web.\"}},\"required\":[\"query\"]}"@,
    }
}

/// The declaration of the open-URL tool.
pub open spec fn spec_open_declaration() -> ToolDeclarationView {
    ToolDeclarationView {
        name: "open"@,
        description: "Open a URL to read its content."@,
        parameter_schema: "{\"type\":\"object\",\"properties\":{\"id\":{\"type\":\"string\",\"description\":\"The URL or ID of the resource to open.\"}},\"required\":[\"id\"]}"@,
    }
}

/// The fixed set of tool declarations sent with every completion call.
pub fn tool_declarations() -> (ds: Vec<ToolDeclaration>)
    ensures
        ds@.len() == 2,
        ds@[0]@ == spec_search_declaration(),
        ds@[1]@ == spec_open_declaration(),
{
    let mut ds: Vec<ToolDeclaration> = Vec::new();
    let search = ToolDeclaration {
        name: String::from_str("brave_search"),
        description: String::from_str(
            "Search the web for up-to-date information, news, current events, and general knowledge. Use this for questions that require real-time data or when you need to verify facts.",
        ),
        parameter_schema: String::from_str(
            "{\"type\":\"object\",\"properties\":{\"query\":{\"type\":\"string\",\"description\":\"The search query to look up on the web.\"}},\"required\":[\"query\"]}",
        ),
    };
    proof {
        assert(search@ =~= spec_search_declaration());
    }
    let open_url = ToolDeclaration {
        name: String::from_str("open"),
        description: String::from_str("Open a URL to read its content."),
        parameter_schema: String::from_str(
            "{\"type\":\"object\",\"properties\":{\"id\":{\"type\":\"string\",\"description\":\"The URL or ID of the resource to open.\"}},\"required\":[\"id\"]}",
        ),
    };
    proof {
        assert(open_url@ =~= spec_open_declaration());
    }
    ds.push(search);
    ds.push(open_url);
    ds
}

/// How the open-URL tool is carried out: by really fetching the page, or by
/// degrading to a web search about the given string.
#[derive(Clone, Copy, PartialEq, Eq, Structural, Debug)]
pub enum OpenStrategy {
    FetchPage,
    SearchFallback,
}

/// What the executor does with one tool request.
pub enum ToolAction {
    /// Run a web search for `query` against the search provider.
    Search { query: String },
    /// Fetch the page at `url`.
    Fetch { url: String },
    /// Do not call anything; answer the request with this failure text.
    Reject { message: String },
}

/// Mathematical model of a `ToolAction`.
pub ghost enum ToolActionView {
    Search(Seq<char>),
    Fetch(Seq<char>),
    Reject(Seq<char>),
}

impl View for ToolAction {
    type V = ToolActionView;

    open spec fn view(&self) -> ToolActionView {
        match self {
            ToolAction::Search { query } => ToolActionView::Search(query@),
            ToolAction::Fetch { url } => ToolActionView::Fetch(url@),
            ToolAction::Reject { message } => ToolActionView::Reject(message@),
        }
    }
}

/// The tool-turn text when a request's arguments cannot be decoded.
pub open spec fn spec_arg_error_text() -> Seq<char> {
    "Error: The tool arguments could not be decoded. Please retry with corrected arguments."@
}

/// The tool-turn text when a request names a tool that is not registered.
pub open spec fn spec_unknown_tool_text() -> Seq<char> {
    "Error: Unknown tool. Only brave_search and open are available."@
}

/// The tool-turn text when the outside call behind `name` fails.
pub open spec fn spec_failure_text(name: Seq<char>) -> Seq<char> {
    if name == "open"@ {
        "Error: Failed to read page content. Please try searching instead."@
    } else {
        "Error: Search failed. Please answer without search."@
    }
}

/// The fixed human-readable failure text for the tool called `name`.
pub fn failure_text(name: &str) -> (r: &'static str)
    ensures
        r@ == spec_failure_text(name@),
{
    if str_eq(name, "open") {
        "Error: Failed to read page content. Please try searching instead."
    } else {
        "Error: Search failed. Please answer without search."
    }
}

/// The action taken for the tool called `name`, given what decoding its
/// arguments yielded (`None` when the argument payload was not decodable).
pub open spec fn spec_action_for(
    name: Seq<char>,
    strategy: OpenStrategy,
    parsed: Option<Seq<char>>,
) -> ToolActionView {
    if name == "brave_search"@ {
        match parsed {
            Some(q) => ToolActionView::Search(q),
            None => ToolActionView::Reject(spec_arg_error_text()),
        }
    } else if name == "open"@ {
        match parsed {
            Some(q) => if strategy is FetchPage {
                ToolActionView::Fetch(q)
            } else {
                ToolActionView::Search(q)
            },
            None => ToolActionView::Reject(spec_arg_error_text()),
        }
    } else {
        ToolActionView::Reject(spec_unknown_tool_text())
    }
}

/// Decide the action for the tool called `name` from the decoded arguments;
/// exactly as `spec_action_for` describes.
pub fn action_for(name: &str, strategy: OpenStrategy, parsed: Option<String>) -> (a: ToolAction)
    ensures
        a@ == spec_action_for(
            name@,
            strategy,
            match parsed {
                Some(q) => Some(q@),
                None => None,
            },
        ),
{
    if str_eq(name, "brave_search") {
        match parsed {
            Some(q) => ToolAction::Search { query: q },
            None => ToolAction::Reject { message: String::from_str(
                "Error: The tool arguments could not be decoded. Please retry with corrected arguments.",
            ) },
        }
    } else if str_eq(name, "open") {
        match parsed {
            Some(q) => {
                match strategy {
                    OpenStrategy::FetchPage => ToolAction::Fetch { url: q },
                    OpenStrategy::SearchFallback => ToolAction::Search { query: q },
                }
            },
            None => ToolAction::Reject { message: String::from_str(
                "Error: The tool arguments could not be decoded. Please retry with corrected arguments.",
            ) },
        }
    } else {
        ToolAction::Reject { message: String::from_str(
            "Error: Unknown tool. Only brave_search and open are available.",
        ) }
    }
}

/// The string under `key` in the object `doc`, with the empty string for
/// a missing or non-string field.
pub open spec fn spec_string_field_or_empty(doc: JsonView, key: Seq<char>) -> Seq<char> {
    match spec_get(doc, key) {
        Some(JsonView::Str(s)) => s,
        _ => Seq::empty(),
    }
}

/// What decoding the web-search tool's argument payload yields: nothing
/// when the payload is not a JSON document, else the `query` field, with
/// an empty query for a missing or non-string field.
pub open spec fn spec_search_query(arguments: Seq<char>) -> Option<Seq<char>> {
    match json_of(arguments) {
        None => None,
        Some(doc) => Some(spec_string_field_or_empty(doc, "query"@)),
    }
}

/// What decoding the open-URL tool's argument payload yields: nothing
/// when the payload is not a JSON document, else the `id` field, or
/// failing that the `url` field, with an empty string as the fallback.
pub open spec fn spec_open_target(arguments: Seq<char>) -> Option<Seq<char>> {
    match json_of(arguments) {
        None => None,
        Some(doc) => Some(
            match spec_get(doc, "id"@) {
                Some(f) => match f {
                    JsonView::Str(s) => s,
                    _ => Seq::empty(),
                },
                None => spec_string_field_or_empty(doc, "url"@),
            },
        ),
    }
}

/// Decode the web-search tool's argument payload, exactly as
/// `spec_search_query` describes.
pub fn parse_search_arguments(arguments: &str) -> (q: Option<String>)
    ensures
        (match q {
            Some(s) => Some(s@),
            None => None::<Seq<char>>,
        }) == spec_search_query(arguments@),
{
    let doc = match json_parse(arguments) {
        Some(d) => d,
        None => {
            return None;
        },
    };
    match doc.get("query") {
        Some(qv) => {
            match qv.as_string() {
                Some(s) => Some(s),
                None => Some(String::new()),
            }
        },
        None => Some(String::new()),
    }
}

/// Decode the open-URL tool's argument payload, exactly as
/// `spec_open_target` describes.
pub fn parse_open_arguments(arguments: &str) -> (q: Option<String>)
    ensures
        (match q {
            Some(s) => Some(s@),
            None => None::<Seq<char>>,
        }) == spec_open_target(arguments@),
{
    let doc = match json_parse(arguments) {
        Some(d) => d,
        None => {
            return None;
        },
    };
    let field = match doc.get("id") {
        Some(f) => Some(f),
        None => doc.get("url"),
    };
    match field {
        Some(fv) => {
            match fv.as_string() {
                Some(s) => Some(s),
                None => Some(String::new()),
            }
        },
        None => Some(String::new()),
    }
}

/// The action taken for one tool request: its arguments decoded with the
/// decoder its tool calls for, then mapped as `spec_action_for` describes.
pub open spec fn spec_tool_action(req: ToolRequestView, strategy: OpenStrategy) -> ToolActionView {
    if req.tool_name == "brave_search"@ {
        spec_action_for(req.tool_name, strategy, spec_search_query(req.arguments))
    } else if req.tool_name == "open"@ {
        spec_action_for(req.tool_name, strategy, spec_open_target(req.arguments))
    } else {
        spec_action_for(req.tool_name, strategy, None)
    }
}

/// Decide the action for one tool request, exactly as `spec_tool_action`
/// describes. Decoding failures are never escalated: they become a
/// rejection whose text explains the failure.
pub fn tool_action(req: &ToolRequest, strategy: OpenStrategy) -> (a: ToolAction)
    ensures
        a@ == spec_tool_action(req@, strategy),
{
    if str_eq(req.tool_name.as_str(), "brave_search") {
        let parsed = parse_search_arguments(req.arguments.as_str());
        let ghost p = match &parsed {
            Some(q) => Some(q@),
            None => None,
        };
        let a = action_for(req.tool_name.as_str(), strategy, parsed);
        proof {
            assert(a@ == spec_action_for(req@.tool_name, strategy, p));
        }
        a
    } else if str_eq(req.tool_name.as_str(), "open") {
        let parsed = parse_open_arguments(req.arguments.as_str());
        let ghost p = match &parsed {
            Some(q) => Some(q@),
            None => None,
        };
        let a = action_for(req.tool_name.as_str(), strategy, parsed);
        proof {
            assert(a@ == spec_action_for(req@.tool_name, strategy, p));
        }
        a
    } else {
        let a = action_for(req.tool_name.as_str(), strategy, None);
        proof {
            assert(a@ == spec_action_for(req@.tool_name, strategy, None::<Seq<char>>));
        }
        a
    }
}

} // verus!
