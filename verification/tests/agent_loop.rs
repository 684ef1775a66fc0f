use rusty_chat::agent::{Agent, ToolOutcome};
use rusty_chat::tools::OpenStrategy;
use rusty_chat::transport::Reply;
use rusty_chat::turn::{Role, ToolRequest};

fn text_reply(text: &str) -> Reply {
    Reply { text: Some(text.to_string()), tool_requests: Vec::new() }
}

fn tool_reply(requests: Vec<ToolRequest>) -> Reply {
    Reply { text: None, tool_requests: requests }
}

fn request(id: &str, tool: &str, arguments: &str) -> ToolRequest {
    ToolRequest {
        id: id.to_string(),
        tool_name: tool.to_string(),
        arguments: arguments.to_string(),
    }
}

#[test]
fn simple_exchanges_alternate() {
    let mut agent = Agent::new(OpenStrategy::SearchFallback, None);
    agent.submit_user("first question");
    let emitted = agent.on_reply(text_reply("first answer"));
    assert_eq!(emitted.as_deref(), Some("first answer"));
    agent.submit_user("second question");
    let emitted = agent.on_reply(text_reply("second answer"));
    assert_eq!(emitted.as_deref(), Some("second answer"));

    let conv = agent.conversation();
    assert_eq!(conv.len(), 4);
    assert!(matches!(conv.get(0).role, Role::User));
    assert!(matches!(conv.get(1).role, Role::Assistant));
    assert!(matches!(conv.get(2).role, Role::User));
    assert!(matches!(conv.get(3).role, Role::Assistant));
    assert_eq!(conv.get(0).text.as_deref(), Some("first question"));
    assert_eq!(conv.get(1).text.as_deref(), Some("first answer"));
    assert_eq!(conv.get(2).text.as_deref(), Some("second question"));
    assert_eq!(conv.get(3).text.as_deref(), Some("second answer"));
}

#[test]
fn tool_block_per_request() {
    let mut agent = Agent::new(OpenStrategy::SearchFallback, None);
    agent.submit_user("look two things up");
    let emitted = agent.on_reply(tool_reply(vec![
        request("call_a", "brave_search", "{\"query\":\"alpha\"}"),
        request("call_b", "brave_search", "{\"query\":\"beta\"}"),
    ]));
    assert!(emitted.is_none());
    agent.resolve_tool(ToolOutcome::FetchFailed);
    agent.resolve_tool(ToolOutcome::FetchFailed);

    let conv = agent.conversation();
    assert_eq!(conv.len(), 4);
    assert!(matches!(conv.get(1).role, Role::Assistant));
    assert_eq!(conv.get(1).tool_requests.len(), 2);
    assert!(matches!(conv.get(2).role, Role::Tool));
    assert!(matches!(conv.get(3).role, Role::Tool));
    assert_eq!(conv.get(2).tool_result_id.as_deref(), Some("call_a"));
    assert_eq!(conv.get(3).tool_result_id.as_deref(), Some("call_b"));
}

#[test]
fn failed_call_rolls_back_user_turn() {
    let mut agent = Agent::new(OpenStrategy::SearchFallback, None);
    agent.submit_user("hello");
    let emitted = agent.on_reply(text_reply("hi"));
    assert_eq!(emitted.as_deref(), Some("hi"));
    assert_eq!(agent.conversation().len(), 2);

    agent.submit_user("doomed message");
    assert_eq!(agent.conversation().len(), 3);
    agent.on_model_failure();
    let conv = agent.conversation();
    assert_eq!(conv.len(), 2);
    assert_eq!(conv.get(0).text.as_deref(), Some("hello"));
    assert_eq!(conv.get(1).text.as_deref(), Some("hi"));
}

#[test]
fn failed_call_after_tools_keeps_log() {
    let mut agent = Agent::new(OpenStrategy::SearchFallback, None);
    agent.submit_user("search something");
    agent.on_reply(tool_reply(vec![request(
        "call_1",
        "brave_search",
        "{\"query\":\"x\"}",
    )]));
    agent.resolve_tool(ToolOutcome::FetchFailed);
    assert_eq!(agent.conversation().len(), 3);
    agent.on_model_failure();
    assert_eq!(agent.conversation().len(), 3);
}

#[test]
fn toggle_twice_and_clear_empty() {
    let mut agent = Agent::new(OpenStrategy::SearchFallback, None);
    let before = agent.is_stream_mode();
    agent.toggle_stream_mode();
    assert_eq!(agent.is_stream_mode(), !before);
    agent.toggle_stream_mode();
    assert_eq!(agent.is_stream_mode(), before);

    assert_eq!(agent.conversation().len(), 0);
    agent.clear_conversation();
    assert_eq!(agent.conversation().len(), 0);
    agent.clear_conversation();
    assert_eq!(agent.conversation().len(), 0);
}

#[test]
fn hello_search_scenario() {
    let mut agent = Agent::new(OpenStrategy::SearchFallback, None);
    agent.submit_user("hello");
    let emitted = agent.on_reply(tool_reply(vec![request(
        "call_1",
        "brave_search",
        "{\"query\":\"weather today\"}",
    )]));
    assert!(emitted.is_none());

    let body = "{\"web\":{\"results\":[{\"title\":\"Weather\",\"description\":\"Sunny\",\"url\":\"https://example.com/w\"}]}}";
    agent.resolve_tool(ToolOutcome::Fetched { body: body.to_string() });

    let conv = agent.conversation();
    assert_eq!(conv.len(), 3);
    assert!(matches!(conv.get(0).role, Role::User));
    assert_eq!(conv.get(0).text.as_deref(), Some("hello"));
    assert!(matches!(conv.get(1).role, Role::Assistant));
    assert_eq!(conv.get(1).tool_requests.len(), 1);
    assert_eq!(conv.get(1).tool_requests[0].id, "call_1");
    let tool_turn = conv.get(2);
    assert!(matches!(tool_turn.role, Role::Tool));
    assert_eq!(tool_turn.tool_result_id.as_deref(), Some("call_1"));
    assert!(tool_turn.text.as_deref().unwrap().starts_with("### Brave Search Results"));
}

#[test]
fn open_degrades_to_search_and_arg_errors_become_tool_turns() {
    let mut agent = Agent::new(OpenStrategy::SearchFallback, None);
    agent.submit_user("open something");
    agent.on_reply(tool_reply(vec![
        request("c1", "open", "{\"id\":\"https://example.com\"}"),
        request("c2", "brave_search", "this is not json"),
        request("c3", "made_up_tool", "{}"),
    ]));
    // The open request degrades to a search; hand it a working body.
    agent.resolve_tool(ToolOutcome::Fetched {
        body: "{\"web\":{\"results\":[]}}".to_string(),
    });
    // The malformed-argument and unknown-tool requests ask for no call.
    agent.resolve_tool(ToolOutcome::NotRun);
    agent.resolve_tool(ToolOutcome::NotRun);

    let conv = agent.conversation();
    assert_eq!(conv.len(), 5);
    assert!(conv.get(2).text.as_deref().unwrap().starts_with("### Brave Search Results"));
    assert!(conv.get(3).text.as_deref().unwrap().contains("could not be decoded"));
    assert!(conv.get(4).text.as_deref().unwrap().contains("Unknown tool"));
    for i in 2..5 {
        assert!(matches!(conv.get(i).role, Role::Tool));
        assert!(!conv.get(i).text.as_deref().unwrap().is_empty());
    }
}

#[test]
fn tool_failure_message_depends_on_tool() {
    let mut agent = Agent::new(OpenStrategy::SearchFallback, None);
    agent.submit_user("try both");
    agent.on_reply(tool_reply(vec![
        request("c1", "brave_search", "{\"query\":\"q\"}"),
        request("c2", "open", "{\"id\":\"u\"}"),
    ]));
    agent.resolve_tool(ToolOutcome::FetchFailed);
    agent.resolve_tool(ToolOutcome::FetchFailed);
    let conv = agent.conversation();
    assert_eq!(
        conv.get(2).text.as_deref(),
        Some("Error: Search failed. Please answer without search.")
    );
    assert_eq!(
        conv.get(3).text.as_deref(),
        Some("Error: Failed to read page content. Please try searching instead.")
    );
}

#[test]
fn round_cap_fails_closed() {
    let mut agent = Agent::new(OpenStrategy::SearchFallback, Some(1));
    agent.submit_user("loop forever");
    // First round: allowed.
    let emitted = agent.on_reply(tool_reply(vec![request(
        "c1",
        "brave_search",
        "{\"query\":\"q\"}",
    )]));
    assert!(emitted.is_none());
    agent.resolve_tool(ToolOutcome::FetchFailed);
    // Second round: over the cap; every request is answered at once and the
    // turn ends with a best-effort text.
    let emitted = agent.on_reply(tool_reply(vec![request(
        "c2",
        "brave_search",
        "{\"query\":\"q\"}",
    )]));
    assert!(emitted.is_some());
    let conv = agent.conversation();
    assert_eq!(conv.len(), 5);
    assert!(matches!(conv.get(4).role, Role::Tool));
    assert_eq!(conv.get(4).tool_result_id.as_deref(), Some("c2"));
    assert!(conv.get(4).text.as_deref().unwrap().contains("tool round limit"));
    // The session goes on normally.
    agent.submit_user("still here");
    let emitted = agent.on_reply(text_reply("yes"));
    assert_eq!(emitted.as_deref(), Some("yes"));
}

#[test]
fn reply_with_no_text_and_no_tools_is_normalized() {
    let mut agent = Agent::new(OpenStrategy::SearchFallback, None);
    agent.submit_user("say nothing");
    let emitted = agent.on_reply(Reply { text: None, tool_requests: Vec::new() });
    assert_eq!(emitted.as_deref(), Some(""));
    let conv = agent.conversation();
    assert_eq!(conv.len(), 2);
    assert_eq!(conv.get(1).text.as_deref(), Some(""));
}
