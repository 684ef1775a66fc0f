use rusty_chat::transport::{
    call_mode, decode_completion_body, normalize_reply, parse_stream_line, system_prompt,
    wire_turns, Mode, Reply, RetryDecision, RetryState, StreamAccumulator, StreamEvent,
    TransportError,
};
use rusty_chat::turn::{Role, Turn};
use rusty_chat::{BACKOFF_SECONDS, MAX_RETRIES};

#[test]
fn decode_plain_text_reply() {
    let body = "{\"choices\":[{\"message\":{\"role\":\"assistant\",\"content\":\"Hello there\"}}]}";
    let reply = decode_completion_body(body).unwrap();
    assert_eq!(reply.text.as_deref(), Some("Hello there"));
    assert!(reply.tool_requests.is_empty());
}

#[test]
fn decode_tool_call_reply() {
    let body = "{\"choices\":[{\"message\":{\"role\":\"assistant\",\"content\":null,\"tool_calls\":[{\"id\":\"call_1\",\"type\":\"function\",\"function\":{\"name\":\"brave_search\",\"arguments\":\"{\\\"query\\\":\\\"rust\\\"}\"}}]}}]}";
    let reply = decode_completion_body(body).unwrap();
    assert!(reply.text.is_none());
    assert_eq!(reply.tool_requests.len(), 1);
    assert_eq!(reply.tool_requests[0].id, "call_1");
    assert_eq!(reply.tool_requests[0].tool_name, "brave_search");
    assert_eq!(reply.tool_requests[0].arguments, "{\"query\":\"rust\"}");
}

#[test]
fn decode_empty_choices_is_empty_text() {
    let reply = decode_completion_body("{\"choices\":[]}").unwrap();
    assert_eq!(reply.text.as_deref(), Some(""));
    assert!(reply.tool_requests.is_empty());
}

#[test]
fn decode_malformed_bodies() {
    assert!(matches!(
        decode_completion_body("not json at all"),
        Err(TransportError::MalformedBody)
    ));
    assert!(matches!(decode_completion_body("{}"), Err(TransportError::MalformedBody)));
    assert!(matches!(
        decode_completion_body("{\"choices\":[{\"nope\":1}]}"),
        Err(TransportError::MalformedBody)
    ));
    assert!(matches!(
        decode_completion_body("{\"choices\":[{\"message\":{\"content\":\"x\"}}]}"),
        Err(TransportError::MalformedBody)
    ));
    assert!(matches!(
        decode_completion_body(
            "{\"choices\":[{\"message\":{\"role\":\"assistant\",\"tool_calls\":[{\"id\":\"a\"}]}}]}"
        ),
        Err(TransportError::MalformedBody)
    ));
}

#[test]
fn decode_null_tool_calls_means_none() {
    let body = "{\"choices\":[{\"message\":{\"role\":\"assistant\",\"content\":\"hi\",\"tool_calls\":null}}]}";
    let reply = decode_completion_body(body).unwrap();
    assert_eq!(reply.text.as_deref(), Some("hi"));
    assert!(reply.tool_requests.is_empty());
}

#[test]
fn normalize_fills_empty_text() {
    let n = normalize_reply(Reply { text: None, tool_requests: Vec::new() });
    assert_eq!(n.text.as_deref(), Some(""));
    let kept = normalize_reply(Reply { text: Some("x".to_string()), tool_requests: Vec::new() });
    assert_eq!(kept.text.as_deref(), Some("x"));
}

#[test]
fn retry_budget_two_waits_between_retries_then_fatal() {
    assert_eq!(MAX_RETRIES, 3);
    assert_eq!(BACKOFF_SECONDS, 2);
    let mut state = RetryState::new();
    let mut backoffs = 0;
    loop {
        match state.on_rate_limit() {
            RetryDecision::Backoff { seconds } => {
                assert_eq!(seconds, 2);
                backoffs += 1;
                assert!(backoffs <= 3);
            }
            RetryDecision::Fatal => break,
        }
    }
    assert_eq!(backoffs, 3);
    // Once spent, the budget stays spent.
    assert_eq!(state.on_rate_limit(), RetryDecision::Fatal);
    assert!(TransportError::RetriesExhausted.is_fatal());
    assert!(TransportError::MalformedBody.is_fatal());
    assert!(!TransportError::Connectivity.is_fatal());
}

#[test]
fn wire_turns_injects_system_turn() {
    let stored = vec![Turn::user("question"), Turn::assistant(Some("answer".to_string()), Vec::new())];
    let wire = wire_turns(&stored);
    assert_eq!(wire.len(), 3);
    assert!(matches!(wire[0].role, Role::System));
    assert_eq!(wire[0].text.as_deref(), Some(system_prompt()));
    assert!(matches!(wire[1].role, Role::User));
    assert_eq!(wire[1].text.as_deref(), Some("question"));
    assert_eq!(wire[2].text.as_deref(), Some("answer"));
    // The stored log itself is untouched.
    assert_eq!(stored.len(), 2);
}

#[test]
fn stream_frames() {
    assert!(matches!(parse_stream_line("data: [DONE]"), StreamEvent::Done));
    assert!(matches!(parse_stream_line("event: ping"), StreamEvent::Skip));
    assert!(matches!(parse_stream_line(""), StreamEvent::Skip));
    assert!(matches!(parse_stream_line("data: this is not json"), StreamEvent::Skip));
    assert!(matches!(parse_stream_line("data: {\"choices\":[]}"), StreamEvent::Skip));
    match parse_stream_line("data: {\"choices\":[{\"delta\":{\"content\":\"Hel\"}}]}") {
        StreamEvent::Fragment(text) => assert_eq!(text, "Hel"),
        _ => panic!("expected a fragment"),
    }
    match parse_stream_line("data: {\"choices\":[{\"delta\":{}}]}") {
        StreamEvent::Skip => {}
        _ => panic!("a delta without content yields no fragment"),
    }
}

#[test]
fn stream_accumulates_in_order() {
    let mut acc = StreamAccumulator::new();
    acc.push_fragment("Hel");
    acc.push_fragment("lo ");
    acc.push_fragment("world");
    let reply = acc.into_reply();
    assert_eq!(reply.text.as_deref(), Some("Hello world"));
    assert!(reply.tool_requests.is_empty());
}

#[test]
fn mode_choice_is_buffered_when_tools_are_possible() {
    assert_eq!(call_mode(true, true), Mode::Buffered);
    assert_eq!(call_mode(true, false), Mode::Buffered);
    assert_eq!(call_mode(false, true), Mode::Streamed);
    assert_eq!(call_mode(false, false), Mode::Buffered);
}
