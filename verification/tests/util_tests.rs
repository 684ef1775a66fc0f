use rusty_chat::command::{parse_command, Command};
use rusty_chat::env_file::{env_line, render_env_content, upsert_env_line};
use rusty_chat::models::{model_count, model_name, parse_model_choice, ModelManager};
use rusty_chat::phrases::{goodbye_phrase, random_goodbye, random_thinking_word, thinking_word};
use rusty_chat::text::{pad, spaces, str_eq, str_starts_with};
use rusty_chat::tools::{
    action_for, failure_text, parse_open_arguments, parse_search_arguments, tool_action,
    tool_declarations, OpenStrategy, ToolAction,
};
use rusty_chat::turn::ToolRequest;

#[test]
fn command_tokens() {
    assert!(matches!(parse_command("/quit"), Command::Quit));
    assert!(matches!(parse_command("/exit"), Command::Quit));
    assert!(matches!(parse_command("/stream"), Command::Stream));
    assert!(matches!(parse_command("/clear"), Command::Clear));
    assert!(matches!(parse_command("/model"), Command::Model));
    assert!(matches!(parse_command("/help"), Command::Help));
    assert!(matches!(parse_command("/"), Command::Help));
    assert!(matches!(parse_command("?"), Command::Help));
    match parse_command("what is rust") {
        Command::Message(text) => assert_eq!(text, "what is rust"),
        _ => panic!("free text is a message"),
    }
    match parse_command("/unknown") {
        Command::Message(text) => assert_eq!(text, "/unknown"),
        _ => panic!("unrecognized tokens are messages"),
    }
}

#[test]
fn env_lines_are_upserted() {
    let lines = vec!["A=1".to_string(), "GROQ_API_KEY=old".to_string(), "B=2".to_string()];
    let updated = upsert_env_line(&lines, "GROQ_API_KEY", "new");
    assert_eq!(updated, vec!["A=1", "GROQ_API_KEY=new", "B=2"]);

    let appended = upsert_env_line(&lines, "BRAVE_API_KEY", "fresh");
    assert_eq!(appended, vec!["A=1", "GROQ_API_KEY=old", "B=2", "BRAVE_API_KEY=fresh"]);

    assert_eq!(env_line("K", "v"), "K=v");
}

#[test]
fn env_content_gets_trailing_newline() {
    let lines = vec!["A=1".to_string(), "B=2".to_string()];
    assert_eq!(render_env_content(&lines), "A=1\nB=2\n");
    let empty: Vec<String> = Vec::new();
    assert_eq!(render_env_content(&empty), "");
    let with_newline = vec!["A=1".to_string(), "".to_string()];
    assert_eq!(render_env_content(&with_newline), "A=1\n");
}

#[test]
fn model_selection() {
    assert_eq!(model_count(), 3);
    assert_eq!(model_name(0), "openai/gpt-oss-120b");
    assert_eq!(parse_model_choice(""), (0, true));
    assert_eq!(parse_model_choice("1"), (0, true));
    assert_eq!(parse_model_choice("2"), (1, true));
    assert_eq!(parse_model_choice("3"), (2, true));
    assert_eq!(parse_model_choice("7"), (0, false));
    assert_eq!(parse_model_choice("banana"), (0, false));

    let mut manager = ModelManager::new();
    assert_eq!(manager.get_current_model(), model_name(0));
    assert!(manager.select("2"));
    assert_eq!(manager.get_current_model(), model_name(1));
    assert!(!manager.select("nope"));
    assert_eq!(manager.get_current_model(), model_name(0));
}

#[test]
fn padding() {
    assert_eq!(pad("abc", 6, false), "abc   ");
    assert_eq!(pad("abc", 6, true), " abc  ");
    assert_eq!(pad("abcdef", 4, false), "abcd");
    assert_eq!(pad("abcdef", 4, true), "abcd");
    assert_eq!(pad("", 3, true), "   ");
    assert_eq!(spaces(4), "    ");
    assert_eq!(pad("ab", 2, true), "ab");
}

#[test]
fn string_helpers() {
    assert!(str_eq("same", "same"));
    assert!(!str_eq("same", "sane"));
    assert!(!str_eq("short", "shorter"));
    assert!(str_starts_with("data: payload", "data: "));
    assert!(!str_starts_with("data", "data: "));
    assert!(str_starts_with("anything", ""));
}

#[test]
fn phrase_lists() {
    let goodbyes: Vec<&str> = (0..8).map(|i: usize| goodbye_phrase(i)).collect();
    assert_eq!(goodbyes[0], "Catch you on the flip side!");
    assert_eq!(goodbyes[7], "Until next time!");
    for _ in 0..20 {
        assert!(goodbyes.contains(&random_goodbye()));
    }
    let words: Vec<&str> = (0..11).map(|i: usize| thinking_word(i)).collect();
    assert_eq!(words[0], "Simmering");
    assert_eq!(words[10], "Razzmatazzing");
    for _ in 0..20 {
        assert!(words.contains(&random_thinking_word()));
    }
}

#[test]
fn declarations_are_fixed() {
    let declarations = tool_declarations();
    assert_eq!(declarations.len(), 2);
    assert_eq!(declarations[0].name, "brave_search");
    assert_eq!(declarations[1].name, "open");
    assert!(declarations[0].parameter_schema.contains("\"query\""));
    assert!(declarations[1].parameter_schema.contains("\"id\""));
    // The schema text is itself valid JSON.
    assert!(serde_json::from_str::<serde_json::Value>(&declarations[0].parameter_schema).is_ok());
    assert!(serde_json::from_str::<serde_json::Value>(&declarations[1].parameter_schema).is_ok());
}

#[test]
fn tool_argument_decoding() {
    assert_eq!(
        parse_search_arguments("{\"query\":\"weather\"}").as_deref(),
        Some("weather")
    );
    assert_eq!(parse_search_arguments("{}").as_deref(), Some(""));
    assert!(parse_search_arguments("not json").is_none());
    assert_eq!(
        parse_open_arguments("{\"id\":\"https://a\"}").as_deref(),
        Some("https://a")
    );
    assert_eq!(
        parse_open_arguments("{\"url\":\"https://b\"}").as_deref(),
        Some("https://b")
    );
    assert_eq!(parse_open_arguments("{}").as_deref(), Some(""));
    assert!(parse_open_arguments("{oops").is_none());
}

#[test]
fn actions_for_tools() {
    match action_for("brave_search", OpenStrategy::SearchFallback, Some("q".to_string())) {
        ToolAction::Search { query } => assert_eq!(query, "q"),
        _ => panic!("search tool searches"),
    }
    match action_for("open", OpenStrategy::SearchFallback, Some("u".to_string())) {
        ToolAction::Search { query } => assert_eq!(query, "u"),
        _ => panic!("open degrades to search under the fallback strategy"),
    }
    match action_for("open", OpenStrategy::FetchPage, Some("u".to_string())) {
        ToolAction::Fetch { url } => assert_eq!(url, "u"),
        _ => panic!("open fetches under the fetch strategy"),
    }
    match action_for("brave_search", OpenStrategy::SearchFallback, None) {
        ToolAction::Reject { message } => assert!(message.contains("could not be decoded")),
        _ => panic!("undecodable arguments are rejected"),
    }
    match action_for("nonsense", OpenStrategy::SearchFallback, Some("q".to_string())) {
        ToolAction::Reject { message } => assert!(message.contains("Unknown tool")),
        _ => panic!("unknown tools are rejected"),
    }

    let request = ToolRequest {
        id: "c".to_string(),
        tool_name: "brave_search".to_string(),
        arguments: "{\"query\":\"ferris\"}".to_string(),
    };
    match tool_action(&request, OpenStrategy::SearchFallback) {
        ToolAction::Search { query } => assert_eq!(query, "ferris"),
        _ => panic!("a well-formed search request searches"),
    }

    assert_eq!(failure_text("open"), "Error: Failed to read page content. Please try searching instead.");
    assert_eq!(failure_text("brave_search"), "Error: Search failed. Please answer without search.");
}
