use rusty_chat::search::{format_results, parse_search_results, SearchItem, SearchParse};

fn item(title: &str, description: &str, url: &str) -> SearchItem {
    SearchItem {
        title: title.to_string(),
        description: description.to_string(),
        url: url.to_string(),
    }
}

#[test]
fn format_one_result_exactly() {
    let parsed = SearchParse::Results(vec![item("Rust", "A language", "https://rust-lang.org")]);
    let block = format_results(&parsed);
    assert_eq!(
        block,
        "### Brave Search Results\n\n1. **Rust**\n   - Snippet: A language\n   - URL: https://rust-lang.org\n\n"
    );
}

#[test]
fn format_empty_list_renders_no_results_line() {
    let block = format_results(&SearchParse::Results(Vec::new()));
    assert_eq!(block, "### Brave Search Results\n\nNo results found.\n");
    assert!(!block.is_empty());
}

#[test]
fn format_unrecognized_shape() {
    let block = format_results(&SearchParse::NoResultList);
    assert_eq!(block, "### Brave Search Results\n\nFailed to parse search results.\n");
}

#[test]
fn format_shows_at_most_five_results() {
    let items: Vec<SearchItem> = (0..7).map(|i| item(&format!("T{}", i), "d", "u")).collect();
    let block = format_results(&SearchParse::Results(items));
    assert!(block.contains("5. **T4**"));
    assert!(!block.contains("T5"));
    assert!(!block.contains("6."));
}

#[test]
fn parse_reads_provider_body() {
    let body = "{\"web\":{\"results\":[{\"title\":\"One\",\"description\":\"first\",\"url\":\"u1\"},{\"description\":\"no title here\",\"url\":\"u2\"},{\"title\":\"Three\"}]}}";
    match parse_search_results(body) {
        SearchParse::Results(items) => {
            assert_eq!(items.len(), 3);
            assert_eq!(items[0].title, "One");
            assert_eq!(items[0].description, "first");
            assert_eq!(items[0].url, "u1");
            assert_eq!(items[1].title, "No Title");
            assert_eq!(items[2].description, "");
            assert_eq!(items[2].url, "");
        }
        _ => panic!("expected a result list"),
    }
}

#[test]
fn parse_distinguishes_bad_bodies() {
    assert!(matches!(parse_search_results("not json"), SearchParse::NotJson));
    assert!(matches!(parse_search_results("{}"), SearchParse::NoResultList));
    assert!(matches!(
        parse_search_results("{\"web\":{}}"),
        SearchParse::NoResultList
    ));
    assert!(matches!(
        parse_search_results("{\"web\":{\"results\":\"oops\"}}"),
        SearchParse::NoResultList
    ));
}

#[test]
fn empty_query_body_still_formats_with_heading() {
    // Whatever the provider answers for an empty query, the block always
    // opens with the heading; an empty result list never yields an empty
    // string.
    let parsed = parse_search_results("{\"web\":{\"results\":[]}}");
    let block = format_results(&parsed);
    assert!(block.starts_with("### Brave Search Results"));
    assert_eq!(block, "### Brave Search Results\n\nNo results found.\n");
}
