//! The web-search tool's result handling: reading the provider's JSON answer
//! into plain values, and formatting those into the deterministic text block
//! that is handed back to the model as a tool turn.

use vstd::prelude::*;

use crate::json::{json_of, json_parse, spec_get, JsonView};
use crate::text::spec_starts_with;
use crate::RESULT_PAGE_SIZE;

verus! {

/// One web-search result, reduced to the three fields the block shows.
pub struct SearchItem {
    pub title: String,
    pub description: String,
    pub url: String,
}

/// Mathematical model of a `SearchItem`.
#[verifier::ext_equal]
pub ghost struct SearchItemView {
    pub title: Seq<char>,
    pub description: Seq<char>,
    pub url: Seq<char>,
}

impl View for SearchItem {
    type V = SearchItemView;

    open spec fn view(&self) -> SearchItemView {
        SearchItemView { title: self.title@, description: self.description@, url: self.url@ }
    }
}

/// What reading a search-provider response body yielded.
pub enum SearchParse {
    /// The body was not a JSON document at all.
    NotJson,
    /// The body was JSON, but held no result array at the expected path.
    NoResultList,
    /// The result items, in the provider's order.
    Results(Vec<SearchItem>),
}

/// Mathematical model of a `SearchParse`.
pub ghost enum SearchParseView {
    NotJson,
    NoResultList,
    Results(Seq<SearchItemView>),
}

impl View for SearchParse {
    type V = SearchParseView;

    open spec fn view(&self) -> SearchParseView {
        match self {
            SearchParse::NotJson => SearchParseView::NotJson,
            SearchParse::NoResultList => SearchParseView::NoResultList,
            SearchParse::Results(items) => SearchParseView::Results(
                items@.map_values(|it: SearchItem| it@),
            ),
        }
    }
}

/// The heading every formatted block begins with.
pub open spec fn spec_heading() -> Seq<char> {
    "### Brave Search Results\n\n"@
}

/// The character printed as the 1-based index of a shown result.
pub open spec fn digit_char(d: int) -> char {
    if d == 1 {
        '1'
    } else if d == 2 {
        '2'
    } else if d == 3 {
        '3'
    } else if d == 4 {
        '4'
    } else {
        '5'
    }
}

/// The lines printed for the result with 1-based index `index1`.
pub open spec fn spec_item_block(index1: int, it: SearchItemView) -> Seq<char> {
    seq![digit_char(index1)] + ". **"@ + it.title + "**\n   - Snippet: "@ + it.description
        + "\n   - URL: "@ + it.url + "\n\n"@
}

/// The blocks for the first `k` items, in order.
pub open spec fn spec_blocks(items: Seq<SearchItemView>, k: int) -> Seq<char>
    decreases k,
{
    if k <= 0 {
        Seq::empty()
    } else {
        spec_blocks(items, k - 1) + spec_item_block(k, items[k - 1])
    }
}

/// How many of `n` available results are shown: at most the fixed page size.
pub open spec fn spec_shown_count(n: nat) -> int {
    if n < RESULT_PAGE_SIZE {
        n as int
    } else {
        RESULT_PAGE_SIZE as int
    }
}

/// The full text block for a parsed provider response: always the heading,
/// then either a fixed line (no list, or an empty list) or one block per
/// shown result.
pub open spec fn spec_format_results(p: SearchParseView) -> Seq<char> {
    match p {
        SearchParseView::NotJson => spec_heading() + "Failed to parse search results.\n"@,
        SearchParseView::NoResultList => spec_heading() + "Failed to parse search results.\n"@,
        SearchParseView::Results(items) => if items.len() == 0 {
            spec_heading() + "No results found.\n"@
        } else {
            spec_heading() + spec_blocks(items, spec_shown_count(items.len()))
        },
    }
}

/// Law: a formatted block is never empty and always begins with the heading,
/// whatever the provider answered — including an empty result list, which
/// renders the literal "no results" line rather than an empty block.
pub proof fn lemma_block_well_formed(p: SearchParseView)
    ensures
        spec_format_results(p).len() > 0,
        spec_starts_with(spec_format_results(p), spec_heading()),
{
    reveal_strlit("### Brave Search Results\n\n");
    match p {
        SearchParseView::NotJson => {
            assert(spec_format_results(p).subrange(0, spec_heading().len() as int)
                =~= spec_heading());
        },
        SearchParseView::NoResultList => {
            assert(spec_format_results(p).subrange(0, spec_heading().len() as int)
                =~= spec_heading());
        },
        SearchParseView::Results(items) => {
            assert(spec_format_results(p).subrange(0, spec_heading().len() as int)
                =~= spec_heading());
        },
    }
}

/// Law: an empty provider result list renders exactly the heading plus the
/// literal "no results" line.
pub proof fn lemma_empty_list_renders_no_results()
    ensures
        spec_format_results(SearchParseView::Results(Seq::empty())) == spec_heading()
            + "No results found.\n"@,
{
}

/// The printed 1-based index of a shown result.
fn index_label(index1: usize) -> (r: &'static str)
    requires
        1 <= index1 <= 5,
    ensures
        r@ == seq![digit_char(index1 as int)],
{
    if index1 == 1 {
        proof {
            reveal_strlit("1");
            assert("1"@ =~= seq![digit_char(1)]);
        }
        "1"
    } else if index1 == 2 {
        proof {
            reveal_strlit("2");
            assert("2"@ =~= seq![digit_char(2)]);
        }
        "2"
    } else if index1 == 3 {
        proof {
            reveal_strlit("3");
            assert("3"@ =~= seq![digit_char(3)]);
        }
        "3"
    } else if index1 == 4 {
        proof {
            reveal_strlit("4");
            assert("4"@ =~= seq![digit_char(4)]);
        }
        "4"
    } else {
        proof {
            reveal_strlit("5");
            assert("5"@ =~= seq![digit_char(5)]);
        }
        "5"
    }
}

/// The item a result entry reduces to: its title, description and URL
/// strings, with the provider's defaults for missing or non-string fields.
pub open spec fn spec_item_of(v: JsonView) -> SearchItemView {
    SearchItemView {
        title: match spec_get(v, "title"@) {
            Some(JsonView::Str(s)) => s,
            _ => "No Title"@,
        },
        description: match spec_get(v, "description"@) {
            Some(JsonView::Str(s)) => s,
            _ => Seq::empty(),
        },
        url: match spec_get(v, "url"@) {
            Some(JsonView::Str(s)) => s,
            _ => Seq::empty(),
        },
    }
}

/// The result entries of a provider document: the array under
/// `web.results`, and nothing when that path holds no array.
pub open spec fn spec_result_items(doc: JsonView) -> Option<Seq<JsonView>> {
    match spec_get(doc, "web"@) {
        Some(w) => match spec_get(w, "results"@) {
            Some(JsonView::Arr(items)) => Some(items),
            _ => None,
        },
        None => None,
    }
}

/// What reading a provider response body yields: not JSON at all, JSON
/// without a result array at `web.results`, or the entries reduced to
/// items in the provider's order.
pub open spec fn spec_parse_search(body: Seq<char>) -> SearchParseView {
    match json_of(body) {
        None => SearchParseView::NotJson,
        Some(doc) => match spec_result_items(doc) {
            None => SearchParseView::NoResultList,
            Some(items) => SearchParseView::Results(
                items.map_values(|v: JsonView| spec_item_of(v)),
            ),
        },
    }
}

/// Read a search-provider response body, exactly as `spec_parse_search`
/// describes.
pub fn parse_search_results(body: &str) -> (p: SearchParse)
    ensures
        p@ == spec_parse_search(body@),
{
    let doc = match json_parse(body) {
        Some(d) => d,
        None => {
            return SearchParse::NotJson;
        },
    };
    let web = match doc.get("web") {
        Some(w) => w,
        None => {
            return SearchParse::NoResultList;
        },
    };
    let results = match web.get("results") {
        Some(r) => r,
        None => {
            return SearchParse::NoResultList;
        },
    };
    let len = match results.arr_len() {
        Some(n) => n,
        None => {
            return SearchParse::NoResultList;
        },
    };
    let ghost entries = results.model()->Arr_0;
    let ghost wanted = entries.map_values(|v: JsonView| spec_item_of(v));
    let mut items: Vec<SearchItem> = Vec::new();
    let mut i: usize = 0;
    proof {
        assert(items@.map_values(|it: SearchItem| it@) =~= wanted.take(0));
    }
    while i < len
        invariant
            i <= len,
            len == entries.len(),
            results.model() == JsonView::Arr(entries),
            wanted == entries.map_values(|v: JsonView| spec_item_of(v)),
            items@.map_values(|it: SearchItem| it@) == wanted.take(i as int),
        decreases len - i,
    {
        let ghost prev = items@.map_values(|it: SearchItem| it@);
        let entry = results.arr_get(i).unwrap();
        let title = match entry.get("title") {
            Some(t) => match t.as_string() {
                Some(s) => s,
                None => String::from_str("No Title"),
            },
            None => String::from_str("No Title"),
        };
        let description = match entry.get("description") {
            Some(d) => match d.as_string() {
                Some(s) => s,
                None => String::new(),
            },
            None => String::new(),
        };
        let url = match entry.get("url") {
            Some(u) => match u.as_string() {
                Some(s) => s,
                None => String::new(),
            },
            None => String::new(),
        };
        let item = SearchItem { title: title, description: description, url: url };
        proof {
            assert(entry.model() == entries[i as int]);
            assert(item@ =~= spec_item_of(entries[i as int]));
        }
        items.push(item);
        proof {
            assert(items@.map_values(|it: SearchItem| it@) =~= prev.push(
                spec_item_of(entries[i as int]),
            ));
            assert(prev.push(spec_item_of(entries[i as int])) =~= wanted.take(i + 1));
        }
        i = i + 1;
    }
    proof {
        assert(wanted.take(len as int) =~= wanted);
    }
    SearchParse::Results(items)
}

/// Format a parsed provider response into the text block handed to the
/// model, exactly as `spec_format_results` describes.
pub fn format_results(p: &SearchParse) -> (r: String)
    ensures
        r@ == spec_format_results(p@),
{
    let mut r = String::from_str("### Brave Search Results\n\n");
    match p {
        SearchParse::NotJson => {
            r.append("Failed to parse search results.\n");
        },
        SearchParse::NoResultList => {
            r.append("Failed to parse search results.\n");
        },
        SearchParse::Results(items) => {
            let ghost iv = items@.map_values(|it: SearchItem| it@);
            if items.len() == 0 {
                r.append("No results found.\n");
            } else {
                let page: usize = RESULT_PAGE_SIZE as usize;
                let count: usize = if items.len() < page {
                    items.len()
                } else {
                    page
                };
                let mut i: usize = 0;
                proof {
                    assert(r@ =~= spec_heading() + spec_blocks(iv, 0));
                }
                while i < count
                    invariant
                        1 <= count <= 5,
                        count <= items@.len(),
                        iv == items@.map_values(|it: SearchItem| it@),
                        i <= count,
                        r@ == spec_heading() + spec_blocks(iv, i as int),
                    decreases count - i,
                {
                    let label = index_label(i + 1);
                    r.append(label);
                    r.append(". **");
                    r.append(items[i].title.as_str());
                    r.append("**\n   - Snippet: ");
                    r.append(items[i].description.as_str());
                    r.append("\n   - URL: ");
                    r.append(items[i].url.as_str());
                    r.append("\n\n");
                    i = i + 1;
                    proof {
                        assert(iv[i - 1] == items@[i - 1]@);
                        assert(r@ =~= spec_heading() + spec_blocks(iv, i as int));
                    }
                }
                proof {
                    assert(count == spec_shown_count(iv.len()));
                }
            }
        },
    }
    r
}

} // verus!
