//! Trusted boundary to serde_json.
//!
//! The endpoints this client talks to answer in JSON. Parsing is delegated
//! to serde_json; what a given text parses to is a function of the text
//! alone, so it is given a name, `json_of`, over a mathematical JSON tree.
//! A parsed value travels through the crate as a `Json`, which carries the
//! ghost tree beside the serde_json value; the narrow accessors below are
//! the only trusted steps, and every reader built on them has a contract
//! grounded in `json_of`.

use vstd::prelude::*;
use vstd::pervasive::arbitrary;

verus! {

/// Declares serde_json's JSON tree type so a field of this crate can hold
/// a parsed JSON value; the value itself is opaque to Verus.
#[verifier::external_type_specification]
#[verifier::external_body]
pub struct ExValue(serde_json::Value);

/// Mathematical model of a JSON document. Object entries keep their keys
/// in a sequence and are looked up by first match; numeric payloads are
/// not distinguished, since nothing in this client reads them.
#[verifier::ext_equal]
pub ghost enum JsonView {
    Null,
    Bool(bool),
    Num,
    Str(Seq<char>),
    Arr(Seq<JsonView>),
    Obj(Seq<(Seq<char>, JsonView)>),
}

/// The JSON tree that `text` parses to, and nothing when parsing fails.
/// Names what serde_json::from_str returns: a function of the text alone.
pub uninterp spec fn json_of(text: Seq<char>) -> Option<JsonView>;

/// The value under the first entry of `entries` whose key is `key`.
pub open spec fn obj_get(entries: Seq<(Seq<char>, JsonView)>, key: Seq<char>) -> Option<JsonView>
    decreases entries.len(),
{
    if entries.len() == 0 {
        None
    } else if entries[0].0 == key {
        Some(entries[0].1)
    } else {
        obj_get(entries.drop_first(), key)
    }
}

/// The value under `key` when `v` is an object with that key.
pub open spec fn spec_get(v: JsonView, key: Seq<char>) -> Option<JsonView> {
    match v {
        JsonView::Obj(entries) => obj_get(entries, key),
        _ => None,
    }
}

/// The text when `v` is a JSON string.
pub open spec fn spec_str_of(v: JsonView) -> Option<Seq<char>> {
    match v {
        JsonView::Str(s) => Some(s),
        _ => None,
    }
}

/// A parsed JSON document or subtree: the serde_json value, paired with
/// the ghost tree it models as.
pub struct Json {
    value: serde_json::Value,
    model: Ghost<JsonView>,
}

impl Json {
    /// The JSON tree this value models as.
    pub closed spec fn model(&self) -> JsonView {
        self.model@
    }

    /// Relies on serde_json::Value::get with a string index: the value
    /// under `key` when this is a JSON object that has that key, and
    /// nothing otherwise.
    #[verifier::external_body]
    pub(crate) fn get(&self, key: &str) -> (r: Option<Json>)
        ensures
            (match r {
                Some(j) => Some(j.model()),
                None => None::<JsonView>,
            }) == spec_get(self.model(), key@),
    {
        self.value.get(key).map(|v| Json { value: v.clone(), model: Ghost(arbitrary()) })
    }

    /// Relies on serde_json::Value::as_array: the number of items when
    /// this is a JSON array, and nothing otherwise.
    #[verifier::external_body]
    pub(crate) fn arr_len(&self) -> (r: Option<usize>)
        ensures
            (match r {
                Some(n) => self.model() matches JsonView::Arr(items) && n == items.len(),
                None => !(self.model() is Arr),
            }),
    {
        self.value.as_array().map(|items| items.len())
    }

    /// Relies on serde_json::Value::get with an integer index: the item
    /// at `i` when this is a JSON array with more than `i` items.
    #[verifier::external_body]
    pub(crate) fn arr_get(&self, i: usize) -> (r: Option<Json>)
        ensures
            self.model() is Arr && i < self.model()->Arr_0.len() ==> (match r {
                Some(j) => Some(j.model()),
                None => None::<JsonView>,
            }) == Some(self.model()->Arr_0[i as int]),
    {
        self.value.get(i).map(|v| Json { value: v.clone(), model: Ghost(arbitrary()) })
    }

    /// Relies on serde_json::Value::as_str: the text when this is a JSON
    /// string, and nothing otherwise.
    #[verifier::external_body]
    pub(crate) fn as_string(&self) -> (r: Option<String>)
        ensures
            (match r {
                Some(s) => Some(s@),
                None => None::<Seq<char>>,
            }) == spec_str_of(self.model()),
    {
        self.value.as_str().map(|s| s.to_owned())
    }

    /// Relies on serde_json::Value::is_null: whether this is the JSON
    /// null value.
    #[verifier::external_body]
    pub(crate) fn is_null(&self) -> (r: bool)
        ensures
            r == (self.model() is Null),
    {
        self.value.is_null()
    }
}

/// Relies on serde_json::from_str: parses the text as one JSON document,
/// or fails. The result is `json_of` of the text, carried as the ghost
/// tree beside the value.
#[verifier::external_body]
pub(crate) fn json_parse(text: &str) -> (r: Option<Json>)
    ensures
        (r is Some) <==> (json_of(text@) is Some),
        r matches Some(j) ==> Some(j.model()) == json_of(text@),
{
    match serde_json::from_str(text) {
        Ok(value) => Some(Json { value: value, model: Ghost(arbitrary()) }),
        Err(_) => None,
    }
}

} // verus!
