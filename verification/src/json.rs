//! Reading single values out of a JSON document.

use vstd::prelude::*;

verus! {

/// What stands at one place of a JSON document, as far as the wallet reads
/// it.
#[derive(Debug, Clone, PartialEq, Eq)]
pub enum JsonNode {
    /// The document has no value at that place.
    Missing,
    /// A string, with its content.
    Text(String),
    /// An array; for each element its content if it is a string.
    Array(Vec<Option<String>>),
    /// Any other value: null, a boolean, a number or an object.
    Other,
}

/// The content of a [`JsonNode`]: texts as sequences of characters.
pub enum JsonView {
    /// The document has no value at that place.
    Missing,
    /// A string, with its content.
    Text(Seq<char>),
    /// An array; for each element its content if it is a string.
    Array(Seq<Option<Seq<char>>>),
    /// Any other value.
    Other,
}

/// The content of an optional text.
pub open spec fn text_view(text: Option<String>) -> Option<Seq<char>> {
    match text {
        Some(t) => Some(t@),
        None => None,
    }
}

impl View for JsonNode {
    type V = JsonView;

    open spec fn view(&self) -> JsonView {
        match *self {
            JsonNode::Missing => JsonView::Missing,
            JsonNode::Text(text) => JsonView::Text(text@),
            JsonNode::Array(items) => JsonView::Array(
                Seq::new(items@.len(), |i: int| text_view(items@[i])),
            ),
            JsonNode::Other => JsonView::Other,
        }
    }
}

/// What a lookup in a JSON document found: the value at the place asked
/// for, and the whole document written out again in compact form.
#[derive(Debug, Clone, PartialEq, Eq)]
pub struct JsonLookup {
    pub node: JsonNode,
    pub document: String,
}

/// What stands in the JSON document `text` at the place that the JSON
/// pointer `pointer` names; `None` if `text` is not a JSON document.
pub uninterp spec fn json_at(text: Seq<char>, pointer: Seq<char>) -> Option<JsonView>;

/// The JSON document `text` written out again in compact form.
pub uninterp spec fn json_rendering(text: Seq<char>) -> Seq<char>;

/// The parser's message for a text that is not a JSON document.
pub uninterp spec fn json_error(text: Seq<char>) -> Seq<char>;

/// Parses `text` with `serde_json::from_str`, follows `pointer` with
/// `serde_json::Value::pointer` and writes the document out with its
/// `Display`.
///
/// Trusted: the result is what the parser, the pointer lookup and the
/// printer yield for these two texts, and depends on nothing else. Whether
/// the text parses does not depend on the pointer. A string is returned
/// with its content, an array with the content of each element that is a
/// string. If the text does not parse, the parser's message is returned.
#[verifier::external_body]
pub(crate) fn json_node_at(text: &str, pointer: &str) -> (r: Result<JsonLookup, String>)
    ensures
        r matches Ok(found) ==> json_at(text@, pointer@) == Some(found.node@) && found.document@
            == json_rendering(text@),
        r matches Err(cause) ==> json_at(text@, pointer@) is None && cause@ == json_error(text@),
{
    let parsed: serde_json::Value = serde_json::from_str(text).map_err(|e| e.to_string())?;
    let node = match parsed.pointer(pointer) {
        None => JsonNode::Missing,
        Some(serde_json::Value::String(s)) => JsonNode::Text(s.clone()),
        Some(serde_json::Value::Array(items)) => JsonNode::Array(
            items.iter().map(|item| item.as_str().map(str::to_owned)).collect(),
        ),
        Some(_) => JsonNode::Other,
    };
    Ok(JsonLookup { node, document: parsed.to_string() })
}

} // verus!
