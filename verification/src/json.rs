//! JSON documents as a tree of the crate's own, and the parser that reads one
//! from text.

use vstd::prelude::*;

verus! {

/// The parser's own document type: held only between parsing and conversion.
#[verifier::external_type_specification]
#[verifier::external_body]
pub struct ExValue(serde_json::Value);

/// The parser's number type. No message of the worker holds a number, so a
/// number is carried along as the parser made it and never looked into.
#[verifier::external_type_specification]
#[verifier::external_body]
pub struct ExNumber(serde_json::Number);

/// A JSON document.
#[derive(Debug, PartialEq, Eq)]
pub enum Json {
    Null,
    Bool(bool),
    Number(serde_json::Number),
    Text(String),
    List(Vec<Json>),
    Record(Vec<Member>),
}

/// One member of a JSON object.
#[derive(Debug, PartialEq, Eq)]
pub struct Member {
    pub name: String,
    pub value: Json,
}

/// View of [`Json`]: the document as a mathematical tree. Of a number it
/// says only that it is one.
pub enum JsonView {
    Null,
    Bool(bool),
    Number,
    Text(Seq<char>),
    List(Seq<JsonView>),
    /// The members of an object, each a name and a value, in order.
    Record(Seq<(Seq<char>, JsonView)>),
}

/// The document as a mathematical tree.
pub open spec fn json_view(document: Json) -> JsonView
    decreases document,
{
    match document {
        Json::Null => JsonView::Null,
        Json::Bool(b) => JsonView::Bool(b),
        Json::Number(_) => JsonView::Number,
        Json::Text(s) => JsonView::Text(s@),
        Json::List(items) => JsonView::List(
            Seq::new(
                items@.len(),
                |i: int|
                    if 0 <= i < items@.len() {
                        json_view(items@[i])
                    } else {
                        JsonView::Null
                    },
            ),
        ),
        Json::Record(members) => JsonView::Record(
            Seq::new(
                members@.len(),
                |i: int|
                    if 0 <= i < members@.len() {
                        (members@[i].name@, json_view(members@[i].value))
                    } else {
                        (Seq::empty(), JsonView::Null)
                    },
            ),
        ),
    }
}

impl View for Json {
    type V = JsonView;

    open spec fn view(&self) -> JsonView {
        json_view(*self)
    }
}

/// The members of an object as a mathematical sequence: each a name and a
/// value, in order.
pub type MembersView = Seq<(Seq<char>, JsonView)>;

/// The views of the items of an array, in order.
pub open spec fn items_view(items: Seq<Json>) -> Seq<JsonView> {
    Seq::new(items.len(), |i: int| items[i]@)
}

/// The views of the members of an object, in order.
pub open spec fn members_view(members: Seq<Member>) -> MembersView {
    Seq::new(members.len(), |i: int| (members[i].name@, members[i].value@))
}

/// The view of an array is the array of the views, and likewise for an object.
pub proof fn lemma_json_view(document: Json)
    ensures
        document matches Json::List(items) ==> document@ == JsonView::List(items_view(items@)),
        document matches Json::Record(members) ==> document@ == JsonView::Record(
            members_view(members@),
        ),
{
    match document {
        Json::List(items) => {
            assert(document@->List_0 =~= items_view(items@));
        },
        Json::Record(members) => {
            assert(document@->Record_0 =~= members_view(members@));
        },
        _ => {},
    }
}

/// The view of an optional document.
pub open spec fn opt_json(document: Option<Json>) -> Option<JsonView> {
    match document {
        Some(d) => Some(d@),
        None => None,
    }
}

/// The document that the text `text` spells: the view of what
/// `serde_json::from_str` reads from it as a `serde_json::Value`, or `None`
/// where it reports an error. Nothing is said here of which document that is.
pub uninterp spec fn json_document(text: Seq<char>) -> Option<JsonView>;

/// Rewrites a `serde_json::Value` as a [`Json`], variant by variant. The
/// members of an object come in the order in which its map yields them.
///
/// Not verified, and nothing is claimed of the result.
#[verifier::external_body]
fn json_of_value(value: serde_json::Value) -> Json {
    match value {
        serde_json::Value::Null => Json::Null,
        serde_json::Value::Bool(b) => Json::Bool(b),
        serde_json::Value::Number(n) => Json::Number(n),
        serde_json::Value::String(s) => Json::Text(s),
        serde_json::Value::Array(items) => Json::List(
            items.into_iter().map(json_of_value).collect(),
        ),
        serde_json::Value::Object(map) => Json::Record(
            map.into_iter().map(|(name, v)| Member { name, value: json_of_value(v) }).collect(),
        ),
    }
}

/// Parses `text` with `serde_json::from_str`. The text must be one JSON
/// value, with nothing but white space around it; the parser reports an
/// error for anything else, and for a value nested deeper than its limit.
///
/// Not verified. The contract claims one thing: that the outcome depends on
/// the text alone, under the name [`json_document`].
#[verifier::external_body]
pub(crate) fn parse_json(text: &str) -> (document: Option<Json>)
    ensures
        opt_json(document) == json_document(text@),
{
    match serde_json::from_str::<serde_json::Value>(text) {
        Ok(value) => Some(json_of_value(value)),
        Err(_) => None,
    }
}

} // verus!
