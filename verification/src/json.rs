//! JSON documents, and how `serde_json` writes them.
use crate::collections::result_view;
use crate::text::same;
use vstd::prelude::*;

verus! {

/// `serde_json::Number`, opaque: a JSON number is carried through as it was read or made.
#[verifier::external_type_specification]
#[verifier::external_body]
pub struct ExNumber(serde_json::Number);

/// `serde_json::Value`, opaque: a document on its way into or out of `serde_json`.
#[verifier::external_type_specification]
#[verifier::external_body]
pub struct ExValue(serde_json::Value);

/// A JSON document. The fields of an object keep their order.
#[derive(Debug, PartialEq)]
pub enum Json {
    Null,
    Bool(bool),
    Number(serde_json::Number),
    Text(String),
    Array(Vec<Json>),
    Object(Vec<(String, Json)>),
}

/// What a JSON document holds.
#[verifier::ext_equal]
pub enum JsonView {
    Null,
    Bool(bool),
    Number(serde_json::Number),
    Text(Seq<char>),
    Array(Seq<JsonView>),
    Object(Seq<(Seq<char>, JsonView)>),
}

impl Json {
    pub open spec fn tree(self) -> JsonView
        decreases self,
    {
        match self {
            Json::Null => JsonView::Null,
            Json::Bool(value) => JsonView::Bool(value),
            Json::Number(value) => JsonView::Number(value),
            Json::Text(value) => JsonView::Text(value@),
            Json::Array(items) => JsonView::Array(
                Seq::new(
                    items@.len(),
                    |i: int|
                        if 0 <= i < items@.len() {
                            items@[i].tree()
                        } else {
                            JsonView::Null
                        },
                ),
            ),
            Json::Object(fields) => JsonView::Object(
                Seq::new(
                    fields@.len(),
                    |i: int|
                        if 0 <= i < fields@.len() {
                            (fields@[i].0@, fields@[i].1.tree())
                        } else {
                            (Seq::empty(), JsonView::Null)
                        },
                ),
            ),
        }
    }
}

impl DeepView for Json {
    type V = JsonView;

    open spec fn deep_view(&self) -> JsonView {
        self.tree()
    }
}

/// An array's tree holds the trees of its items, an object's those of its fields.
pub broadcast proof fn lemma_tree(json: Json)
    ensures
        #![trigger json.deep_view()]
        json matches Json::Array(items) ==> json.deep_view() == JsonView::Array(items.deep_view()),
        json matches Json::Object(fields) ==> json.deep_view() == JsonView::Object(
            fields.deep_view(),
        ),
{
    match json {
        Json::Array(items) => {
            assert(json.deep_view()->Array_0 =~= items.deep_view());
        },
        Json::Object(fields) => {
            assert(json.deep_view()->Object_0 =~= fields.deep_view());
        },
        _ => {},
    }
}

/// The value of the first field with the given name.
pub open spec fn field(fields: Seq<(Seq<char>, JsonView)>, name: Seq<char>) -> Option<JsonView>
    decreases fields.len(),
{
    if fields.len() == 0 {
        None
    } else if fields[0].0 == name {
        Some(fields[0].1)
    } else {
        field(fields.drop_first(), name)
    }
}

impl JsonView {
    pub open spec fn text(self) -> Option<Seq<char>> {
        match self {
            JsonView::Text(value) => Some(value),
            _ => None,
        }
    }

    pub open spec fn fields(self) -> Option<Seq<(Seq<char>, JsonView)>> {
        match self {
            JsonView::Object(fields) => Some(fields),
            _ => None,
        }
    }

    pub open spec fn items(self) -> Option<Seq<JsonView>> {
        match self {
            JsonView::Array(items) => Some(items),
            _ => None,
        }
    }
}

/// The text in the field with the given name, if it holds one.
pub open spec fn text_field(fields: Seq<(Seq<char>, JsonView)>, name: Seq<char>) -> Option<
    Seq<char>,
> {
    match field(fields, name) {
        Some(value) => value.text(),
        None => None,
    }
}

/// The value of the first field with the given name.
pub fn get_field<'a>(fields: &'a Vec<(String, Json)>, name: &str) -> (value: Option<&'a Json>)
    ensures
        value.deep_view() == field(fields.deep_view(), name@),
{
    let mut i: usize = 0;
    assert(fields.deep_view().skip(0) =~= fields.deep_view());
    while i < fields.len()
        invariant
            i <= fields@.len(),
            field(fields.deep_view(), name@) == field(fields.deep_view().skip(i as int), name@),
        decreases fields@.len() - i,
    {
        if same(fields[i].0.as_str(), name) {
            return Some(&fields[i].1);
        }
        assert(fields.deep_view().skip(i as int).drop_first() =~= fields.deep_view().skip(i + 1));
        i += 1;
    }
    None
}

/// The text in the field with the given name, if it holds one.
pub fn get_text<'a>(fields: &'a Vec<(String, Json)>, name: &str) -> (value: Option<&'a String>)
    ensures
        value.deep_view() == text_field(fields.deep_view(), name@),
{
    match get_field(fields, name) {
        Some(Json::Text(value)) => Some(value),
        _ => None,
    }
}

/// A JSON text.
pub fn text_value(text: &str) -> (json: Json)
    ensures
        json.deep_view() == JsonView::Text(text@),
{
    Json::Text(text.to_owned())
}

/// What `serde_json::Number::from` makes of a whole number.
pub uninterp spec fn number_from(n: i64) -> serde_json::Number;

/// `serde_json::Number::from(i64)`: the JSON number with the given value. The result is
/// named, and depends on the argument alone.
#[verifier::external_body]
pub(crate) fn number(n: i64) -> (number: serde_json::Number)
    ensures
        number == number_from(n),
{
    serde_json::Number::from(n)
}

/// A whole number as a JSON document.
pub open spec fn whole_number(n: i64) -> JsonView {
    JsonView::Number(number_from(n))
}

/// The `serde_json::Value` with the given contents, its fields inserted in their order.
pub uninterp spec fn value_from(tree: JsonView) -> serde_json::Value;

/// Conversion into `serde_json::Value`, node for node: `Value`'s own variants, with
/// `serde_json::Map`'s `FromIterator` for the fields. The result is named, and depends on
/// the contents alone.
#[verifier::external_body]
pub(crate) fn to_value(json: &Json) -> (value: serde_json::Value)
    ensures
        value == value_from(json.deep_view()),
{
    match json {
        Json::Null => serde_json::Value::Null,
        Json::Bool(value) => serde_json::Value::Bool(*value),
        Json::Number(value) => serde_json::Value::Number(value.clone()),
        Json::Text(value) => serde_json::Value::String(value.clone()),
        Json::Array(items) => serde_json::Value::Array(items.iter().map(to_value).collect()),
        Json::Object(fields) => serde_json::Value::Object(
            fields.iter().map(|field| (field.0.clone(), to_value(&field.1))).collect(),
        ),
    }
}

/// What `serde_json::to_string` writes for a value, if it succeeds.
pub uninterp spec fn compact_output(value: serde_json::Value) -> Option<Seq<char>>;

/// `serde_json::to_string`: the value on one line. The result is named.
#[verifier::external_body]
fn to_string(value: &serde_json::Value) -> (text: Option<String>)
    ensures
        text.deep_view() == compact_output(*value),
{
    serde_json::to_string(value).ok()
}

/// What `serde_json::to_string_pretty` writes for a value, or the message of its error.
pub uninterp spec fn pretty_output(value: serde_json::Value) -> Result<Seq<char>, Seq<char>>;

/// `serde_json::to_string_pretty`: the value on several indented lines, or why it cannot be
/// written. The result is named, an error by its message.
#[verifier::external_body]
fn to_string_pretty(value: &serde_json::Value) -> (text: Result<String, String>)
    ensures
        result_view(text) == pretty_output(*value),
{
    serde_json::to_string_pretty(value).map_err(|error| error.to_string())
}

/// What the `Display` impl of `serde_json::Value` writes.
pub uninterp spec fn displayed_value(value: serde_json::Value) -> Seq<char>;

/// `serde_json::Value`'s `Display`: the value as compact JSON text. The result is named.
#[verifier::external_body]
fn display(value: &serde_json::Value) -> (text: String)
    ensures
        text@ == displayed_value(*value),
{
    value.to_string()
}

/// What `serde_json::from_str` reads from a text, if it is a JSON document.
pub uninterp spec fn read_value(text: Seq<char>) -> Option<serde_json::Value>;

/// `serde_json::from_str` for `serde_json::Value`: the document that the text holds, or none where
/// it holds no document or more than one. The result is named.
#[verifier::external_body]
fn from_str(text: &str) -> (value: Option<serde_json::Value>)
    ensures
        value == read_value(text@),
{
    serde_json::from_str(text).ok()
}

/// What a `serde_json::Value` holds.
pub uninterp spec fn contents(value: serde_json::Value) -> JsonView;

/// Conversion from `serde_json::Value`, node for node: `Value`'s own variants, with
/// `serde_json::Map`'s iterator for the fields. The result is named, and depends on the value
/// alone.
#[verifier::external_body]
fn from_value(value: serde_json::Value) -> (json: Json)
    ensures
        json.deep_view() == contents(value),
{
    match value {
        serde_json::Value::Null => Json::Null,
        serde_json::Value::Bool(value) => Json::Bool(value),
        serde_json::Value::Number(value) => Json::Number(value),
        serde_json::Value::String(value) => Json::Text(value),
        serde_json::Value::Array(items) => Json::Array(items.into_iter().map(from_value).collect()),
        serde_json::Value::Object(fields) => Json::Object(
            fields.into_iter().map(|field| (field.0, from_value(field.1))).collect(),
        ),
    }
}

/// The document that a text holds, if it holds one.
pub open spec fn parsed(text: Seq<char>) -> Option<JsonView> {
    match read_value(text) {
        Some(value) => Some(contents(value)),
        None => None,
    }
}

/// The document that a text holds, if it holds one.
pub fn parse(text: &str) -> (json: Option<Json>)
    ensures
        json.deep_view() == parsed(text@),
{
    match from_str(text) {
        Some(value) => Some(from_value(value)),
        None => None,
    }
}

/// A document as compact JSON text.
pub open spec fn compact_text(tree: JsonView) -> Seq<char> {
    match compact_output(value_from(tree)) {
        Some(text) => text,
        None => displayed_value(value_from(tree)),
    }
}

/// A document as compact JSON text.
pub fn compact(json: &Json) -> (text: String)
    ensures
        text@ == compact_text(json.deep_view()),
{
    let value = to_value(json);
    match to_string(&value) {
        Some(text) => text,
        None => display(&value),
    }
}

/// A document as indented JSON text, or why it cannot be written.
pub open spec fn pretty_text(tree: JsonView) -> Result<Seq<char>, Seq<char>> {
    pretty_output(value_from(tree))
}

/// A document as indented JSON text, or why it cannot be written.
pub fn pretty(json: &Json) -> (text: Result<String, String>)
    ensures
        result_view(text) == pretty_text(json.deep_view()),
{
    to_string_pretty(&to_value(json))
}

} // verus!
