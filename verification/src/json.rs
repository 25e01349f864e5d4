//! Looking a value up in a JSON document, through the `gjson` crate.

use vstd::prelude::*;

verus! {

/// The kinds of value that a JSON document can hold at a path.
#[derive(Clone, Copy, Debug, PartialEq, Eq, Structural)]
pub enum JsonKind {
    Null,
    False,
    Number,
    Text,
    True,
    Array,
    Object,
}

/// What a lookup found at a path.
///
/// For a number `text` is the numeral as the document writes it, for a string
/// its content with the escapes resolved. Where nothing was found `exists` is
/// `false`.
#[derive(Clone, Debug, PartialEq, Eq)]
pub struct Field {
    pub exists: bool,
    pub kind: JsonKind,
    pub text: String,
}

/// A `Field` with its text as a sequence of characters.
pub struct FieldView {
    pub exists: bool,
    pub kind: JsonKind,
    pub text: Seq<char>,
}

impl View for Field {
    type V = FieldView;

    open spec fn view(&self) -> FieldView {
        FieldView { exists: self.exists, kind: self.kind, text: self.text@ }
    }
}

/// Whether a character may stand in a path made of keys and dots alone.
pub open spec fn is_path_char(c: char) -> bool {
    ('a' <= c && c <= 'z') || ('A' <= c && c <= 'Z') || ('0' <= c && c <= '9') || c == '_' || c
        == '.'
}

/// Whether `path` is made of keys and dots alone: no wildcard, query or
/// modifier.
pub open spec fn is_plain_path(path: Seq<char>) -> bool {
    forall|i: int| 0 <= i < path.len() ==> is_path_char(#[trigger] path[i])
}

/// What `gjson::valid` answers for a document.
pub uninterp spec fn gjson_valid(json: Seq<char>) -> bool;

/// What `gjson::get` finds in a document at a path.
pub uninterp spec fn gjson_get(json: Seq<char>, path: Seq<char>) -> FieldView;

/// Calls `gjson::valid`, which decides whether a text is well-formed JSON.
/// The answer depends on the text alone; nothing more is claimed of it.
#[verifier::external_body]
pub(crate) fn is_valid_json(json: &str) -> (ok: bool)
    ensures
        ok == gjson_valid(json@),
{
    gjson::valid(json)
}

/// Calls `gjson::get` on a well-formed document and a path of keys and dots,
/// and hands back what `Value::exists`, `Value::kind` and `Value::str` say of
/// the value found. The outcome depends on the document and the path alone;
/// nothing more is claimed of it.
#[verifier::external_body]
pub(crate) fn lookup(json: &str, path: &str) -> (field: Field)
    requires
        gjson_valid(json@),
        is_plain_path(path@),
    ensures
        field@ == gjson_get(json@, path@),
{
    let value = gjson::get(json, path);
    let kind = match value.kind() {
        gjson::Kind::Null => JsonKind::Null,
        gjson::Kind::False => JsonKind::False,
        gjson::Kind::Number => JsonKind::Number,
        gjson::Kind::String => JsonKind::Text,
        gjson::Kind::True => JsonKind::True,
        gjson::Kind::Array => JsonKind::Array,
        gjson::Kind::Object => JsonKind::Object,
    };
    Field { exists: value.exists(), kind, text: value.str().to_owned() }
}

} // verus!
