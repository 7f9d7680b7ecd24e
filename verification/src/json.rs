use crate::text::str_eq;
use vstd::prelude::*;

verus! {

/// A JSON document as a mathematical value. An object keeps its members in a
/// sequence; a key is looked up from the front, so the first member that
/// carries it answers.
pub enum JsonValue {
    Null,
    Bool(bool),
    Number(Seq<char>),
    Text(Seq<char>),
    Array(Seq<JsonValue>),
    Object(Seq<MemberValue>),
}

/// One member of an object: its key and its value.
pub struct MemberValue {
    pub name: Seq<char>,
    pub value: JsonValue,
}

/// The value of the first member named `key`, if there is one.
pub open spec fn lookup(members: Seq<MemberValue>, key: Seq<char>) -> Option<JsonValue>
    decreases members.len(),
{
    if members.len() == 0 {
        None
    } else if members[0].name == key {
        Some(members[0].value)
    } else {
        lookup(members.drop_first(), key)
    }
}

impl JsonValue {
    /// The member `key` of an object; `None` for anything that is no object
    /// and for an object without that key.
    pub open spec fn member(self, key: Seq<char>) -> Option<JsonValue> {
        match self {
            JsonValue::Object(members) => lookup(members, key),
            _ => None,
        }
    }

    /// The characters of a string value.
    pub open spec fn text(self) -> Option<Seq<char>> {
        match self {
            JsonValue::Text(s) => Some(s),
            _ => None,
        }
    }

    /// The truth value of `true` or `false`.
    pub open spec fn flag(self) -> Option<bool> {
        match self {
            JsonValue::Bool(b) => Some(b),
            _ => None,
        }
    }

    /// The elements of an array.
    pub open spec fn items(self) -> Option<Seq<JsonValue>> {
        match self {
            JsonValue::Array(items) => Some(items),
            _ => None,
        }
    }

    /// The string held by member `key`, where the member exists and is a
    /// string.
    pub open spec fn text_member(self, key: Seq<char>) -> Option<Seq<char>> {
        match self.member(key) {
            Some(v) => v.text(),
            None => None,
        }
    }

    /// The truth value held by member `key`.
    pub open spec fn flag_member(self, key: Seq<char>) -> Option<bool> {
        match self.member(key) {
            Some(v) => v.flag(),
            None => None,
        }
    }
}

/// A JSON document held in memory. Numbers are kept as their decimal text.
#[derive(Debug, PartialEq, Eq)]
pub enum Json {
    Null,
    Bool(bool),
    Number(String),
    Text(String),
    Array(Vec<Json>),
    Object(Vec<JsonMember>),
}

/// One member of a JSON object: a key and the value under it.
#[derive(Debug, PartialEq, Eq)]
pub struct JsonMember {
    pub name: String,
    pub value: Json,
}

impl View for Json {
    type V = JsonValue;

    open spec fn view(&self) -> JsonValue
        decreases self,
    {
        match self {
            Json::Null => JsonValue::Null,
            Json::Bool(b) => JsonValue::Bool(*b),
            Json::Number(n) => JsonValue::Number(n@),
            Json::Text(s) => JsonValue::Text(s@),
            Json::Array(items) => JsonValue::Array(
                Seq::new(
                    items@.len(),
                    |i: int|
                        if 0 <= i < items@.len() {
                            items@[i]@
                        } else {
                            JsonValue::Null
                        },
                ),
            ),
            Json::Object(members) => JsonValue::Object(
                Seq::new(
                    members@.len(),
                    |i: int|
                        if 0 <= i < members@.len() {
                            MemberValue { name: members@[i].name@, value: members@[i].value@ }
                        } else {
                            MemberValue { name: Seq::<char>::empty(), value: JsonValue::Null }
                        },
                ),
            ),
        }
    }
}

impl Json {
    /// Looks a key up in an object.
    pub fn member(&self, key: &str) -> (r: Option<&Json>)
        ensures
            match r {
                Some(j) => self@.member(key@) == Some(j@),
                None => self@.member(key@) is None,
            },
    {
        match self {
            Json::Object(members) => {
                let ghost all = self@->Object_0;
                assert(all.subrange(0, all.len() as int) =~= all);
                let mut i: usize = 0;
                while i < members.len()
                    invariant
                        i <= members.len(),
                        self@ == JsonValue::Object(all),
                        all.len() == members@.len(),
                        forall|k: int|
                            0 <= k < members@.len() ==> all[k] == (MemberValue {
                                name: members@[k].name@,
                                value: members@[k].value@,
                            }),
                        lookup(all, key@) == lookup(all.subrange(i as int, all.len() as int), key@),
                    decreases members.len() - i,
                {
                    let ghost rest = all.subrange(i as int, all.len() as int);
                    assert(rest[0] == all[i as int]);
                    assert(rest.drop_first() =~= all.subrange(i + 1, all.len() as int));
                    if str_eq(members[i].name.as_str(), key) {
                        return Some(&members[i].value);
                    }
                    i = i + 1;
                }
                assert(all.subrange(i as int, all.len() as int).len() == 0);
                None
            },
            _ => None,
        }
    }

    /// The characters of a string value.
    pub fn as_text(&self) -> (r: Option<&str>)
        ensures
            match r {
                Some(s) => self@.text() == Some(s@),
                None => self@.text() is None,
            },
    {
        match self {
            Json::Text(s) => Some(s.as_str()),
            _ => None,
        }
    }

    /// The truth value of `true` or `false`.
    pub fn as_flag(&self) -> (r: Option<bool>)
        ensures
            r == self@.flag(),
    {
        match self {
            Json::Bool(b) => Some(*b),
            _ => None,
        }
    }

    /// The elements of an array.
    pub fn as_items(&self) -> (r: Option<&Vec<Json>>)
        ensures
            match r {
                Some(items) => {
                    &&& self@.items() is Some
                    &&& self@.items()->0.len() == items@.len()
                    &&& forall|i: int| 0 <= i < items@.len() ==> self@.items()->0[i] == items@[i]@
                },
                None => self@.items() is None,
            },
    {
        match self {
            Json::Array(items) => Some(items),
            _ => None,
        }
    }

    /// The string held by member `key`.
    pub fn text_member(&self, key: &str) -> (r: Option<&str>)
        ensures
            match r {
                Some(s) => self@.text_member(key@) == Some(s@),
                None => self@.text_member(key@) is None,
            },
    {
        match self.member(key) {
            Some(v) => v.as_text(),
            None => None,
        }
    }

    /// The truth value held by member `key`.
    pub fn flag_member(&self, key: &str) -> (r: Option<bool>)
        ensures
            r == self@.flag_member(key@),
    {
        match self.member(key) {
            Some(v) => v.as_flag(),
            None => None,
        }
    }
}

/// What `serde_json` reads from a byte string: the document, or `None` where
/// the bytes are not one JSON document.
pub uninterp spec fn json_document(bytes: Seq<u8>) -> Option<JsonValue>;

/// The document that a `serde_json::Value` holds.
pub uninterp spec fn value_document(value: serde_json::Value) -> JsonValue;

/// The JSON string literal that `serde_json` writes for a string: the
/// characters between double quotes, escaped where JSON asks for it.
pub uninterp spec fn json_string_literal(s: Seq<char>) -> Seq<char>;

#[verifier::external_type_specification]
#[verifier::external_body]
pub struct ExJsonDocument(serde_json::Value);

/// Calls `serde_json::from_slice` for a `serde_json::Value`. The result is the
/// document named by `json_document`; an error of the parser becomes `None`.
#[verifier::external_body]
fn read_value(bytes: &[u8]) -> (r: Option<serde_json::Value>)
    ensures
        match r {
            Some(v) => json_document(bytes@) == Some(value_document(v)),
            None => json_document(bytes@) is None,
        },
{
    serde_json::from_slice::<serde_json::Value>(bytes).ok()
}

/// Copies a `serde_json::Value` into a `Json`, variant by variant: a number as
/// the text that `serde_json::Number` prints, an object's members in the
/// order in which its map hands them out.
#[verifier::external_body]
fn json_of_value(value: serde_json::Value) -> (r: Json)
    ensures
        r@ == value_document(value),
{
    match value {
        serde_json::Value::Null => Json::Null,
        serde_json::Value::Bool(b) => Json::Bool(b),
        serde_json::Value::Number(n) => Json::Number(n.to_string()),
        serde_json::Value::String(s) => Json::Text(s),
        serde_json::Value::Array(a) => Json::Array(a.into_iter().map(json_of_value).collect()),
        serde_json::Value::Object(o) => Json::Object(
            o.into_iter().map(|(k, v)| JsonMember { name: k, value: json_of_value(v) }).collect(),
        ),
    }
}

/// Calls `serde_json::to_string` on a string slice, which cannot fail for a
/// string. The result is the literal named by `json_string_literal`.
#[verifier::external_body]
pub(crate) fn quote(s: &str) -> (r: String)
    ensures
        r@ == json_string_literal(s@),
{
    serde_json::to_string(s).unwrap()
}

/// Reads bytes as one JSON document.
pub fn parse(bytes: &[u8]) -> (r: Option<Json>)
    ensures
        match r {
            Some(j) => json_document(bytes@) == Some(j@),
            None => json_document(bytes@) is None,
        },
{
    match read_value(bytes) {
        Some(v) => Some(json_of_value(v)),
        None => None,
    }
}

} // verus!
