//! JSON documents as values of the library. Reading a document from text
//! and writing one as text is `serde_json`'s work; building documents and
//! looking into them is done here.

use vstd::prelude::*;

verus! {

/// A JSON document. A number is held as the text that writes it. An object
/// is held as its members in order; where two members have the same key,
/// the later one counts.
pub enum Json {
    Null,
    Bool(bool),
    Number(String),
    Text(String),
    List(Vec<Json>),
    Object(Vec<Member>),
}

/// One member of an object: a key and its value.
pub struct Member {
    pub key: String,
    pub value: Json,
}

/// What a [`Json`] document holds.
pub enum JsonValue {
    Null,
    Bool(bool),
    Number(Seq<char>),
    Text(Seq<char>),
    List(Seq<JsonValue>),
    Object(Seq<MemberValue>),
}

/// What one member of an object holds.
pub struct MemberValue {
    pub key: Seq<char>,
    pub value: JsonValue,
}

impl View for Json {
    type V = JsonValue;

    open spec fn view(&self) -> JsonValue
        decreases self,
    {
        match self {
            Json::Null => JsonValue::Null,
            Json::Bool(b) => JsonValue::Bool(*b),
            Json::Number(n) => JsonValue::Number(n@),
            Json::Text(t) => JsonValue::Text(t@),
            Json::List(items) => JsonValue::List(
                Seq::new(
                    items@.len(),
                    |i: int|
                        if 0 <= i < items@.len() {
                            items@[i].view()
                        } else {
                            JsonValue::Null
                        },
                ),
            ),
            Json::Object(members) => JsonValue::Object(
                Seq::new(
                    members@.len(),
                    |i: int|
                        if 0 <= i < members@.len() {
                            MemberValue { key: members@[i].key@, value: members@[i].value.view() }
                        } else {
                            MemberValue { key: Seq::empty(), value: JsonValue::Null }
                        },
                ),
            ),
        }
    }
}

/// The document that the JSON text `text` writes, as `serde_json::from_str`
/// reads it; `None` where it reports an error.
pub uninterp spec fn json_parse(text: Seq<char>) -> Option<JsonValue>;

/// The compact JSON text of `doc`, as `serde_json` writes it.
pub uninterp spec fn json_text(doc: JsonValue) -> Seq<char>;

/// `serde_json::Value`, carried through as it is: nothing is seen inside it.
#[verifier::external_type_specification]
#[verifier::external_body]
pub struct ExValue(serde_json::Value);

/// `serde_json::Error`, carried through as it is: nothing is seen inside it.
#[verifier::external_type_specification]
#[verifier::external_body]
pub struct ExError(serde_json::Error);

/// Turns a `serde_json::Value` into a [`Json`], variant by variant; a number
/// becomes the text that `serde_json` writes for it. Trusted; nothing is
/// claimed of the result here.
#[verifier::external_body]
fn from_value(v: &serde_json::Value) -> Json {
    match v {
        serde_json::Value::Null => Json::Null,
        serde_json::Value::Bool(b) => Json::Bool(*b),
        serde_json::Value::Number(n) => Json::Number(n.to_string()),
        serde_json::Value::String(s) => Json::Text(s.clone()),
        serde_json::Value::Array(a) => Json::List(a.iter().map(from_value).collect()),
        serde_json::Value::Object(o) => Json::Object(
            o.iter().map(|(k, x)| Member { key: k.clone(), value: from_value(x) }).collect(),
        ),
    }
}

/// Turns a [`Json`] into a `serde_json::Value`, variant by variant; a number
/// becomes what its text reads as, and `null` where it does not read.
/// Trusted; nothing is claimed of the result here.
#[verifier::external_body]
fn to_value(doc: &Json) -> serde_json::Value {
    match doc {
        Json::Null => serde_json::Value::Null,
        Json::Bool(b) => serde_json::Value::Bool(*b),
        Json::Number(n) => n.parse().unwrap_or(serde_json::Value::Null),
        Json::Text(s) => serde_json::Value::String(s.clone()),
        Json::List(a) => serde_json::Value::Array(a.iter().map(to_value).collect()),
        Json::Object(o) => serde_json::Value::Object(
            o.iter().map(|m| (m.key.clone(), to_value(&m.value))).collect(),
        ),
    }
}

/// Calls `serde_json::from_str` for a `Value`. Trusted: what comes back is
/// the document that [`json_parse`] names, or an error where it names none.
#[verifier::external_body]
pub(crate) fn parse(text: &str) -> (doc: Result<Json, serde_json::Error>)
    ensures
        match doc {
            Ok(d) => json_parse(text@) == Some(d@),
            Err(_) => json_parse(text@) is None,
        },
{
    serde_json::from_str::<serde_json::Value>(text).map(|v| from_value(&v))
}

/// Calls `to_string` on the `serde_json::Value` of `doc`. Trusted: the
/// result is the text that [`json_text`] names.
#[verifier::external_body]
pub(crate) fn render(doc: &Json) -> (text: String)
    ensures
        text@ == json_text(doc@),
{
    to_value(doc).to_string()
}

/// What the members of an object hold.
pub open spec fn members_view(members: Seq<Member>) -> Seq<MemberValue> {
    Seq::new(members.len(), |i: int| MemberValue { key: members[i].key@, value: members[i].value@ })
}

/// What the items of a list hold.
pub open spec fn items_view(items: Seq<Json>) -> Seq<JsonValue> {
    Seq::new(items.len(), |i: int| items[i]@)
}

/// The value of the last member of `members` whose key is `key`.
pub open spec fn find_member(members: Seq<MemberValue>, key: Seq<char>) -> Option<JsonValue>
    decreases members.len(),
{
    if members.len() == 0 {
        None
    } else if members.last().key == key {
        Some(members.last().value)
    } else {
        find_member(members.drop_last(), key)
    }
}

/// The member `key` of `doc`, if `doc` is an object that has one.
pub open spec fn member_of(doc: JsonValue, key: Seq<char>) -> Option<JsonValue> {
    match doc {
        JsonValue::Object(members) => find_member(members, key),
        _ => None,
    }
}

/// The item at `index` of `doc`, if `doc` is a list that long.
pub open spec fn item_of(doc: JsonValue, index: int) -> Option<JsonValue> {
    match doc {
        JsonValue::List(items) => if 0 <= index < items.len() {
            Some(items[index])
        } else {
            None
        },
        _ => None,
    }
}

/// The text of `doc`, if `doc` is a text.
pub open spec fn text_of_value(doc: JsonValue) -> Option<Seq<char>> {
    match doc {
        JsonValue::Text(t) => Some(t),
        _ => None,
    }
}

/// What an optional document holds.
pub open spec fn option_view(doc: Option<&Json>) -> Option<JsonValue> {
    match doc {
        Some(d) => Some(d@),
        None => None,
    }
}

impl Json {
    /// The text `s` as a document.
    pub fn text(s: &str) -> (doc: Json)
        ensures
            doc@ == JsonValue::Text(s@),
    {
        Json::Text(s.to_owned())
    }

    /// The list of `items` as a document.
    pub fn list(items: Vec<Json>) -> (doc: Json)
        ensures
            doc@ == JsonValue::List(items_view(items@)),
    {
        let doc = Json::List(items);
        assert(doc@->List_0 =~= items_view(items@));
        doc
    }

    /// The object of `members` as a document.
    pub fn object(members: Vec<Member>) -> (doc: Json)
        ensures
            doc@ == JsonValue::Object(members_view(members@)),
    {
        let doc = Json::Object(members);
        assert(doc@->Object_0 =~= members_view(members@));
        doc
    }

    /// The member `key` of this document.
    pub fn member(&self, key: &str) -> (found: Option<&Json>)
        ensures
            option_view(found) == member_of(self@, key@),
    {
        match self {
            Json::Object(members) => {
                let wanted = key.to_owned();
                let ghost all = members_view(members@);
                assert(self@->Object_0 =~= all);
                let mut i: usize = members.len();
                assert(all.take(i as int) == all);
                while i > 0
                    invariant
                        i <= members.len(),
                        wanted@ == key@,
                        all == members_view(members@),
                        member_of(self@, key@) == find_member(all, key@),
                        find_member(all, key@) == find_member(all.take(i as int), key@),
                    decreases i,
                {
                    let ghost front = all.take(i as int);
                    assert(front.last() == all[i - 1]);
                    assert(front.drop_last() == all.take(i - 1));
                    if members[i - 1].key == wanted {
                        return Some(&members[i - 1].value);
                    }
                    i -= 1;
                }
                None
            },
            _ => None,
        }
    }

    /// The item at `index` of this document.
    pub fn item(&self, index: usize) -> (found: Option<&Json>)
        ensures
            option_view(found) == item_of(self@, index as int),
    {
        match self {
            Json::List(items) => {
                assert(self@->List_0 =~= items_view(items@));
                if index < items.len() {
                    Some(&items[index])
                } else {
                    None
                }
            },
            _ => None,
        }
    }

    /// The text of this document.
    pub fn as_text(&self) -> (found: Option<&String>)
        ensures
            match found {
                Some(t) => text_of_value(self@) == Some(t@),
                None => text_of_value(self@) is None,
            },
    {
        match self {
            Json::Text(t) => Some(t),
            _ => None,
        }
    }
}

} // verus!
