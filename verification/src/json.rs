//! JSON documents as the library reads and builds them.
//!
//! [`Json`] is the executable tree; its view, [`JsonValue`], is the document
//! it denotes: integers as mathematical integers, text as character
//! sequences, and an object as the sequence of its members, of which a later
//! one counts where two have the same key. Reading text and writing text are
//! done by `serde_json`; everything else here is verified.

use crate::text::str_eq;
use vstd::prelude::*;

verus! {

broadcast use vstd::std_specs::vec::group_vec_axioms;

/// `serde_json::Number`, carried through unopened: it stands for the numbers
/// of a document that are no 64-bit integers.
#[verifier::external_type_specification]
#[verifier::external_body]
pub struct ExNumber(serde_json::Number);

/// `serde_json::Value`, which the two conversions below take and give.
#[verifier::external_type_specification]
#[verifier::external_body]
pub struct ExValue(serde_json::Value);

/// `serde_json::Error`, handed on to the caller as it came.
#[verifier::external_type_specification]
#[verifier::external_body]
pub struct ExError(serde_json::Error);

/// `Clone` of `serde_json::Number`, which the crate derives for a plain
/// number: the copy is the number copied.
pub assume_specification[ <serde_json::Number as Clone>::clone ](
    n: &serde_json::Number,
) -> (r: serde_json::Number)
    ensures
        r == *n,
;

/// One member of an object.
#[derive(Debug, PartialEq)]
pub struct Member {
    pub key: String,
    pub value: Json,
}

/// A JSON document.
#[derive(Debug, PartialEq)]
pub enum Json {
    Null,
    Bool(bool),
    /// A non-negative integer.
    Unsigned(u64),
    /// An integer that may be negative.
    Signed(i64),
    /// Any other number.
    Real(serde_json::Number),
    Text(String),
    Array(Vec<Json>),
    /// Members in the order they were written; where a key occurs twice the
    /// later member counts.
    Object(Vec<Member>),
}

/// The document that a [`Json`] denotes.
pub enum JsonValue {
    Null,
    Bool(bool),
    Integer(int),
    Real(serde_json::Number),
    Text(Seq<char>),
    Array(Seq<JsonValue>),
    /// The members as pairs of key and value, in order.
    Object(Seq<(Seq<char>, JsonValue)>),
}

/// The documents that a sequence of trees denotes, one by one.
pub open spec fn array_model(items: Seq<Json>) -> Seq<JsonValue>
    decreases items, 0int,
{
    Seq::new(
        items.len(),
        |i: int|
            if 0 <= i < items.len() {
                items[i]@
            } else {
                JsonValue::Null
            },
    )
}

/// The members that a sequence of members denotes, one by one.
pub open spec fn object_model(members: Seq<Member>) -> Seq<(Seq<char>, JsonValue)>
    decreases members, 0int,
{
    Seq::new(
        members.len(),
        |i: int|
            if 0 <= i < members.len() {
                (members[i].key@, members[i].value@)
            } else {
                (Seq::empty(), JsonValue::Null)
            },
    )
}

/// The value of the last of `members` that has the key `key`.
pub open spec fn lookup(members: Seq<(Seq<char>, JsonValue)>, key: Seq<char>) -> Option<JsonValue>
    decreases members.len(),
{
    if members.len() == 0 {
        None
    } else if members.last().0 == key {
        Some(members.last().1)
    } else {
        lookup(members.drop_last(), key)
    }
}

impl View for Json {
    type V = JsonValue;

    open spec fn view(&self) -> JsonValue
        decreases self, 1int,
    {
        match self {
            Json::Null => JsonValue::Null,
            Json::Bool(b) => JsonValue::Bool(*b),
            Json::Unsigned(n) => JsonValue::Integer(*n as int),
            Json::Signed(n) => JsonValue::Integer(*n as int),
            Json::Real(n) => JsonValue::Real(*n),
            Json::Text(s) => JsonValue::Text(s@),
            Json::Array(items) => JsonValue::Array(array_model(items@)),
            Json::Object(members) => JsonValue::Object(object_model(members@)),
        }
    }
}

impl Clone for Member {
    fn clone(&self) -> (r: Self)
        ensures
            r.key@ == self.key@,
            r.value@ == self.value@,
    {
        Member { key: self.key.clone(), value: self.value.duplicate() }
    }
}

impl Clone for Json {
    fn clone(&self) -> (r: Self)
        ensures
            r@ == self@,
    {
        self.duplicate()
    }
}

impl JsonValue {
    /// The value under `key`, where this is an object that has the key: that
    /// of the last member with the key.
    pub open spec fn member(self, key: Seq<char>) -> Option<JsonValue> {
        match self {
            JsonValue::Object(members) => lookup(members, key),
            _ => None,
        }
    }

    /// The elements, where this is an array.
    pub open spec fn elements(self) -> Option<Seq<JsonValue>> {
        match self {
            JsonValue::Array(items) => Some(items),
            _ => None,
        }
    }

    /// The characters, where this is a string.
    pub open spec fn text(self) -> Option<Seq<char>> {
        match self {
            JsonValue::Text(s) => Some(s),
            _ => None,
        }
    }

    /// The number, where this is an integer from 0 to 2^64 - 1.
    pub open spec fn unsigned(self) -> Option<u64> {
        match self {
            JsonValue::Integer(n) => if 0 <= n <= u64::MAX {
                Some(n as u64)
            } else {
                None
            },
            _ => None,
        }
    }
}

/// One more member at the end is one more pair at the end.
pub proof fn lemma_object_model_push(members: Seq<Member>, last: Member)
    ensures
        object_model(members.push(last)) == object_model(members).push((last.key@, last.value@)),
{
    assert(object_model(members.push(last)) =~= object_model(members).push(
        (last.key@, last.value@),
    ));
}

/// Adding one more tree at the end adds the document it denotes.
pub proof fn lemma_array_model_push(items: Seq<Json>, last: Json)
    ensures
        array_model(items.push(last)) == array_model(items).push(last@),
{
    assert(array_model(items.push(last)) =~= array_model(items).push(last@));
}

/// What `serde_json::from_str` reads from a text: the document, or nothing
/// where the text is no single JSON value.
pub uninterp spec fn parsed(text: Seq<char>) -> Option<JsonValue>;

/// The compact text that `serde_json::to_string` writes for a document, or
/// nothing where it refuses one.
pub uninterp spec fn rendered(doc: JsonValue) -> Option<Seq<char>>;

/// Turns a `serde_json::Number` into the tree's three kinds of number: what
/// `as_u64` gives, else what `as_i64` gives, else the number itself.
#[verifier::external_body]
fn number_of(n: serde_json::Number) -> Json {
    match (n.as_u64(), n.as_i64()) {
        (Some(u), _) => Json::Unsigned(u),
        (None, Some(i)) => Json::Signed(i),
        (None, None) => Json::Real(n),
    }
}

/// Turns a `serde_json::Value` into a tree, variant by variant; the members
/// of an object come in the order in which its map hands them out.
#[verifier::external_body]
fn json_of(value: serde_json::Value) -> Json {
    match value {
        serde_json::Value::Null => Json::Null,
        serde_json::Value::Bool(b) => Json::Bool(b),
        serde_json::Value::Number(n) => number_of(n),
        serde_json::Value::String(s) => Json::Text(s),
        serde_json::Value::Array(items) => Json::Array(items.into_iter().map(json_of).collect()),
        serde_json::Value::Object(members) => Json::Object(
            members.into_iter().map(|(key, value)| Member { key, value: json_of(value) }).collect(),
        ),
    }
}

/// Turns a tree into a `serde_json::Value`, variant by variant; the members
/// of an object are written into its map in order, so a later one replaces an
/// earlier one of the same key.
#[verifier::external_body]
fn value_of(doc: &Json) -> serde_json::Value {
    match doc {
        Json::Null => serde_json::Value::Null,
        Json::Bool(b) => serde_json::Value::Bool(*b),
        Json::Unsigned(n) => serde_json::Value::Number((*n).into()),
        Json::Signed(n) => serde_json::Value::Number((*n).into()),
        Json::Real(n) => serde_json::Value::Number(n.clone()),
        Json::Text(s) => serde_json::Value::String(s.clone()),
        Json::Array(items) => serde_json::Value::Array(items.iter().map(value_of).collect()),
        Json::Object(members) => serde_json::Value::Object(
            members.iter().map(|m| (m.key.clone(), value_of(&m.value))).collect(),
        ),
    }
}

/// `serde_json::from_str` at `serde_json::Value`, with the value turned into
/// a tree. The contract claims only that what is read depends on the text
/// alone: it is `parsed` of the text.
#[verifier::external_body]
fn read_document(text: &str) -> (r: Result<Json, serde_json::Error>)
    ensures
        match r {
            Ok(doc) => parsed(text@) == Some(doc@),
            Err(_) => parsed(text@) is None,
        },
{
    serde_json::from_str::<serde_json::Value>(text).map(json_of)
}

/// `serde_json::to_string` on the tree turned into a `serde_json::Value`.
/// The contract claims only that what is written depends on the document
/// alone: it is `rendered` of the document.
#[verifier::external_body]
fn write_document(doc: &Json) -> (r: Result<String, serde_json::Error>)
    ensures
        match r {
            Ok(text) => rendered(doc@) == Some(text@),
            Err(_) => rendered(doc@) is None,
        },
{
    serde_json::to_string(&value_of(doc))
}

/// A failure to read or to write JSON text, with what `serde_json` said of
/// it.
#[derive(Debug)]
pub enum JsonError {
    /// The text is no single JSON value.
    Unreadable(serde_json::Error),
    /// The document cannot be written as text.
    Unwritable(serde_json::Error),
}

impl Json {
    /// Reads one JSON value from `text`.
    pub fn parse(text: &str) -> (r: Result<Json, JsonError>)
        ensures
            match r {
                Ok(doc) => parsed(text@) == Some(doc@),
                Err(error) => parsed(text@) is None && error is Unreadable,
            },
    {
        match read_document(text) {
            Ok(doc) => Ok(doc),
            Err(cause) => Err(JsonError::Unreadable(cause)),
        }
    }

    /// Writes the document as compact JSON text.
    pub fn to_text(&self) -> (r: Result<String, JsonError>)
        ensures
            match r {
                Ok(text) => rendered(self@) == Some(text@),
                Err(error) => rendered(self@) is None && error is Unwritable,
            },
    {
        match write_document(self) {
            Ok(text) => Ok(text),
            Err(cause) => Err(JsonError::Unwritable(cause)),
        }
    }

    /// The value under `key` of an object; nothing for a missing key or for
    /// a document that is no object.
    pub fn get(&self, key: &str) -> (r: Option<&Json>)
        ensures
            match r {
                Some(value) => self@.member(key@) == Some(value@),
                None => self@.member(key@) is None,
            },
    {
        match self {
            Json::Object(members) => find(members, key),
            _ => None,
        }
    }

    /// The elements of an array; nothing for any other document.
    pub fn as_array(&self) -> (r: Option<&Vec<Json>>)
        ensures
            match r {
                Some(items) => self@.elements() == Some(array_model(items@)),
                None => self@.elements() is None,
            },
    {
        match self {
            Json::Array(items) => Some(items),
            _ => None,
        }
    }

    /// The text of a string; nothing for any other document.
    pub fn as_str(&self) -> (r: Option<&str>)
        ensures
            match r {
                Some(s) => self@.text() == Some(s@),
                None => self@.text() is None,
            },
    {
        match self {
            Json::Text(s) => Some(s.as_str()),
            _ => None,
        }
    }

    /// The number of an integer from 0 to 2^64 - 1; nothing for any other
    /// document.
    pub fn as_u64(&self) -> (r: Option<u64>)
        ensures
            r == self@.unsigned(),
    {
        match self {
            Json::Unsigned(n) => Some(*n),
            Json::Signed(n) => if *n >= 0 {
                Some(*n as u64)
            } else {
                None
            },
            _ => None,
        }
    }

    /// Whether the document is `null`.
    pub fn is_null(&self) -> (r: bool)
        ensures
            r == (self@ == JsonValue::Null),
    {
        match self {
            Json::Null => true,
            _ => false,
        }
    }

    /// A second tree that denotes the same document.
    pub fn duplicate(&self) -> (r: Json)
        ensures
            r@ == self@,
        decreases self,
    {
        match self {
            Json::Null => Json::Null,
            Json::Bool(b) => Json::Bool(*b),
            Json::Unsigned(n) => Json::Unsigned(*n),
            Json::Signed(n) => Json::Signed(*n),
            Json::Real(n) => Json::Real(n.clone()),
            Json::Text(s) => Json::Text(s.clone()),
            Json::Array(items) => Json::Array(duplicate_items(items)),
            Json::Object(members) => Json::Object(duplicate_members(members)),
        }
    }
}

/// The value of the last member of `members` whose key is `key`.
fn find<'a>(members: &'a Vec<Member>, key: &str) -> (r: Option<&'a Json>)
    ensures
        match r {
            Some(value) => lookup(object_model(members@), key@) == Some(value@),
            None => lookup(object_model(members@), key@) is None,
        },
{
    let ghost pairs = object_model(members@);
    let mut i: usize = members.len();
    assert(pairs.take(i as int) =~= pairs);
    while i > 0
        invariant
            i <= members.len(),
            pairs == object_model(members@),
            lookup(pairs, key@) == lookup(pairs.take(i as int), key@),
        decreases i,
    {
        assert(pairs.take(i as int).drop_last() =~= pairs.take(i - 1));
        i -= 1;
        if str_eq(members[i].key.as_str(), key) {
            return Some(&members[i].value);
        }
    }
    None
}

/// Second trees for the elements of an array, in order.
fn duplicate_items(items: &Vec<Json>) -> (out: Vec<Json>)
    ensures
        array_model(out@) == array_model(items@),
    decreases items,
{
    let mut out: Vec<Json> = Vec::new();
    let mut i: usize = 0;
    while i < items.len()
        invariant
            i <= items.len(),
            array_model(out@) == array_model(items@.take(i as int)),
        decreases items.len() - i,
    {
        let copy = items[i].duplicate();
        proof {
            lemma_array_model_push(out@, copy);
            lemma_array_model_push(items@.take(i as int), items@[i as int]);
            assert(items@.take(i as int).push(items@[i as int]) =~= items@.take(i + 1));
        }
        out.push(copy);
        i += 1;
    }
    assert(items@.take(i as int) =~= items@);
    out
}

/// Second trees for the members of an object, in order.
fn duplicate_members(members: &Vec<Member>) -> (out: Vec<Member>)
    ensures
        object_model(out@) == object_model(members@),
    decreases members,
{
    let mut out: Vec<Member> = Vec::new();
    let mut i: usize = 0;
    while i < members.len()
        invariant
            i <= members.len(),
            object_model(out@) == object_model(members@.take(i as int)),
        decreases members.len() - i,
    {
        let copy = Member { key: members[i].key.clone(), value: members[i].value.duplicate() };
        proof {
            lemma_object_model_push(out@, copy);
            lemma_object_model_push(members@.take(i as int), members@[i as int]);
            assert(members@.take(i as int).push(members@[i as int]) =~= members@.take(i + 1));
        }
        out.push(copy);
        i += 1;
    }
    assert(members@.take(i as int) =~= members@);
    out
}

} // verus!
