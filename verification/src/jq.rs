//! Projections: pure reshapings of a raw document into the document of one
//! kind of resource.
//!
//! A projection is a table. It names the key under which the projected
//! document holds its items, says where the raw document lists them, and
//! gives for each field of a projected item the field of the raw item that
//! it is taken from. Applying it fetches nothing and changes nothing: the
//! same raw document always gives the same projected document, and what the
//! table does not name is left out.

use crate::json::array_model;
use crate::json::lemma_array_model_push;
use crate::json::lemma_object_model_push;
use crate::json::object_model;
use crate::json::Json;
use crate::json::JsonValue;
use crate::json::Member;
use vstd::prelude::*;
use vstd::string::*;

verus! {

/// Where a raw document lists its items.
#[derive(Debug, Clone, Copy, PartialEq, Eq, Structural)]
pub enum Listing {
    /// Under `results` of an envelope. An envelope without `results`, or
    /// with `null` there, lists nothing.
    Results,
    /// The document is itself the array of items.
    Root,
}

/// One field of a projected item: it is taken from `source` of the raw
/// item, or from `fallback` where `source` is absent or `null`.
#[derive(Debug, Clone, Copy, PartialEq, Eq)]
pub struct FieldRule {
    pub target: &'static str,
    pub source: &'static str,
    pub fallback: Option<&'static str>,
}

/// A projection.
#[derive(Debug, Clone)]
pub struct JsonFilter {
    /// The key of the projected document.
    pub root: &'static str,
    pub listing: Listing,
    pub fields: Vec<FieldRule>,
}

/// Why a raw document cannot be projected.
#[derive(Debug, Clone, Copy, PartialEq, Eq, Structural)]
pub enum FilterError {
    /// The document lists its items in no way that the projection knows.
    UnexpectedInput,
    /// The item at this place is no object.
    UnexpectedItem(usize),
}

/// The rule that takes a field over under its own name.
pub open spec fn kept(name: &'static str) -> FieldRule {
    FieldRule { target: name, source: name, fallback: None }
}

/// The rules that take each of the fields over under its own name.
pub open spec fn kept_fields(names: Seq<&'static str>) -> Seq<FieldRule> {
    names.map_values(|name: &'static str| kept(name))
}

/// The fields of a highlight.
pub open spec fn highlight_fields() -> Seq<&'static str> {
    seq![
        "id",
        "title",
        "author",
        "category",
        "source",
        "num_highlights",
        "last_highlight_at",
        "updated",
        "cover_image_url",
        "highlights_url",
        "source_url",
        "modified_highlights",
        "text",
        "source_type",
        "note",
        "location",
        "location_type",
        "highlighted_at",
        "highlight_url",
    ]
}

/// The fields of a book.
pub open spec fn book_fields() -> Seq<&'static str> {
    seq![
        "id",
        "title",
        "author",
        "category",
        "source",
        "num_highlights",
        "last_highlight_at",
        "updated",
        "cover_image_url",
        "highlights_url",
        "source_url",
        "asin",
        "tags",
        "document_note",
    ]
}

/// The rules for a tag: its name, its number (`updated`, or `id` where
/// there is no `updated`), and its count.
pub open spec fn tag_rules() -> Seq<FieldRule> {
    seq![
        kept("name"),
        FieldRule { target: "updated", source: "updated", fallback: Some("id") },
        kept("count"),
    ]
}

/// The value of a raw item under `key`, where it has one that is not `null`.
pub open spec fn present(item: JsonValue, key: Seq<char>) -> Option<JsonValue> {
    match item.member(key) {
        Some(value) => if value == JsonValue::Null {
            None
        } else {
            Some(value)
        },
        None => None,
    }
}

/// The value that a rule takes from a raw item, if any.
pub open spec fn picked(item: JsonValue, rule: FieldRule) -> Option<JsonValue> {
    match present(item, rule.source@) {
        Some(value) => Some(value),
        None => match rule.fallback {
            Some(fallback) => present(item, fallback@),
            None => None,
        },
    }
}

/// The members of the projected item: for each rule that takes a value, in
/// the order of the rules, the value under the rule's target.
pub open spec fn projected_members(item: JsonValue, rules: Seq<FieldRule>) -> Seq<
    (Seq<char>, JsonValue),
>
    decreases rules.len(),
{
    if rules.len() == 0 {
        Seq::empty()
    } else {
        let before = projected_members(item, rules.drop_last());
        match picked(item, rules.last()) {
            Some(value) => before.push((rules.last().target@, value)),
            None => before,
        }
    }
}

/// The projected item.
pub open spec fn projected_item(item: JsonValue, rules: Seq<FieldRule>) -> JsonValue {
    JsonValue::Object(projected_members(item, rules))
}

/// The items that a raw document lists, where it lists them in the way that
/// `listing` says.
pub open spec fn listed(listing: Listing, raw: JsonValue) -> Option<Seq<JsonValue>> {
    match listing {
        Listing::Root => raw.elements(),
        Listing::Results => match raw {
            JsonValue::Object(_) => match raw.member("results"@) {
                None => Some(Seq::empty()),
                Some(JsonValue::Null) => Some(Seq::empty()),
                Some(JsonValue::Array(items)) => Some(items),
                Some(_) => None,
            },
            _ => None,
        },
    }
}

/// The place of the first item that is no object, if there is one.
pub open spec fn first_misfit(items: Seq<JsonValue>) -> Option<int>
    decreases items.len(),
{
    if items.len() == 0 {
        None
    } else {
        match first_misfit(items.drop_last()) {
            Some(at) => Some(at),
            None => if items.last() is Object {
                None
            } else {
                Some(items.len() - 1)
            },
        }
    }
}

/// The document with the projected items: one object with the one key
/// `root`, under it one object with the one key `items`, under it the
/// items in the order of the raw document.
pub open spec fn wrapped(root: Seq<char>, items: Seq<JsonValue>) -> JsonValue {
    JsonValue::Object(seq![(root, JsonValue::Object(seq![("items"@, JsonValue::Array(items))]))])
}

impl JsonFilter {
    /// What the projection makes of a raw document.
    pub open spec fn apply(self, raw: JsonValue) -> Result<JsonValue, FilterError> {
        match listed(self.listing, raw) {
            None => Err(FilterError::UnexpectedInput),
            Some(items) => match first_misfit(items) {
                Some(at) => Err(FilterError::UnexpectedItem(at as usize)),
                None => Ok(
                    wrapped(
                        self.root@,
                        Seq::new(items.len(), |i: int| projected_item(items[i], self.fields@)),
                    ),
                ),
            },
        }
    }

    /// Projects `input`.
    pub fn filter_json(&self, input: Json) -> (output: Result<Json, FilterError>)
        ensures
            match output {
                Ok(document) => self.apply(input@) == Ok::<JsonValue, FilterError>(document@),
                Err(error) => self.apply(input@) == Err::<JsonValue, FilterError>(error),
            },
    {
        let empty: Vec<Json> = Vec::new();
        let items: &Vec<Json> = match self.listing {
            Listing::Root => match input.as_array() {
                Some(items) => items,
                None => {
                    return Err(FilterError::UnexpectedInput);
                },
            },
            Listing::Results => match &input {
                Json::Object(_) => match input.get("results") {
                    None => {
                        assert(array_model(empty@) =~= Seq::empty());
                        &empty
                    },
                    Some(results) => match results {
                        Json::Null => {
                            assert(array_model(empty@) =~= Seq::empty());
                            &empty
                        },
                        Json::Array(items) => items,
                        _ => {
                            return Err(FilterError::UnexpectedInput);
                        },
                    },
                },
                _ => {
                    return Err(FilterError::UnexpectedInput);
                },
            },
        };
        assert(listed(self.listing, input@) == Some(array_model(items@)));
        let ghost raw = array_model(items@);
        let mut projected: Vec<Json> = Vec::new();
        let mut i: usize = 0;
        while i < items.len()
            invariant
                i <= items.len(),
                raw == array_model(items@),
                listed(self.listing, input@) == Some(raw),
                first_misfit(raw.take(i as int)) is None,
                array_model(projected@) == Seq::new(
                    i as nat,
                    |k: int| projected_item(raw[k], self.fields@),
                ),
            decreases items.len() - i,
        {
            assert(raw.take(i + 1).drop_last() =~= raw.take(i as int));
            match &items[i] {
                Json::Object(_) => {
                    let item = project(&items[i], &self.fields);
                    proof {
                        lemma_array_model_push(projected@, item);
                        assert(array_model(projected@).push(item@) =~= Seq::new(
                            (i + 1) as nat,
                            |k: int| projected_item(raw[k], self.fields@),
                        ));
                    }
                    projected.push(item);
                },
                _ => {
                    proof {
                        assert(raw.take(i + 1).last() == items@[i as int]@);
                        assert(first_misfit(raw.take(i + 1)) == Some(i as int));
                        lemma_first_misfit_extends(raw, i as int + 1);
                    }
                    return Err(FilterError::UnexpectedItem(i));
                },
            }
            i += 1;
        }
        assert(raw.take(i as int) =~= raw);
        let mut inner: Vec<Member> = Vec::new();
        let ghost listed_items = array_model(projected@);
        let holder = Member { key: "items".to_owned(), value: Json::Array(projected) };
        proof {
            lemma_object_model_push(inner@, holder);
        }
        inner.push(holder);
        let mut outer: Vec<Member> = Vec::new();
        let top = Member { key: self.root.to_owned(), value: Json::Object(inner) };
        proof {
            lemma_object_model_push(outer@, top);
        }
        outer.push(top);
        let document = Json::Object(outer);
        assert(object_model(inner@) =~= seq![("items"@, JsonValue::Array(listed_items))]) by {
            assert(inner@ =~= seq![holder]);
        }
        assert(object_model(outer@) =~= seq![(self.root@, JsonValue::Object(object_model(inner@)))])
            by {
            assert(outer@ =~= seq![top]);
        }
        assert(document@ == wrapped(self.root@, listed_items));
        Ok(document)
    }
}

/// A misfit among the first items is a misfit among all of them.
pub proof fn lemma_first_misfit_extends(items: Seq<JsonValue>, upto: int)
    requires
        0 <= upto <= items.len(),
        first_misfit(items.take(upto)) is Some,
    ensures
        first_misfit(items) == first_misfit(items.take(upto)),
    decreases items.len() - upto,
{
    if upto < items.len() {
        assert(items.take(upto + 1).drop_last() =~= items.take(upto));
        lemma_first_misfit_extends(items, upto + 1);
    } else {
        assert(items.take(upto) =~= items);
    }
}

/// The projected item of `item`.
fn project(item: &Json, rules: &Vec<FieldRule>) -> (out: Json)
    ensures
        out@ == projected_item(item@, rules@),
{
    let mut members: Vec<Member> = Vec::new();
    let mut i: usize = 0;
    while i < rules.len()
        invariant
            i <= rules.len(),
            object_model(members@) == projected_members(item@, rules@.take(i as int)),
        decreases rules.len() - i,
    {
        assert(rules@.take(i + 1).drop_last() =~= rules@.take(i as int));
        let rule = rules[i];
        let mut value = take_present(item, rule.source);
        if value.is_none() {
            match rule.fallback {
                Some(fallback) => {
                    value = take_present(item, fallback);
                },
                None => {},
            }
        }
        match value {
            Some(value) => {
                let member = Member { key: rule.target.to_owned(), value };
                proof {
                    lemma_object_model_push(members@, member);
                }
                members.push(member);
            },
            None => {},
        }
        i += 1;
    }
    assert(rules@.take(i as int) =~= rules@);
    Json::Object(members)
}

/// A copy of the value of `item` under `key`, where it has one that is not
/// `null`.
fn take_present(item: &Json, key: &str) -> (value: Option<Json>)
    ensures
        match value {
            Some(copy) => present(item@, key@) == Some(copy@),
            None => present(item@, key@) is None,
        },
{
    match item.get(key) {
        Some(found) => if found.is_null() {
            None
        } else {
            Some(found.duplicate())
        },
        None => None,
    }
}

/// The rules that take each of `names` over under its own name.
fn keep_all(names: &[&'static str]) -> (rules: Vec<FieldRule>)
    ensures
        rules@ == kept_fields(names@),
{
    let mut rules: Vec<FieldRule> = Vec::new();
    let mut i: usize = 0;
    while i < names.len()
        invariant
            i <= names.len(),
            rules@ == kept_fields(names@.take(i as int)),
        decreases names.len() - i,
    {
        let name = names[i];
        rules.push(FieldRule { target: name, source: name, fallback: None });
        assert(rules@ =~= kept_fields(names@.take(i + 1)));
        i += 1;
    }
    assert(names@.take(i as int) =~= names@);
    rules
}

/// The projection of a page of highlights: under `highlights`, the items
/// with the fields of a highlight.
pub fn readwise() -> (filter: JsonFilter)
    ensures
        filter.root@ == "highlights"@,
        filter.listing == Listing::Results,
        filter.fields@ == kept_fields(highlight_fields()),
{
    let names = [
        "id",
        "title",
        "author",
        "category",
        "source",
        "num_highlights",
        "last_highlight_at",
        "updated",
        "cover_image_url",
        "highlights_url",
        "source_url",
        "modified_highlights",
        "text",
        "source_type",
        "note",
        "location",
        "location_type",
        "highlighted_at",
        "highlight_url",
    ];
    assert(names@ =~= highlight_fields());
    JsonFilter { root: "highlights", listing: Listing::Results, fields: keep_all(&names) }
}

/// The projection of a page of the list of books: under `books`, the items
/// with the fields of a book.
pub fn books() -> (filter: JsonFilter)
    ensures
        filter.root@ == "books"@,
        filter.listing == Listing::Results,
        filter.fields@ == kept_fields(book_fields()),
{
    let names = [
        "id",
        "title",
        "author",
        "category",
        "source",
        "num_highlights",
        "last_highlight_at",
        "updated",
        "cover_image_url",
        "highlights_url",
        "source_url",
        "asin",
        "tags",
        "document_note",
    ];
    assert(names@ =~= book_fields());
    JsonFilter { root: "books", listing: Listing::Results, fields: keep_all(&names) }
}

/// The projection of gathered tags: under `tags`, the items with the name,
/// the number and the count of a tag.
pub fn tags() -> (filter: JsonFilter)
    ensures
        filter.root@ == "tags"@,
        filter.listing == Listing::Root,
        filter.fields@ == tag_rules(),
{
    let mut fields: Vec<FieldRule> = Vec::new();
    fields.push(FieldRule { target: "name", source: "name", fallback: None });
    fields.push(FieldRule { target: "updated", source: "updated", fallback: Some("id") });
    fields.push(FieldRule { target: "count", source: "count", fallback: None });
    assert(fields@ =~= tag_rules());
    JsonFilter { root: "tags", listing: Listing::Root, fields }
}

} // verus!
