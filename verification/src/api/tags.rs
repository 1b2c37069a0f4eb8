//! Tags of highlights: what a response says of them, and the set that
//! gathers them by name.

use crate::api::error::ReadwiseError;
use crate::api::types::types::Highlight;
use crate::api::types::types::PaginatedResponse;
use crate::json::array_model;
use crate::json::lemma_array_model_push;
use crate::json::lemma_object_model_push;
use crate::json::object_model;
use crate::json::parsed;
use crate::json::Json;
use crate::json::JsonError;
use crate::json::JsonValue;
use crate::json::Member;
use vstd::prelude::*;

verus! {

/// A tag as it is gathered: its name and its identifier.
#[derive(Debug, Clone, PartialEq, Eq)]
pub struct TagEntry {
    pub name: String,
    pub id: u64,
}

/// A tag as a pair of name and identifier.
pub type TagFact = (Seq<char>, u64);

/// The tags of `entries` as pairs, in order.
pub open spec fn facts(entries: Seq<TagEntry>) -> Seq<TagFact> {
    entries.map_values(|entry: TagEntry| (entry.name@, entry.id))
}

/// The tag that one element of a response stands for: it has a string under
/// `name` and an integer from 0 to 2^64 - 1 under `id`. Any other element
/// stands for none.
pub open spec fn tag_of(element: JsonValue) -> Option<TagFact> {
    match (element.member("name"@), element.member("id"@)) {
        (Some(name), Some(id)) => match (name.text(), id.unsigned()) {
            (Some(name), Some(id)) => Some((name, id)),
            _ => None,
        },
        _ => None,
    }
}

/// The tags that the elements stand for, in order; elements that stand for
/// none are passed over.
pub open spec fn tags_among(elements: Seq<JsonValue>) -> Seq<TagFact>
    decreases elements.len(),
{
    if elements.len() == 0 {
        Seq::empty()
    } else {
        let before = tags_among(elements.drop_last());
        match tag_of(elements.last()) {
            Some(tag) => before.push(tag),
            None => before,
        }
    }
}

/// The tags that the response to a request for one highlight's tags lists:
/// those among the elements of the array under `results`. A response
/// without such an array lists none.
pub open spec fn tags_listed(response: JsonValue) -> Seq<TagFact> {
    match response.member("results"@) {
        Some(JsonValue::Array(elements)) => tags_among(elements),
        _ => Seq::empty(),
    }
}

/// The map after the tags have been written into it in order: a tag
/// replaces an earlier one of the same name.
pub open spec fn absorb(tags: Map<Seq<char>, u64>, arriving: Seq<TagFact>) -> Map<Seq<char>, u64>
    decreases arriving.len(),
{
    if arriving.len() == 0 {
        tags
    } else {
        absorb(tags, arriving.drop_last()).insert(arriving.last().0, arriving.last().1)
    }
}

/// The tag that `element` stands for.
fn read_tag(element: &Json) -> (tag: Option<TagEntry>)
    ensures
        match tag {
            Some(entry) => tag_of(element@) == Some((entry.name@, entry.id)),
            None => tag_of(element@) is None,
        },
{
    let name = match element.get("name") {
        Some(value) => value.as_str(),
        None => None,
    };
    let id = match element.get("id") {
        Some(value) => value.as_u64(),
        None => None,
    };
    match (name, id) {
        (Some(name), Some(id)) => Some(TagEntry { name: name.to_owned(), id }),
        _ => None,
    }
}

/// The tags that a response lists, in the order of the response.
pub fn extract_tags(response: &Json) -> (entries: Vec<TagEntry>)
    ensures
        facts(entries@) == tags_listed(response@),
{
    let mut entries: Vec<TagEntry> = Vec::new();
    let elements = match response.get("results") {
        Some(results) => results.as_array(),
        None => None,
    };
    match elements {
        Some(elements) => {
            let mut i: usize = 0;
            while i < elements.len()
                invariant
                    i <= elements.len(),
                    facts(entries@) == tags_among(array_model(elements@).take(i as int)),
                decreases elements.len() - i,
            {
                assert(array_model(elements@).take(i + 1).drop_last() =~= array_model(
                    elements@,
                ).take(i as int));
                match read_tag(&elements[i]) {
                    Some(entry) => {
                        assert(facts(entries@.push(entry)) =~= facts(entries@).push(
                            (entry.name@, entry.id),
                        ));
                        entries.push(entry);
                    },
                    None => {},
                }
                i += 1;
            }
            assert(array_model(elements@).take(i as int) =~= array_model(elements@));
            entries
        },
        None => {
            assert(facts(entries@) =~= Seq::empty());
            entries
        },
    }
}

/// `entries` holds `tags`, one entry for each name.
pub open spec fn represents(entries: Seq<TagEntry>, tags: Map<Seq<char>, u64>) -> bool {
    &&& forall|i: int, j: int|
        0 <= i < j < entries.len() ==> entries[i].name@ != entries[j].name@
    &&& forall|i: int|
        0 <= i < entries.len() ==> tags.dom().contains(#[trigger] entries[i].name@)
            && tags[entries[i].name@] == entries[i].id
    &&& forall|name: Seq<char>|
        tags.dom().contains(name) ==> exists|i: int| named_at(entries, i, name)
}

/// Entry `i` of `entries` has the name `name`.
pub open spec fn named_at(entries: Seq<TagEntry>, i: int, name: Seq<char>) -> bool {
    0 <= i < entries.len() && entries[i].name@ == name
}

/// Tags gathered by name. Names are compared exactly, case included; a tag
/// that arrives under a name already held replaces the one held.
///
/// The set keeps one entry for each name. In what order it keeps them, and
/// gives them out, is not promised.
pub struct TagSet {
    entries: Vec<TagEntry>,
    tags: Ghost<Map<Seq<char>, u64>>,
}

impl View for TagSet {
    type V = Map<Seq<char>, u64>;

    /// The identifier held under each name.
    closed spec fn view(&self) -> Map<Seq<char>, u64> {
        self.tags@
    }
}

impl TagSet {
    #[verifier::type_invariant]
    spec fn held_once(self) -> bool {
        represents(self.entries@, self.tags@)
    }

    /// The set without tags.
    pub fn new() -> (set: Self)
        ensures
            set@ == Map::<Seq<char>, u64>::empty(),
    {
        TagSet { entries: Vec::new(), tags: Ghost(Map::empty()) }
    }

    /// The set with `id` held under `name`; every other name keeps what it
    /// had.
    pub fn insert(self, name: String, id: u64) -> (set: Self)
        ensures
            set@ == self@.insert(name@, id),
    {
        proof {
            use_type_invariant(&self);
        }
        let ghost before = self.entries@;
        let ghost tags = self.tags@;
        let mut entries = self.entries;
        let mut i: usize = 0;
        while i < entries.len()
            invariant
                i <= entries.len(),
                entries@ == before,
                tags == self@,
                represents(before, tags),
                forall|j: int| 0 <= j < i ==> before[j].name@ != name@,
            decreases entries.len() - i,
        {
            if entries[i].name == name {
                entries.set(i, TagEntry { name, id });
                proof {
                    let after = entries@;
                    let held = tags.insert(name@, id);
                    assert(forall|j: int| 0 <= j < after.len() ==> after[j].name@ == before[j].name@);
                    assert forall|n: Seq<char>| held.dom().contains(n) implies exists|k: int|
                        named_at(after, k, n) by {
                        if n == name@ {
                            assert(named_at(after, i as int, n));
                        } else {
                            let k = choose|k: int| named_at(before, k, n);
                            assert(named_at(after, k, n));
                        }
                    }
                }
                return TagSet { entries, tags: Ghost(tags.insert(name@, id)) };
            }
            i += 1;
        }
        proof {
            let entry = TagEntry { name, id };
            let after = before.push(entry);
            let held = tags.insert(name@, id);
            assert forall|n: Seq<char>| held.dom().contains(n) implies exists|k: int|
                named_at(after, k, n) by {
                if n == name@ {
                    assert(named_at(after, before.len() as int, n));
                } else {
                    let k = choose|k: int| named_at(before, k, n);
                    assert(named_at(after, k, n));
                }
            }
            assert forall|j: int| 0 <= j < before.len() implies before[j].name@ != name@ by {}
        }
        entries.push(TagEntry { name, id });
        TagSet { entries, tags: Ghost(tags.insert(name@, id)) }
    }

    /// The set after `arriving` has been written into it in order.
    pub fn absorb(self, arriving: Vec<TagEntry>) -> (set: Self)
        ensures
            set@ == absorb(self@, facts(arriving@)),
    {
        let mut set = self;
        let mut i: usize = 0;
        while i < arriving.len()
            invariant
                i <= arriving.len(),
                set@ == absorb(self@, facts(arriving@).take(i as int)),
            decreases arriving.len() - i,
        {
            assert(facts(arriving@).take(i + 1).drop_last() =~= facts(arriving@).take(i as int));
            set = set.insert(arriving[i].name.clone(), arriving[i].id);
            i += 1;
        }
        assert(facts(arriving@).take(i as int) =~= facts(arriving@));
        set
    }

    /// The number of names held.
    pub fn len(&self) -> (n: usize)
        ensures
            n == self@.dom().len(),
            self@.dom().finite(),
    {
        proof {
            use_type_invariant(self);
            lemma_represents_counts(self.entries@, self.tags@);
        }
        self.entries.len()
    }

    /// The identifier held under `name`.
    pub fn get(&self, name: &str) -> (id: Option<u64>)
        ensures
            id == (if self@.dom().contains(name@) {
                Some(self@[name@])
            } else {
                None
            }),
    {
        proof {
            use_type_invariant(self);
        }
        let mut i: usize = 0;
        while i < self.entries.len()
            invariant
                i <= self.entries.len(),
                represents(self.entries@, self.tags@),
                forall|j: int| 0 <= j < i ==> self.entries@[j].name@ != name@,
            decreases self.entries.len() - i,
        {
            if crate::text::str_eq(self.entries[i].name.as_str(), name) {
                return Some(self.entries[i].id);
            }
            i += 1;
        }
        proof {
            if self.tags@.dom().contains(name@) {
                let k = choose|k: int| named_at(self.entries@, k, name@);
                assert(false);
            }
        }
        None
    }

    /// The tags held, one entry for each name. Their order is not promised.
    pub fn into_entries(self) -> (entries: Vec<TagEntry>)
        ensures
            represents(entries@, self@),
    {
        proof {
            use_type_invariant(&self);
        }
        self.entries
    }
}

/// Entries that hold a map are as many as the map has names.
pub proof fn lemma_represents_counts(entries: Seq<TagEntry>, tags: Map<Seq<char>, u64>)
    requires
        represents(entries, tags),
    ensures
        tags.dom().finite(),
        tags.dom().len() == entries.len(),
    decreases entries.len(),
{
    if entries.len() == 0 {
        assert forall|name: Seq<char>| !tags.dom().contains(name) by {
            if tags.dom().contains(name) {
                let k = choose|k: int| named_at(entries, k, name);
                assert(false);
            }
        }
        assert(tags.dom() =~= Set::empty());
    } else {
        let last = entries.last();
        let rest = entries.drop_last();
        let fewer = tags.remove(last.name@);
        assert forall|name: Seq<char>| fewer.dom().contains(name) implies exists|i: int|
            named_at(rest, i, name) by {
            let k = choose|k: int| named_at(entries, k, name);
            assert(named_at(rest, k, name));
        }
        assert(represents(rest, fewer));
        lemma_represents_counts(rest, fewer);
        assert(tags.dom() =~= fewer.dom().insert(last.name@));
    }
}

/// The size of the pages that a tag aggregation asks for unless told
/// otherwise.
pub const TAG_PAGE_SIZE: usize = 100;

/// The identifiers of the highlights that have one, in order.
pub open spec fn highlight_ids(highlights: Seq<Highlight>) -> Seq<u64>
    decreases highlights.len(),
{
    if highlights.len() == 0 {
        Seq::empty()
    } else {
        let before = highlight_ids(highlights.drop_last());
        match highlights.last().id {
            Some(id) => before.push(id),
            None => before,
        }
    }
}

/// What a tag aggregation is waiting for.
#[derive(Debug, Clone, Copy, PartialEq, Eq, Structural)]
pub enum Phase {
    /// A page of highlights.
    AwaitingPage,
    /// The tags of one highlight of the current page.
    AwaitingTags,
    /// Nothing: every page and every highlight has been dealt with.
    Finished,
}

/// A request that a tag aggregation asks its caller to make.
#[derive(Debug, Clone, Copy, PartialEq, Eq, Structural)]
pub enum TagRequest {
    /// One page of highlights.
    Page { page_size: usize, page: usize },
    /// The tags of one highlight.
    Tags { highlight_id: u64 },
}

/// The state of a tag aggregation.
pub struct Aggregation {
    pub phase: Phase,
    pub page_size: usize,
    /// The number of the page that is awaited or being worked on, from 1.
    pub page: usize,
    /// The highlights of the current page whose tags are still to be asked
    /// for, the next one first.
    pub pending: Seq<u64>,
    /// Whether the current page named a next page.
    pub more_pages: bool,
    pub tags: Map<Seq<char>, u64>,
}

impl Aggregation {
    /// The state before the first request: page 1 is awaited and no tag is
    /// held.
    pub open spec fn start(page_size: usize) -> Aggregation {
        Aggregation {
            phase: Phase::AwaitingPage,
            page_size,
            page: 1,
            pending: Seq::empty(),
            more_pages: false,
            tags: Map::empty(),
        }
    }

    /// The request to make in this state, if any.
    pub open spec fn request(self) -> Option<TagRequest> {
        match self.phase {
            Phase::AwaitingPage => Some(
                TagRequest::Page { page_size: self.page_size, page: self.page },
            ),
            Phase::AwaitingTags => if self.pending.len() > 0 {
                Some(TagRequest::Tags { highlight_id: self.pending[0] })
            } else {
                None
            },
            Phase::Finished => None,
        }
    }

    /// The state once no highlight of the current page is pending: the next
    /// page is awaited where the current one named one and the page number
    /// can still grow; else the aggregation has finished.
    pub open spec fn page_done(self) -> Aggregation {
        if self.more_pages && self.page < usize::MAX {
            Aggregation {
                phase: Phase::AwaitingPage,
                page: (self.page + 1) as usize,
                pending: Seq::empty(),
                more_pages: false,
                ..self
            }
        } else {
            Aggregation {
                phase: Phase::Finished,
                pending: Seq::empty(),
                more_pages: false,
                ..self
            }
        }
    }

    /// The state after a page of highlights has arrived. A page without
    /// items ends the aggregation. Otherwise the highlights that have an
    /// identifier become pending, in order; one without is passed over. A
    /// page that arrives when none is awaited changes nothing.
    pub open spec fn on_page(self, response: PaginatedResponse<Highlight>) -> Aggregation {
        if self.phase != Phase::AwaitingPage {
            self
        } else if !response.has_items() {
            Aggregation { phase: Phase::Finished, ..self }
        } else {
            let loaded = Aggregation {
                pending: highlight_ids(response.items()),
                more_pages: response.next is Some,
                ..self
            };
            if loaded.pending.len() == 0 {
                loaded.page_done()
            } else {
                Aggregation { phase: Phase::AwaitingTags, ..loaded }
            }
        }
    }

    /// The state after the tags of the next pending highlight have arrived:
    /// the tags listed are written into the set in order, and the highlight
    /// is no longer pending. Tags that arrive when none are awaited change
    /// nothing.
    pub open spec fn on_tags(self, response: JsonValue) -> Aggregation {
        if self.phase != Phase::AwaitingTags || self.pending.len() == 0 {
            self
        } else {
            let absorbed = Aggregation {
                tags: absorb(self.tags, tags_listed(response)),
                pending: self.pending.drop_first(),
                ..self
            };
            if absorbed.pending.len() == 0 {
                absorbed.page_done()
            } else {
                absorbed
            }
        }
    }
}

/// The identifiers of the highlights that have one, in order.
fn collect_ids(highlights: &Vec<Highlight>) -> (ids: Vec<u64>)
    ensures
        ids@ == highlight_ids(highlights@),
{
    let mut ids: Vec<u64> = Vec::new();
    let mut i: usize = 0;
    while i < highlights.len()
        invariant
            i <= highlights.len(),
            ids@ == highlight_ids(highlights@.take(i as int)),
        decreases highlights.len() - i,
    {
        assert(highlights@.take(i + 1).drop_last() =~= highlights@.take(i as int));
        match highlights[i].id {
            Some(id) => {
                ids.push(id);
            },
            None => {},
        }
        i += 1;
    }
    assert(highlights@.take(i as int) =~= highlights@);
    ids
}

/// A tag aggregation in progress.
///
/// The aggregation makes no request itself. It says which request to make
/// next, takes what came back, and holds the tags gathered so far. Its
/// caller makes one request at a time and hands each answer over before it
/// asks for the next request; when a request fails the caller drops the
/// aggregation, and nothing gathered is given out.
pub struct TagAggregator {
    phase: Phase,
    page_size: usize,
    page: usize,
    ids: Vec<u64>,
    cursor: usize,
    more_pages: bool,
    tags: TagSet,
}

impl View for TagAggregator {
    type V = Aggregation;

    closed spec fn view(&self) -> Aggregation {
        Aggregation {
            phase: self.phase,
            page_size: self.page_size,
            page: self.page,
            pending: self.ids@.skip(self.cursor as int),
            more_pages: self.more_pages,
            tags: self.tags@,
        }
    }
}

impl TagAggregator {
    #[verifier::type_invariant]
    spec fn consistent(self) -> bool {
        &&& self.cursor <= self.ids@.len()
        &&& self.phase == Phase::AwaitingTags ==> self.cursor < self.ids@.len()
        &&& self.phase != Phase::AwaitingTags ==> self.cursor == self.ids@.len()
    }

    /// An aggregation that asks for pages of `TAG_PAGE_SIZE` highlights.
    pub fn new() -> (aggregator: Self)
        ensures
            aggregator@ == Aggregation::start(TAG_PAGE_SIZE),
    {
        Self::with_page_size(TAG_PAGE_SIZE)
    }

    /// An aggregation that asks for pages of `page_size` highlights.
    pub fn with_page_size(page_size: usize) -> (aggregator: Self)
        ensures
            aggregator@ == Aggregation::start(page_size),
    {
        let aggregator = TagAggregator {
            phase: Phase::AwaitingPage,
            page_size,
            page: 1,
            ids: Vec::new(),
            cursor: 0,
            more_pages: false,
            tags: TagSet::new(),
        };
        assert(aggregator@.pending =~= Seq::empty());
        aggregator
    }

    /// The request to make next; none once the aggregation has finished.
    pub fn request(&self) -> (request: Option<TagRequest>)
        ensures
            request == self@.request(),
    {
        proof {
            use_type_invariant(self);
        }
        match self.phase {
            Phase::AwaitingPage => Some(
                TagRequest::Page { page_size: self.page_size, page: self.page },
            ),
            Phase::AwaitingTags => Some(TagRequest::Tags { highlight_id: self.ids[self.cursor] }),
            Phase::Finished => None,
        }
    }

    /// Whether every page and every highlight has been dealt with.
    pub fn is_finished(&self) -> (finished: bool)
        ensures
            finished == (self@.phase == Phase::Finished),
    {
        match self.phase {
            Phase::Finished => true,
            _ => false,
        }
    }

    /// The aggregation after no highlight of the current page is pending.
    fn page_done(phase: Phase, page_size: usize, page: usize, more_pages: bool, tags: TagSet) -> (next:
        Self)
        ensures
            next@ == (Aggregation {
                phase,
                page_size,
                page,
                pending: Seq::empty(),
                more_pages,
                tags: tags@,
            }).page_done(),
    {
        let next = if more_pages && page < usize::MAX {
            TagAggregator {
                phase: Phase::AwaitingPage,
                page_size,
                page: page + 1,
                ids: Vec::new(),
                cursor: 0,
                more_pages: false,
                tags,
            }
        } else {
            TagAggregator {
                phase: Phase::Finished,
                page_size,
                page,
                ids: Vec::new(),
                cursor: 0,
                more_pages: false,
                tags,
            }
        };
        assert(next@.pending =~= Seq::empty());
        next
    }

    /// The aggregation after `response`, a page of highlights, has arrived.
    pub fn on_page(self, response: &PaginatedResponse<Highlight>) -> (next: Self)
        ensures
            next@ == self@.on_page(*response),
    {
        proof {
            use_type_invariant(&self);
        }
        match self.phase {
            Phase::AwaitingPage => {},
            _ => {
                return self;
            },
        }
        assert(self@.pending =~= Seq::empty());
        let ids = match &response.results {
            Some(results) => collect_ids(results),
            None => Vec::new(),
        };
        let has_items = match &response.results {
            Some(results) => results.len() > 0,
            None => false,
        };
        let more_pages = response.next.is_some();
        if !has_items {
            let next = TagAggregator {
                phase: Phase::Finished,
                page_size: self.page_size,
                page: self.page,
                ids: Vec::new(),
                cursor: 0,
                more_pages: self.more_pages,
                tags: self.tags,
            };
            assert(next@.pending =~= Seq::empty());
            next
        } else if ids.len() == 0 {
            Self::page_done(Phase::AwaitingPage, self.page_size, self.page, more_pages, self.tags)
        } else {
            let next = TagAggregator {
                phase: Phase::AwaitingTags,
                page_size: self.page_size,
                page: self.page,
                ids,
                cursor: 0,
                more_pages,
                tags: self.tags,
            };
            assert(next@.pending =~= highlight_ids(response.items()));
            next
        }
    }

    /// The aggregation after `response`, the tags of the next pending
    /// highlight, has arrived.
    pub fn on_tags(self, response: &Json) -> (next: Self)
        ensures
            next@ == self@.on_tags(response@),
    {
        proof {
            use_type_invariant(&self);
        }
        match self.phase {
            Phase::AwaitingTags => {},
            _ => {
                return self;
            },
        }
        let count = self.ids.len();
        let cursor = self.cursor + 1;
        let tags = self.tags.absorb(extract_tags(response));
        assert(self.ids@.skip(self.cursor as int).drop_first() =~= self.ids@.skip(cursor as int));
        if cursor == count {
            Self::page_done(Phase::AwaitingTags, self.page_size, self.page, self.more_pages, tags)
        } else {
            TagAggregator {
                phase: Phase::AwaitingTags,
                page_size: self.page_size,
                page: self.page,
                ids: self.ids,
                cursor,
                more_pages: self.more_pages,
                tags,
            }
        }
    }

    /// The aggregation after the body of a response with the tags of the
    /// next pending highlight has arrived. A body that is no JSON ends the
    /// aggregation: it is a malformed response.
    pub fn on_tags_body(self, body: &str) -> (outcome: Result<Self, ReadwiseError>)
        ensures
            match outcome {
                Ok(next) => parsed(body@) is Some && next@ == self@.on_tags(parsed(body@)->0),
                Err(error) => parsed(body@) is None && error is Malformed,
            },
    {
        match Json::parse(body) {
            Ok(response) => Ok(self.on_tags(&response)),
            Err(JsonError::Unreadable(cause)) => Err(ReadwiseError::Malformed(cause)),
            Err(JsonError::Unwritable(cause)) => Err(ReadwiseError::Malformed(cause)),
        }
    }

    /// The tags gathered, once the aggregation has finished: one entry for
    /// each name, in no promised order. Before that, nothing.
    pub fn finish(self) -> (gathered: Option<Vec<TagEntry>>)
        ensures
            match gathered {
                Some(entries) => self@.phase == Phase::Finished && represents(
                    entries@,
                    self@.tags,
                ),
                None => self@.phase != Phase::Finished,
            },
    {
        match self.phase {
            Phase::Finished => Some(self.tags.into_entries()),
            _ => None,
        }
    }
}

/// The document of one gathered tag: an object with its name under `name`
/// and then its identifier under `id`.
pub open spec fn tag_document(tag: TagFact) -> JsonValue {
    JsonValue::Object(
        seq![("name"@, JsonValue::Text(tag.0)), ("id"@, JsonValue::Integer(tag.1 as int))],
    )
}

/// The document of gathered tags: the array of their documents, in order.
pub open spec fn tag_documents(tags: Seq<TagFact>) -> JsonValue {
    JsonValue::Array(tags.map_values(|tag: TagFact| tag_document(tag)))
}

/// The document of the gathered tags `entries`.
pub fn tags_document(entries: &Vec<TagEntry>) -> (document: Json)
    ensures
        document@ == tag_documents(facts(entries@)),
{
    let mut items: Vec<Json> = Vec::new();
    let mut i: usize = 0;
    while i < entries.len()
        invariant
            i <= entries.len(),
            array_model(items@) == facts(entries@.take(i as int)).map_values(
                |tag: TagFact| tag_document(tag),
            ),
        decreases entries.len() - i,
    {
        let mut members: Vec<Member> = Vec::new();
        let name = Member { key: "name".to_owned(), value: Json::Text(entries[i].name.clone()) };
        proof {
            lemma_object_model_push(members@, name);
        }
        members.push(name);
        let id = Member { key: "id".to_owned(), value: Json::Unsigned(entries[i].id) };
        proof {
            lemma_object_model_push(members@, id);
        }
        members.push(id);
        let item = Json::Object(members);
        proof {
            let tag = (entries@[i as int].name@, entries@[i as int].id);
            assert(object_model(members@) =~= seq![
                ("name"@, JsonValue::Text(tag.0)),
                ("id"@, JsonValue::Integer(tag.1 as int)),
            ]);
            assert(item@ == tag_document(tag));
            lemma_array_model_push(items@, item);
            assert(array_model(items@).push(item@) =~= facts(entries@.take(i + 1)).map_values(
                |tag: TagFact| tag_document(tag),
            ));
        }
        items.push(item);
        i += 1;
    }
    assert(entries@.take(i as int) =~= entries@);
    Json::Array(items)
}

/// The identifier of the last of `arriving` that has the name `name`.
pub open spec fn last_id(arriving: Seq<TagFact>, name: Seq<char>) -> Option<u64>
    decreases arriving.len(),
{
    if arriving.len() == 0 {
        None
    } else if arriving.last().0 == name {
        Some(arriving.last().1)
    } else {
        last_id(arriving.drop_last(), name)
    }
}

/// After tags have been written into a map, a name holds the identifier of
/// the last arriving tag of that name; a name that no arriving tag has holds
/// what it held before.
pub proof fn lemma_absorb_keeps_last(
    tags: Map<Seq<char>, u64>,
    arriving: Seq<TagFact>,
    name: Seq<char>,
)
    ensures
        absorb(tags, arriving).dom().contains(name) <==> (last_id(arriving, name) is Some
            || tags.dom().contains(name)),
        last_id(arriving, name) matches Some(id) ==> absorb(tags, arriving)[name] == id,
        last_id(arriving, name) is None && tags.dom().contains(name) ==> absorb(
            tags,
            arriving,
        )[name] == tags[name],
    decreases arriving.len(),
{
    if arriving.len() > 0 {
        lemma_absorb_keeps_last(tags, arriving.drop_last(), name);
    }
}

/// Of two tags of one name that arrive one after the other, the second is
/// the one that stays: the name holds its identifier.
pub proof fn lemma_last_write_wins(tags: Map<Seq<char>, u64>, first: TagFact, second: TagFact)
    requires
        first.0 == second.0,
    ensures
        absorb(tags, seq![first, second]).dom().contains(second.0),
        absorb(tags, seq![first, second])[second.0] == second.1,
        absorb(tags, seq![first, second]) == tags.insert(second.0, second.1),
{
    let both = seq![first, second];
    assert(both.drop_last() =~= seq![first]);
    let one = seq![first];
    assert(one.drop_last() =~= Seq::<TagFact>::empty());
    assert(absorb(tags, one.drop_last()) == tags);
    assert(one.last() == first);
    assert(absorb(tags, one) == tags.insert(first.0, first.1));
    assert(both.last() == second);
    assert(absorb(tags, both) =~= tags.insert(second.0, second.1));
}

/// Writing the same tags a second time changes nothing: a replay of what
/// has arrived leaves the set as it is.
pub proof fn lemma_absorb_replay(tags: Map<Seq<char>, u64>, arriving: Seq<TagFact>)
    ensures
        absorb(absorb(tags, arriving), arriving) == absorb(tags, arriving),
{
    let once = absorb(tags, arriving);
    let twice = absorb(once, arriving);
    assert forall|name: Seq<char>| #[trigger]
        twice.dom().contains(name) == once.dom().contains(name) && (once.dom().contains(name)
            ==> twice[name] == once[name]) by {
        lemma_absorb_keeps_last(tags, arriving, name);
        lemma_absorb_keeps_last(once, arriving, name);
    }
    assert(twice =~= once);
}

/// Tags that arrive in two batches are written as if they had arrived in
/// one.
pub proof fn lemma_absorb_in_batches(
    tags: Map<Seq<char>, u64>,
    earlier: Seq<TagFact>,
    later: Seq<TagFact>,
)
    ensures
        absorb(absorb(tags, earlier), later) == absorb(tags, earlier + later),
    decreases later.len(),
{
    if later.len() == 0 {
        assert(earlier + later =~= earlier);
    } else {
        lemma_absorb_in_batches(tags, earlier, later.drop_last());
        assert((earlier + later).drop_last() =~= earlier + later.drop_last());
    }
}

/// A highlight without an identifier is asked about no tags: the pending
/// identifiers of a page are those of its highlights that have one, so they
/// are no more than the highlights, and none where no highlight has one.
pub proof fn lemma_highlights_without_id_are_skipped(highlights: Seq<Highlight>)
    ensures
        highlight_ids(highlights).len() <= highlights.len(),
        (forall|i: int| 0 <= i < highlights.len() ==> highlights[i].id is None) ==> highlight_ids(
            highlights,
        ).len() == 0,
        forall|id: u64|
            highlight_ids(highlights).contains(id) ==> exists|i: int|
                0 <= i < highlights.len() && highlights[i].id == Some(id),
    decreases highlights.len(),
{
    if highlights.len() > 0 {
        let before = highlights.drop_last();
        lemma_highlights_without_id_are_skipped(before);
        assert forall|id: u64| highlight_ids(highlights).contains(id) implies exists|i: int|
            0 <= i < highlights.len() && highlights[i].id == Some(id) by {
            if highlight_ids(before).contains(id) {
                let i = choose|i: int| 0 <= i < before.len() && before[i].id == Some(id);
                assert(highlights[i].id == Some(id));
            } else {
                assert(highlights[highlights.len() - 1].id == Some(id));
            }
        }
    }
}

/// A page of highlights without items, whatever else it says, ends the
/// aggregation; so does the last highlight of a page that names no next
/// page.
pub proof fn lemma_last_page_ends_aggregation(
    state: Aggregation,
    response: PaginatedResponse<Highlight>,
)
    requires
        state.phase == Phase::AwaitingPage,
        !response.has_items() || (response.next is None && highlight_ids(
            response.items(),
        ).len() == 0),
    ensures
        state.on_page(response).phase == Phase::Finished,
        state.on_page(response).request() is None,
        state.on_page(response).tags == state.tags,
{
}

} // verus!
