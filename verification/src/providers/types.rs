//! The kinds of resource that a URL can stand for.

use crate::text::str_eq;
use vstd::prelude::*;

verus! {

/// A kind of resource.
#[derive(Debug, Clone, Copy, PartialEq, Eq, Hash, Structural)]
pub enum ReadwiseType {
    Highlights,
    Booklist,
    Tags,
}

impl ReadwiseType {
    pub const HIGHLIGHTS_ID: &'static str = "readwise-highlights";

    pub const BOOKLIST_ID: &'static str = "readwise-booklist";

    pub const TAGS_ID: &'static str = "readwise-tags";

    /// The identifier of the kind, as a character sequence.
    pub open spec fn id(self) -> Seq<char> {
        match self {
            ReadwiseType::Highlights => "readwise-highlights"@,
            ReadwiseType::Booklist => "readwise-booklist"@,
            ReadwiseType::Tags => "readwise-tags"@,
        }
    }

    /// The key under which a projected document holds the items of this kind.
    pub open spec fn root(self) -> Seq<char> {
        match self {
            ReadwiseType::Highlights => "highlights"@,
            ReadwiseType::Booklist => "books"@,
            ReadwiseType::Tags => "tags"@,
        }
    }

    /// The kind that `id` identifies, where it identifies one.
    pub open spec fn of_id(id: Seq<char>) -> Option<ReadwiseType> {
        if id == ReadwiseType::Highlights.id() {
            Some(ReadwiseType::Highlights)
        } else if id == ReadwiseType::Booklist.id() {
            Some(ReadwiseType::Booklist)
        } else if id == ReadwiseType::Tags.id() {
            Some(ReadwiseType::Tags)
        } else {
            None
        }
    }

    /// The identifier of the kind.
    pub fn as_str(&self) -> (id: &'static str)
        ensures
            id@ == self.id(),
    {
        match self {
            ReadwiseType::Highlights => Self::HIGHLIGHTS_ID,
            ReadwiseType::Booklist => Self::BOOKLIST_ID,
            ReadwiseType::Tags => Self::TAGS_ID,
        }
    }

    /// The kind that `id` identifies: the inverse of `as_str`, and nothing
    /// for any other text.
    pub fn from_id(id: &str) -> (kind: Option<ReadwiseType>)
        ensures
            kind == ReadwiseType::of_id(id@),
    {
        if str_eq(id, Self::HIGHLIGHTS_ID) {
            Some(ReadwiseType::Highlights)
        } else if str_eq(id, Self::BOOKLIST_ID) {
            Some(ReadwiseType::Booklist)
        } else if str_eq(id, Self::TAGS_ID) {
            Some(ReadwiseType::Tags)
        } else {
            None
        }
    }

    /// The key under which a projected document holds the items of this kind.
    pub fn root_key(&self) -> (key: &'static str)
        ensures
            key@ == self.root(),
    {
        match self {
            ReadwiseType::Highlights => "highlights",
            ReadwiseType::Booklist => "books",
            ReadwiseType::Tags => "tags",
        }
    }
}

} // verus!
