//! The providers of this connector, in the order in which they are declared.

use crate::providers::provider::Provider;
use crate::providers::types::ReadwiseType;
use vstd::prelude::*;

verus! {

/// The declared providers as a sequence.
pub open spec fn registry() -> Seq<Provider> {
    seq![
        Provider {
            id: "readwise-highlights",
            brand: "Readwise",
            url: "https://readwise.io/highlights",
        },
        Provider { id: "readwise-booklist", brand: "Readwise", url: "https://readwise.io/books" },
        Provider { id: "readwise-tags", brand: "Readwise", url: "https://readwise.io/tags" },
    ]
}

/// The provider of highlights.
pub fn readwise_highlights() -> (provider: Provider)
    ensures
        provider == registry()[0],
{
    Provider {
        id: ReadwiseType::HIGHLIGHTS_ID,
        brand: "Readwise",
        url: "https://readwise.io/highlights",
    }
}

/// The provider of the list of books.
pub fn readwise_booklist() -> (provider: Provider)
    ensures
        provider == registry()[1],
{
    Provider { id: ReadwiseType::BOOKLIST_ID, brand: "Readwise", url: "https://readwise.io/books" }
}

/// The provider of tags.
pub fn readwise_tags() -> (provider: Provider)
    ensures
        provider == registry()[2],
{
    Provider { id: ReadwiseType::TAGS_ID, brand: "Readwise", url: "https://readwise.io/tags" }
}

/// The declared providers, in order.
pub fn url_prefix_to_provider() -> (table: Vec<Provider>)
    ensures
        table@ == registry(),
{
    let mut table: Vec<Provider> = Vec::new();
    table.push(readwise_highlights());
    table.push(readwise_booklist());
    table.push(readwise_tags());
    assert(table@ =~= registry());
    table
}

/// No declared prefix is the start of another, so a URL starts with at most
/// one of them: the provider it resolves to is the only one that matches.
pub proof fn lemma_declared_prefixes_do_not_overlap(url: Seq<char>, first: int, second: int)
    requires
        0 <= first < registry().len(),
        0 <= second < registry().len(),
        registry()[first].matches(url),
        registry()[second].matches(url),
    ensures
        first == second,
{
    reveal_strlit("https://readwise.io/highlights");
    reveal_strlit("https://readwise.io/books");
    reveal_strlit("https://readwise.io/tags");
    let highlights = "https://readwise.io/highlights"@;
    let books = "https://readwise.io/books"@;
    let tags = "https://readwise.io/tags"@;
    if registry()[0].matches(url) {
        assert(url.subrange(0, highlights.len() as int)[20] == highlights[20]);
    }
    if registry()[1].matches(url) {
        assert(url.subrange(0, books.len() as int)[20] == books[20]);
    }
    if registry()[2].matches(url) {
        assert(url.subrange(0, tags.len() as int)[20] == tags[20]);
    }
}

} // verus!
