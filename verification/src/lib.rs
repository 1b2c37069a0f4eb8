//! A connector for Readwise: from a URL to the provider that serves it, to
//! the requests that fetch its data, to the documents that are written out.

use vstd::prelude::*;

pub mod api;
pub mod jq;
pub mod json;
pub mod output;
pub mod providers;
pub mod text;

pub use providers::Provider;

use providers::provider::resolve_index;
use providers::provider::resolves_to;
use providers::provider::unresolved;
use providers::readwise::registry;
use providers::readwise::url_prefix_to_provider;

verus! {

/// The declared provider for `url`: the one whose prefix is the longest that
/// `url` starts with; nothing where `url` starts with no declared prefix.
pub fn find_engine_for(url: &str) -> (found: Option<Provider>)
    ensures
        match found {
            Some(provider) => exists|at: int|
                resolves_to(registry(), url@, at) && provider == registry()[at],
            None => unresolved(registry(), url@),
        },
{
    let table = url_prefix_to_provider();
    match resolve_index(&table, url) {
        Some(at) => Some(table[at]),
        None => None,
    }
}

} // verus!
