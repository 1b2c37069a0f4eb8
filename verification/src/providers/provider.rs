//! Providers, and the rule by which a URL finds its provider.

use crate::text::chars_of;
use crate::text::is_prefix;
use vstd::prelude::*;

verus! {

/// What a URL prefix stands for: the identifier of a kind of resource, the
/// brand it belongs to, and the prefix itself.
#[derive(Debug, Clone, Copy, PartialEq, Eq)]
pub struct Provider {
    pub id: &'static str,
    pub brand: &'static str,
    pub url: &'static str,
}

impl Provider {
    /// The provider's prefix is a literal prefix of `url`: character for
    /// character, with no folding of case and no allowance for a slash.
    pub open spec fn matches(self, url: Seq<char>) -> bool {
        self.url@.is_prefix_of(url)
    }
}

/// Entry `at` of `registry` is the one that `url` resolves to: it matches,
/// no matching entry has a longer prefix, and of the matching entries with a
/// prefix as long as its own it is the last.
pub open spec fn resolves_to(registry: Seq<Provider>, url: Seq<char>, at: int) -> bool {
    &&& 0 <= at < registry.len()
    &&& registry[at].matches(url)
    &&& forall|j: int|
        0 <= j < registry.len() && registry[j].matches(url) ==> registry[j].url@.len()
            <= registry[at].url@.len()
    &&& forall|j: int|
        at < j < registry.len() && registry[j].matches(url) ==> registry[j].url@.len()
            < registry[at].url@.len()
}

/// No entry of `registry` matches `url`.
pub open spec fn unresolved(registry: Seq<Provider>, url: Seq<char>) -> bool {
    forall|j: int| 0 <= j < registry.len() ==> !registry[j].matches(url)
}

/// The position in `registry` of the provider for `url`: the matching entry
/// with the longest prefix, the last of them where several are as long; or
/// nothing where no entry matches. The order of the entries decides nothing
/// between prefixes of different length.
pub fn resolve_index(registry: &Vec<Provider>, url: &str) -> (found: Option<usize>)
    ensures
        match found {
            Some(at) => resolves_to(registry@, url@, at as int),
            None => unresolved(registry@, url@),
        },
{
    let target = chars_of(url);
    let mut best: Option<usize> = None;
    let mut best_len: usize = 0;
    let mut i: usize = 0;
    while i < registry.len()
        invariant
            i <= registry.len(),
            target@ == url@,
            match best {
                Some(at) => {
                    &&& at < i
                    &&& best_len == registry@[at as int].url@.len()
                    &&& registry@[at as int].matches(url@)
                    &&& forall|j: int|
                        0 <= j < i && registry@[j].matches(url@) ==> registry@[j].url@.len()
                            <= best_len
                    &&& forall|j: int|
                        at < j < i && registry@[j].matches(url@) ==> registry@[j].url@.len()
                            < best_len
                },
                None => forall|j: int| 0 <= j < i ==> !registry@[j].matches(url@),
            },
        decreases registry.len() - i,
    {
        let prefix = chars_of(registry[i].url);
        if is_prefix(&prefix, &target) {
            let longer = match best {
                Some(_) => prefix.len() >= best_len,
                None => true,
            };
            if longer {
                best = Some(i);
                best_len = prefix.len();
            }
        }
        i += 1;
    }
    best
}

/// The provider for `url`, as `resolve_index` finds it.
pub fn resolve<'a>(registry: &'a Vec<Provider>, url: &str) -> (found: Option<&'a Provider>)
    ensures
        match found {
            Some(provider) => exists|at: int|
                resolves_to(registry@, url@, at) && *provider == registry@[at],
            None => unresolved(registry@, url@),
        },
{
    match resolve_index(registry, url) {
        Some(at) => Some(&registry[at]),
        None => None,
    }
}

} // verus!
