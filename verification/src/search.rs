//! Searching the presets of a panel: how well a preset answers a query,
//! and the order in which the presets that answer it are listed.

use vstd::prelude::*;
use vstd::string::*;
use crate::state::PresetItem;
use crate::text::{contains, has_substring, is_prefix, starts_with};

verus! {

/// The rank of every preset while nothing is searched for.
pub const RANK_ALL: u8 = 255;

/// The lower-case form of a text, as `str::to_lowercase` of the standard
/// library gives it.
pub uninterp spec fn lowercase(s: Seq<char>) -> Seq<char>;

/// Calls `str::to_lowercase`. The contract only names the result: it is a
/// function of the text alone.
#[verifier::external_body]
fn to_lowercase(s: &str) -> (r: String)
    ensures
        r@ == lowercase(s@),
{
    s.to_lowercase()
}

/// How well a preset answers `query`, given its name and its prompt text in
/// lower case: 255 for every preset while the query is empty; else 3 where
/// the name begins with the query, 2 where the name holds it, 1 where the
/// prompt text holds it, and nothing where none of these is so.
pub open spec fn rank_of(name: Seq<char>, prompt: Seq<char>, query: Seq<char>) -> Option<u8> {
    if query.len() == 0 {
        Some(255u8)
    } else if is_prefix(query, name) {
        Some(3u8)
    } else if has_substring(name, query) {
        Some(2u8)
    } else if has_substring(prompt, query) {
        Some(1u8)
    } else {
        None
    }
}

/// The prompt text of a preset, empty where it has none.
pub open spec fn prompt_or_empty<P>(item: PresetItem<P>) -> Seq<char> {
    match item.prompt {
        Some(p) => p@,
        None => Seq::empty(),
    }
}

/// The rank of a preset for a query.
pub open spec fn item_rank<P>(item: PresetItem<P>, query: Seq<char>) -> Option<u8> {
    rank_of(lowercase(item.name@), lowercase(prompt_or_empty(item)), query)
}

/// The indices of the presets of rank `rank`, in the order of the presets.
pub open spec fn indices_of_rank<P>(items: Seq<PresetItem<P>>, query: Seq<char>, rank: u8) -> Seq<
    usize,
>
    decreases items.len(),
{
    if items.len() == 0 {
        Seq::empty()
    } else {
        let rest = indices_of_rank(items.drop_last(), query, rank);
        if item_rank(items.last(), query) == Some(rank) {
            rest.push((items.len() - 1) as usize)
        } else {
            rest
        }
    }
}

/// The indices of the presets that answer the query, best first; presets
/// of one rank keep their order.
pub open spec fn ranked_indices<P>(items: Seq<PresetItem<P>>, query: Seq<char>) -> Seq<usize> {
    indices_of_rank(items, query, 255) + indices_of_rank(items, query, 3) + indices_of_rank(
        items,
        query,
        2,
    ) + indices_of_rank(items, query, 1)
}

/// How well a preset answers `query`, given its name and prompt text in
/// lower case.
pub fn rank_lowered(name: &str, prompt: &str, query: &str) -> (r: Option<u8>)
    ensures
        r == rank_of(name@, prompt@, query@),
{
    if query.unicode_len() == 0 {
        Some(RANK_ALL)
    } else if starts_with(name, query) {
        Some(3)
    } else if contains(name, query) {
        Some(2)
    } else if contains(prompt, query) {
        Some(1)
    } else {
        None
    }
}

/// How well a preset with this name and prompt text answers `query`. The
/// query is taken as it is; name and prompt text are compared in lower
/// case.
pub fn search_rank(name: &str, prompt: &str, query: &str) -> (r: Option<u8>)
    ensures
        r == rank_of(lowercase(name@), lowercase(prompt@), query@),
{
    if query.unicode_len() == 0 {
        return Some(RANK_ALL);
    }
    let n = to_lowercase(name);
    let p = to_lowercase(prompt);
    rank_lowered(n.as_str(), p.as_str(), query)
}

/// Adds the indices of the presets of rank `rank` to `out`.
fn collect_rank<P>(items: &Vec<PresetItem<P>>, ranks: &Vec<Option<u8>>, rank: u8, out: &mut Vec<usize>, Ghost(query): Ghost<Seq<char>>)
    requires
        ranks@.len() == items@.len(),
        forall|i: int| 0 <= i < items@.len() ==> ranks@[i] == item_rank(items@[i], query),
    ensures
        final(out)@ == old(out)@ + indices_of_rank(items@, query, rank),
{
    let mut i: usize = 0;
    assert(items@.take(0) =~= Seq::<PresetItem<P>>::empty());
    assert(out@ =~= old(out)@ + Seq::<usize>::empty());
    while i < items.len()
        invariant
            i <= items.len(),
            ranks@.len() == items@.len(),
            forall|j: int| 0 <= j < items@.len() ==> ranks@[j] == item_rank(items@[j], query),
            out@ == old(out)@ + indices_of_rank(items@.take(i as int), query, rank),
        decreases items.len() - i,
    {
        proof {
            let pre = items@.take(i as int + 1);
            assert(pre.drop_last() =~= items@.take(i as int));
            assert(pre.last() == items@[i as int]);
        }
        let hit = match ranks[i] {
            Some(r) => r == rank,
            None => false,
        };
        if hit {
            out.push(i);
            assert(out@ =~= old(out)@ + indices_of_rank(items@.take(i as int), query, rank).push(
                i,
            ));
        }
        i += 1;
    }
    assert(items@.take(items.len() as int) =~= items@);
}

/// The indices of the presets that answer `search`, best first. The search
/// text is put in lower case before it is compared.
pub fn rank_items<P>(items: &Vec<PresetItem<P>>, search: &str) -> (r: Vec<usize>)
    ensures
        r@ == ranked_indices(items@, lowercase(search@)),
{
    let query = to_lowercase(search);
    let mut ranks: Vec<Option<u8>> = Vec::new();
    let mut i: usize = 0;
    while i < items.len()
        invariant
            i <= items.len(),
            ranks@.len() == i,
            query@ == lowercase(search@),
            forall|j: int| 0 <= j < i ==> ranks@[j] == item_rank(items@[j], query@),
        decreases items.len() - i,
    {
        let item = &items[i];
        let rank = match &item.prompt {
            Some(p) => search_rank(item.name.as_str(), p.as_str(), query.as_str()),
            None => {
                let e = "";
                proof {
                    reveal_strlit("");
                }
                assert(e@ =~= Seq::<char>::empty());
                search_rank(item.name.as_str(), e, query.as_str())
            },
        };
        ranks.push(rank);
        i += 1;
    }
    let mut r: Vec<usize> = Vec::new();
    collect_rank(items, &ranks, RANK_ALL, &mut r, Ghost(query@));
    collect_rank(items, &ranks, 3, &mut r, Ghost(query@));
    collect_rank(items, &ranks, 2, &mut r, Ghost(query@));
    collect_rank(items, &ranks, 1, &mut r, Ghost(query@));
    assert(r@ =~= ranked_indices(items@, query@));
    r
}

} // verus!
