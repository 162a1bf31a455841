//! Incremental search over entry names.  The fixed match rule: an entry
//! matches when its display name starts with the query, compared
//! case-sensitively, character by character.  The match set is always
//! recomputed from the whole listing, never patched incrementally.

use vstd::prelude::*;
use vstd::string::*;
use crate::entry::Entry;

verus! {

/// The fixed match rule: `q` is a prefix of `s`.
pub open spec fn is_prefix(q: Seq<char>, s: Seq<char>) -> bool {
    q.len() <= s.len() && q == s.subrange(0, q.len() as int)
}

/// The names of a sequence of entries.
pub open spec fn names_of(s: Seq<Entry>) -> Seq<Seq<char>> {
    s.map_values(|e: Entry| e.name_chars())
}

/// `ms` is exactly the set of indices into `names` whose name matches `q`,
/// in strictly ascending order.
pub open spec fn matches_correct(names: Seq<Seq<char>>, q: Seq<char>, ms: Seq<usize>) -> bool {
    &&& forall|k: int|
        0 <= k < ms.len() ==> (#[trigger] ms[k]) < names.len() && is_prefix(q, names[ms[k] as int])
    &&& forall|i: int| 0 <= i < names.len() && is_prefix(q, #[trigger] names[i]) ==> ms.contains(
        i as usize,
    )
    &&& forall|k: int| 0 <= k < ms.len() - 1 ==> (#[trigger] ms[k]) < ms[k + 1]
}

/// The match pointer: the position of the cursor within the match list when
/// the cursor sits on a match, and nothing otherwise.
pub open spec fn pointer_ok(ms: Seq<usize>, cursor: usize, p: Option<usize>) -> bool {
    match p {
        Some(k) => k < ms.len() && ms[k as int] == cursor,
        None => !ms.contains(cursor),
    }
}

/// The search component: the query the user has typed, whether a search is
/// in progress, and the match set over the current listing.
pub struct SearchState {
    pub active: bool,
    pub query: Vec<char>,
    pub matches: Vec<usize>,
    pub current_match_pointer: Option<usize>,
}

impl SearchState {
    /// A cleared search: inactive, empty query, no matches.
    pub open spec fn is_cleared(self) -> bool {
        &&& !self.active
        &&& self.query@.len() == 0
        &&& self.matches@.len() == 0
        &&& self.current_match_pointer is None
    }

    /// Well-formedness against a listing: while a search is active the match
    /// set is exactly what the match rule gives for the query; while none
    /// is, the search is cleared.
    pub open spec fn wf(self, names: Seq<Seq<char>>, cursor: usize) -> bool {
        if self.active {
            &&& matches_correct(names, self.query@, self.matches@)
            &&& pointer_ok(self.matches@, cursor, self.current_match_pointer)
        } else {
            self.is_cleared()
        }
    }

    pub fn new_cleared() -> (s: SearchState)
        ensures
            s.is_cleared(),
    {
        SearchState {
            active: false,
            query: Vec::new(),
            matches: Vec::new(),
            current_match_pointer: None,
        }
    }
}

/// Decide the match rule on one name.
pub fn name_matches(name: &str, query: &Vec<char>) -> (r: bool)
    ensures
        r == is_prefix(query@, name@),
{
    let n = name.unicode_len();
    if query.len() > n {
        return false;
    }
    let ql = query.len();
    let mut i: usize = 0;
    loop
        invariant
            i <= ql,
            ql == query@.len(),
            ql <= n == name@.len(),
            forall|k: int| 0 <= k < i ==> query@[k] == name@[k],
        ensures
            i <= ql,
            ql == query@.len(),
            ql <= n == name@.len(),
            forall|k: int| 0 <= k < i ==> query@[k] == name@[k],
            i < ql ==> query@[i as int] != name@[i as int],
        decreases ql - i,
    {
        if i == ql {
            break;
        }
        let qc = query[i];
        let nc = name.get_char(i);
        if qc != nc {
            break;
        }
        i = i + 1;
    }
    if i == ql {
        proof {
            assert(query@ =~= name@.subrange(0, query@.len() as int));
        }
        true
    } else {
        proof {
            assert(name@.subrange(0, query@.len() as int)[i as int] == name@[i as int]);
        }
        false
    }
}

/// Recompute the match set of `query` over the whole listing.
pub fn compute_matches(entries: &Vec<Entry>, query: &Vec<char>) -> (ms: Vec<usize>)
    ensures
        matches_correct(names_of(entries@), query@, ms@),
{
    let ghost names = names_of(entries@);
    let mut ms: Vec<usize> = Vec::new();
    let n = entries.len();
    let mut i: usize = 0;
    proof {
        assert(names.len() == entries@.len());
    }
    while i < n
        invariant
            i <= n,
            n == entries@.len(),
            names == names_of(entries@),
            names.len() == n,
            forall|k: int|
                0 <= k < ms@.len() ==> (#[trigger] ms@[k]) < i && is_prefix(
                    query@,
                    names[ms@[k] as int],
                ),
            forall|x: int| 0 <= x < i && is_prefix(query@, #[trigger] names[x]) ==> ms@.contains(
                x as usize,
            ),
            forall|k: int| 0 <= k < ms@.len() - 1 ==> (#[trigger] ms@[k]) < ms@[k + 1],
        decreases n - i,
    {
        proof {
            assert(names[i as int] == entries@[i as int].name_chars());
        }
        let hit = name_matches(entries[i].display_name().as_str(), query);
        if hit {
            let ghost before = ms@;
            ms.push(i);
            proof {
                assert(ms@ == before.push(i));
                assert(ms@[ms@.len() - 1] == i);
                assert(forall|k: int| 0 <= k < before.len() ==> ms@[k] == before[k]);
                assert forall|x: int|
                    0 <= x < i + 1 && is_prefix(query@, #[trigger] names[x]) implies ms@.contains(
                    x as usize,
                ) by {
                    if x < i {
                        let w = choose|w: int| 0 <= w < before.len() && before[w] == x as usize;
                        assert(ms@[w] == x as usize);
                    } else {
                        assert(ms@[ms@.len() - 1] == x as usize);
                    }
                }
            }
        }
        i = i + 1;
    }
    ms
}

/// Find the cursor's position within the match list, if it is on a match.
pub fn find_pointer(ms: &Vec<usize>, cursor: usize) -> (p: Option<usize>)
    ensures
        pointer_ok(ms@, cursor, p),
{
    let n = ms.len();
    let mut k: usize = 0;
    while k < n
        invariant
            k <= n,
            n == ms@.len(),
            forall|x: int| 0 <= x < k ==> ms@[x] != cursor,
        decreases n - k,
    {
        if ms[k] == cursor {
            return Some(k);
        }
        k = k + 1;
    }
    proof {
        assert forall|x: int| 0 <= x < ms@.len() implies ms@[x] != cursor by {}
        assert(!ms@.contains(cursor));
    }
    None
}

} // verus!
