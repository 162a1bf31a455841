//! Building a directory listing: filtering (folders only, when requested)
//! and sorting under the fixed comparator — directories before
//! non-directories, then case-sensitive name order by character code.

use vstd::prelude::*;
use vstd::string::*;
use vstd::seq_lib::to_multiset_insert;
use crate::entry::Entry;
use crate::entry::EntryModel;

verus! {

/// Case-sensitive lexicographic order on character sequences, comparing by
/// code point.  Reflexive and total; a proper prefix sorts first.
pub open spec fn lex_le(a: Seq<char>, b: Seq<char>) -> bool
    decreases a.len(),
{
    if a.len() == 0 {
        true
    } else if b.len() == 0 {
        false
    } else if (a[0] as u32) < (b[0] as u32) {
        true
    } else if (b[0] as u32) < (a[0] as u32) {
        false
    } else {
        lex_le(a.drop_first(), b.drop_first())
    }
}

/// The fixed listing comparator: directories sort before non-directories;
/// within one group, names sort lexicographically, case-sensitive.
pub open spec fn entry_le(x: EntryModel, y: EntryModel) -> bool {
    if x.is_dir != y.is_dir {
        x.is_dir
    } else {
        lex_le(x.name, y.name)
    }
}

/// The images of a sequence of entries.
pub open spec fn models_of(s: Seq<Entry>) -> Seq<EntryModel> {
    s.map_values(|e: Entry| e.model())
}

/// Pairwise sortedness under the listing comparator.
pub open spec fn listing_sorted(s: Seq<EntryModel>) -> bool {
    forall|i: int, j: int| 0 <= i < j < s.len() ==> #[trigger] entry_le(s[i], s[j])
}

/// The entries that survive the `folders_only` filter, in input order.
pub open spec fn kept_entries(s: Seq<Entry>, folders_only: bool) -> Seq<Entry> {
    s.filter(|e: Entry| !folders_only || e.is_dir_spec())
}

/// `lex_le` relates every pair of names one way or the other.
pub proof fn lemma_lex_le_total(a: Seq<char>, b: Seq<char>)
    ensures
        lex_le(a, b) || lex_le(b, a),
    decreases a.len(),
{
    if a.len() == 0 {
    } else if b.len() == 0 {
    } else if (a[0] as u32) < (b[0] as u32) {
    } else if (b[0] as u32) < (a[0] as u32) {
    } else {
        lemma_lex_le_total(a.drop_first(), b.drop_first());
    }
}

/// `lex_le` is transitive.
pub proof fn lemma_lex_le_trans(a: Seq<char>, b: Seq<char>, c: Seq<char>)
    requires
        lex_le(a, b),
        lex_le(b, c),
    ensures
        lex_le(a, c),
    decreases a.len(),
{
    if a.len() == 0 {
    } else {
        if b.len() > 0 && c.len() > 0 && !((a[0] as u32) < (b[0] as u32)) && !((b[0] as u32)
            < (a[0] as u32)) && !((b[0] as u32) < (c[0] as u32)) && !((c[0] as u32) < (b[0]
            as u32)) {
            lemma_lex_le_trans(a.drop_first(), b.drop_first(), c.drop_first());
        }
    }
}

/// The listing comparator relates every pair of entries one way or the other.
pub proof fn lemma_entry_le_total(x: EntryModel, y: EntryModel)
    ensures
        entry_le(x, y) || entry_le(y, x),
{
    if x.is_dir == y.is_dir {
        lemma_lex_le_total(x.name, y.name);
    }
}

/// The listing comparator is transitive.
pub proof fn lemma_entry_le_trans(x: EntryModel, y: EntryModel, z: EntryModel)
    requires
        entry_le(x, y),
        entry_le(y, z),
    ensures
        entry_le(x, z),
{
    if x.is_dir == y.is_dir && y.is_dir == z.is_dir {
        lemma_lex_le_trans(x.name, y.name, z.name);
    }
}

/// Decide `lex_le` on two names.
pub fn lex_le_exec(a: &str, b: &str) -> (r: bool)
    ensures
        r == lex_le(a@, b@),
{
    let la = a.unicode_len();
    let lb = b.unicode_len();
    let mut i: usize = 0;
    proof {
        assert(a@.skip(0) =~= a@);
        assert(b@.skip(0) =~= b@);
    }
    loop
        invariant
            i <= la,
            i <= lb,
            la == a@.len(),
            lb == b@.len(),
            lex_le(a@, b@) == lex_le(a@.skip(i as int), b@.skip(i as int)),
        decreases la - i,
    {
        if i == la {
            return true;
        }
        if i == lb {
            return false;
        }
        let ca = a.get_char(i);
        let cb = b.get_char(i);
        proof {
            assert(a@.skip(i as int)[0] == a@[i as int]);
            assert(b@.skip(i as int)[0] == b@[i as int]);
        }
        if (ca as u32) < (cb as u32) {
            return true;
        }
        if (cb as u32) < (ca as u32) {
            return false;
        }
        proof {
            assert(a@.skip(i as int).drop_first() =~= a@.skip(i as int + 1));
            assert(b@.skip(i as int).drop_first() =~= b@.skip(i as int + 1));
        }
        i = i + 1;
    }
}

/// Decide the listing comparator on two entries.
pub fn entry_le_exec(x: &Entry, y: &Entry) -> (r: bool)
    ensures
        r == entry_le(x.model(), y.model()),
{
    let xd = x.is_dir();
    let yd = y.is_dir();
    if xd != yd {
        xd
    } else {
        lex_le_exec(x.display_name().as_str(), y.display_name().as_str())
    }
}

/// Insert one entry into a sorted listing, keeping it sorted.
fn insert_sorted(v: Vec<Entry>, e: Entry) -> (out: Vec<Entry>)
    requires
        listing_sorted(models_of(v@)),
    ensures
        listing_sorted(models_of(out@)),
        out@.to_multiset() == v@.to_multiset().insert(e),
        out@.len() == v@.len() + 1,
{
    let mut v = v;
    let ghost orig = v@;
    let mut j: usize = 0;
    loop
        invariant
            v@ == orig,
            j <= v@.len(),
            listing_sorted(models_of(v@)),
            forall|k: int| 0 <= k < j ==> entry_le(#[trigger] models_of(v@)[k], e.model()),
        ensures
            v@ == orig,
            j <= v@.len(),
            forall|k: int| 0 <= k < j ==> entry_le(#[trigger] models_of(v@)[k], e.model()),
            j == v@.len() || !entry_le(models_of(v@)[j as int], e.model()),
        decreases v@.len() - j,
    {
        if j == v.len() {
            break;
        }
        let le = entry_le_exec(&v[j], &e);
        proof {
            assert(models_of(v@)[j as int] == v@[j as int].model());
        }
        if le {
            j = j + 1;
        } else {
            break;
        }
    }
    proof {
        if j < orig.len() {
            lemma_entry_le_total(models_of(orig)[j as int], e.model());
            assert(entry_le(e.model(), models_of(orig)[j as int]));
        }
    }
    let ghost jj = j as int;
    v.insert(j, e);
    proof {
        to_multiset_insert(orig, jj, e);
        let s = models_of(v@);
        let old_s = models_of(orig);
        assert(v@ == orig.insert(jj, e));
        assert(forall|x: int| 0 <= x < jj ==> v@[x] == orig[x]);
        assert(v@[jj] == e);
        assert(forall|x: int| jj < x < v@.len() ==> v@[x] == orig[x - 1]);
        assert forall|p: int, q: int| 0 <= p < q < s.len() implies #[trigger] entry_le(
            s[p],
            s[q],
        ) by {
            if q < jj {
                assert(entry_le(old_s[p], old_s[q]));
            } else if p > jj {
                assert(entry_le(old_s[p - 1], old_s[q - 1]));
            } else if p < jj && q == jj {
                assert(entry_le(old_s[p], e.model()));
            } else if p < jj && q > jj {
                assert(entry_le(old_s[p], e.model()));
                assert(jj < orig.len());
                assert(entry_le(e.model(), old_s[jj]));
                if q - 1 > jj {
                    assert(entry_le(old_s[jj], old_s[q - 1]));
                    lemma_entry_le_trans(e.model(), old_s[jj], old_s[q - 1]);
                }
                lemma_entry_le_trans(old_s[p], e.model(), old_s[q - 1]);
            } else if p == jj {
                assert(jj < orig.len());
                assert(entry_le(e.model(), old_s[jj]));
                if q - 1 > jj {
                    assert(entry_le(old_s[jj], old_s[q - 1]));
                    lemma_entry_le_trans(e.model(), old_s[jj], old_s[q - 1]);
                }
            }
        }
    }
    v
}

/// Build the listing for one directory from the raw entries the filesystem
/// handed back: keep directories only when `folders_only` asks for it, then
/// sort under the fixed comparator.  The result holds exactly the kept
/// entries, each the same value that came in.
pub fn build_listing(raw: Vec<Entry>, folders_only: bool) -> (out: Vec<Entry>)
    ensures
        listing_sorted(models_of(out@)),
        out@.to_multiset() == kept_entries(raw@, folders_only).to_multiset(),
{
    broadcast use vstd::seq_lib::group_to_multiset_ensures, vstd::multiset::group_multiset_axioms, vstd::multiset::group_multiset_properties;

    let ghost orig = raw@;
    let mut rest = raw;
    let mut out: Vec<Entry> = Vec::new();
    proof {
        assert(kept_entries(orig, folders_only).to_multiset() =~= out@.to_multiset().add(
            kept_entries(rest@, folders_only).to_multiset(),
        ));
    }
    loop
        invariant
            orig == raw@,
            kept_entries(orig, folders_only).to_multiset() == out@.to_multiset().add(
                kept_entries(rest@, folders_only).to_multiset(),
            ),
            listing_sorted(models_of(out@)),
        decreases rest@.len(),
    {
        let ghost before = rest@;
        let popped = rest.pop();
        match popped {
            None => {
                proof {
                    reveal_with_fuel(Seq::<Entry>::filter, 2);
                    assert(kept_entries(before, folders_only) =~= Seq::<Entry>::empty());
                    let km = kept_entries(before, folders_only).to_multiset();
                    vstd::seq_lib::to_multiset_len::<Entry>(kept_entries(before, folders_only));
                    assert(km.len() == 0);
                    vstd::multiset::lemma_multiset_empty_len::<Entry>(km);
                    assert(kept_entries(orig, folders_only).to_multiset() =~= out@.to_multiset());
                    assert(out@.to_multiset() == kept_entries(orig, folders_only).to_multiset());
                }
                return out;
            },
            Some(e) => {
                proof {
                    reveal_with_fuel(Seq::<Entry>::filter, 2);
                    assert(rest@ == before.drop_last());
                    assert(e == before.last());
                    assert(kept_entries(before, folders_only) == if !folders_only
                        || before.last().is_dir_spec() {
                        kept_entries(before.drop_last(), folders_only).push(before.last())
                    } else {
                        kept_entries(before.drop_last(), folders_only)
                    });
                }
                let keep = if folders_only {
                    e.is_dir()
                } else {
                    true
                };
                let ghost out_before = out@;
                if keep {
                    out = insert_sorted(out, e);
                }
                proof {
                    if !folders_only || e.is_dir_spec() {
                        vstd::seq_lib::to_multiset_build::<Entry>(
                            kept_entries(rest@, folders_only),
                            e,
                        );
                        assert(kept_entries(rest@, folders_only).push(e).to_multiset()
                            == kept_entries(rest@, folders_only).to_multiset().insert(e));
                        assert(kept_entries(before, folders_only).to_multiset() == kept_entries(
                            rest@,
                            folders_only,
                        ).to_multiset().insert(e));
                        assert(out@.to_multiset() == out_before.to_multiset().insert(e));
                    } else {
                        assert(kept_entries(before, folders_only) == kept_entries(
                            rest@,
                            folders_only,
                        ));
                    }
                    assert(kept_entries(orig, folders_only).to_multiset() =~= out@.to_multiset()
                        .add(kept_entries(rest@, folders_only).to_multiset()));
                }
            },
        }
    }
}

} // verus!
