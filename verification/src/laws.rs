//! The engine's laws, stated and proved over the models that the public
//! contracts use.

use vstd::prelude::*;
use vstd::arithmetic::div_mod::lemma_mod_add_multiples_vanish;
use vstd::arithmetic::div_mod::lemma_mod_bound;
use vstd::arithmetic::div_mod::lemma_mod_self_0;
use vstd::arithmetic::div_mod::lemma_small_mod;
use crate::search::matches_correct;
use crate::state::TereAppState;
use crate::state::ViewportModel;
use crate::state::clamped_target;
use crate::state::moved_cursor;
use crate::state::vp_wf;

verus! {

/// Every cursor move preserves the viewport invariants: the scroll offset
/// stays between 0 and the cursor, the cursor stays visible and inside the
/// listing.  Applied after each step, this extends to every sequence of
/// `move_cursor` calls.
pub proof fn lemma_move_cursor_keeps_viewport_wf(m: ViewportModel, amount: int, wrap: bool, len: int)
    requires
        vp_wf(m, len),
    ensures
        vp_wf(moved_cursor(m, amount, wrap, len), len),
{
    if len > 0 && wrap {
        lemma_mod_bound(m.cursor + amount, len);
    }
}

/// Moving one step forward with wrapping from the last entry lands on the
/// first.
pub proof fn lemma_wrap_from_last(m: ViewportModel, len: int)
    requires
        vp_wf(m, len),
        len > 0,
        m.cursor == len - 1,
    ensures
        moved_cursor(m, 1, true, len).cursor == 0,
{
    lemma_mod_self_0(len);
}

/// Moving one step back with wrapping from the first entry lands on the
/// last.
pub proof fn lemma_wrap_from_first(m: ViewportModel, len: int)
    requires
        vp_wf(m, len),
        len > 0,
        m.cursor == 0,
    ensures
        moved_cursor(m, -1, true, len).cursor == len - 1,
{
    lemma_mod_add_multiples_vanish(-1, len);
    lemma_small_mod((len - 1) as nat, len as nat);
}

/// Without wrapping, the cursor clamps at both ends and always stays
/// inside the listing, whatever the amount.
pub proof fn lemma_no_wrap_clamps(m: ViewportModel, amount: int, len: int)
    requires
        vp_wf(m, len),
        len > 0,
    ensures
        moved_cursor(m, amount, false, len).cursor == clamped_target(m.cursor, amount, len),
        m.cursor + amount <= 0 ==> moved_cursor(m, amount, false, len).cursor == 0,
        m.cursor + amount >= len - 1 ==> moved_cursor(m, amount, false, len).cursor == len - 1,
        0 <= moved_cursor(m, amount, false, len).cursor < len,
{
}

/// In a strictly ascending sequence, earlier entries are smaller.
proof fn lemma_ascending_at(ms: Seq<usize>, i: int, j: int)
    requires
        forall|k: int| 0 <= k < ms.len() - 1 ==> (#[trigger] ms[k]) < ms[k + 1],
        0 <= i < j < ms.len(),
    ensures
        ms[i] < ms[j],
    decreases j - i,
{
    if i + 1 < j {
        lemma_ascending_at(ms, i + 1, j);
    }
}

/// Two strictly ascending sequences with the same members are equal.
proof fn lemma_ascending_same_members(ms1: Seq<usize>, ms2: Seq<usize>)
    requires
        forall|k: int| 0 <= k < ms1.len() - 1 ==> (#[trigger] ms1[k]) < ms1[k + 1],
        forall|k: int| 0 <= k < ms2.len() - 1 ==> (#[trigger] ms2[k]) < ms2[k + 1],
        forall|x: usize| ms1.contains(x) <==> ms2.contains(x),
    ensures
        ms1 == ms2,
    decreases ms1.len(),
{
    if ms1.len() == 0 {
        if ms2.len() > 0 {
            assert(ms2.contains(ms2[0]));
            assert(ms1.contains(ms2[0]));
        }
        assert(ms1 =~= ms2);
    } else if ms2.len() == 0 {
        assert(ms1.contains(ms1[0]));
        assert(ms2.contains(ms1[0]));
    } else {
        assert(ms1.contains(ms1[0]));
        assert(ms2.contains(ms2[0]));
        let k1 = choose|k: int| 0 <= k < ms2.len() && ms2[k] == ms1[0];
        if k1 > 0 {
            lemma_ascending_at(ms2, 0, k1);
        }
        let k2 = choose|k: int| 0 <= k < ms1.len() && ms1[k] == ms2[0];
        if k2 > 0 {
            lemma_ascending_at(ms1, 0, k2);
        }
        assert(ms1[0] == ms2[0]);
        let t1 = ms1.drop_first();
        let t2 = ms2.drop_first();
        assert forall|x: usize| t1.contains(x) implies t2.contains(x) by {
            let k = choose|k: int| 0 <= k < t1.len() && t1[k] == x;
            assert(ms1[k + 1] == x);
            lemma_ascending_at(ms1, 0, k + 1);
            assert(ms1.contains(x));
            assert(ms2.contains(x));
            let w = choose|w: int| 0 <= w < ms2.len() && ms2[w] == x;
            assert(w != 0);
            assert(t2[w - 1] == x);
        }
        assert forall|x: usize| t2.contains(x) implies t1.contains(x) by {
            let k = choose|k: int| 0 <= k < t2.len() && t2[k] == x;
            assert(ms2[k + 1] == x);
            lemma_ascending_at(ms2, 0, k + 1);
            assert(ms2.contains(x));
            assert(ms1.contains(x));
            let w = choose|w: int| 0 <= w < ms1.len() && ms1[w] == x;
            assert(w != 0);
            assert(t1[w - 1] == x);
        }
        assert forall|k: int| 0 <= k < t1.len() - 1 implies (#[trigger] t1[k]) < t1[k + 1] by {
            assert(t1[k] == ms1[k + 1]);
            assert(t1[k + 1] == ms1[k + 2]);
        }
        assert forall|k: int| 0 <= k < t2.len() - 1 implies (#[trigger] t2[k]) < t2[k + 1] by {
            assert(t2[k] == ms2[k + 1]);
            assert(t2[k + 1] == ms2[k + 2]);
        }
        lemma_ascending_same_members(t1, t2);
        assert(ms1.len() == ms2.len());
        assert forall|i: int| 0 <= i < ms1.len() implies ms1[i] == ms2[i] by {
            if i > 0 {
                assert(t1[i - 1] == ms1[i]);
                assert(t2[i - 1] == ms2[i]);
            }
        }
        assert(ms1 =~= ms2);
    }
}

/// The match set is determined: any two match lists that are correct for
/// the same listing and query are the same list.  With the match rule's
/// membership condition, this says the engine's `matches` is exactly the
/// ascending list of matching indices.
pub proof fn lemma_matches_unique(names: Seq<Seq<char>>, q: Seq<char>, ms1: Seq<usize>, ms2: Seq<
    usize,
>)
    requires
        matches_correct(names, q, ms1),
        matches_correct(names, q, ms2),
    ensures
        ms1 == ms2,
{
    assert forall|x: usize| ms1.contains(x) implies ms2.contains(x) by {
        let k = choose|k: int| 0 <= k < ms1.len() && ms1[k] == x;
        assert(ms1[k] < names.len());
    }
    assert forall|x: usize| ms2.contains(x) implies ms1.contains(x) by {
        let k = choose|k: int| 0 <= k < ms2.len() && ms2[k] == x;
        assert(ms2[k] < names.len());
    }
    lemma_ascending_same_members(ms1, ms2);
}

/// Typing a character and erasing it restores the previous query and the
/// previous match set exactly, whenever a search was already active.
pub proof fn lemma_erase_undoes_advance(
    pre: TereAppState,
    mid: TereAppState,
    post: TereAppState,
    c: char,
)
    requires
        pre.wf(),
        pre.search.active,
        TereAppState::advance_post(pre, mid, c),
        TereAppState::erase_post(mid, post),
    ensures
        post.search.query@ == pre.search.query@,
        post.search.matches@ == pre.search.matches@,
{
    assert(mid.search.query@.len() > 0);
    assert(post.search.query@ =~= pre.search.query@);
    assert(mid.ls_output_buf == pre.ls_output_buf);
    lemma_matches_unique(
        crate::search::names_of(pre.ls_output_buf@),
        pre.search.query@,
        post.search.matches@,
        pre.search.matches@,
    );
}

} // verus!
