//! The application state engine: the current listing, the cursor/scroll
//! coordinate system mapping a bounded viewport onto it, the incremental
//! search, and directory changes.
//!
//! The viewport invariants hold after every operation: the scroll offset
//! never exceeds the cursor, the cursor stays visible
//! (`cursor < scroll + height`), and the cursor stays inside the listing
//! (or is 0 on an empty listing).

use vstd::prelude::*;
use vstd::string::*;
use vstd::arithmetic::div_mod::lemma_add_mod_noop;
use vstd::arithmetic::div_mod::lemma_mod_add_multiples_vanish;
use vstd::arithmetic::div_mod::lemma_mod_bound;
use vstd::arithmetic::div_mod::lemma_small_mod;
use vstd::arithmetic::div_mod::lemma_sub_mod_noop;
use crate::entry::Entry;
use crate::listing::build_listing;
use crate::listing::kept_entries;
use crate::listing::listing_sorted;
use crate::listing::models_of;
use crate::nav::NavError;
use crate::nav::is_root;
use crate::nav::join_path;
use crate::nav::joined;
use crate::nav::parent_of;
use crate::nav::parent_path;
use crate::nav::path_wf;
use crate::search::SearchState;
use crate::search::compute_matches;
use crate::search::find_pointer;
use crate::search::matches_correct;
use crate::search::names_of;
use crate::search::pointer_ok;

verus! {

/// Mathematical image of the viewport: absolute cursor index, index of the
/// first visible row, and rows available.
pub ghost struct ViewportModel {
    pub cursor: int,
    pub scroll: int,
    pub height: int,
}

/// The viewport invariants over a listing of `len` entries.  The height is
/// at least one row and no more than a terminal can report.
pub open spec fn vp_wf(m: ViewportModel, len: int) -> bool {
    &&& 1 <= m.height <= 0xFFFF
    &&& if len == 0 {
        m.cursor == 0 && m.scroll == 0
    } else {
        0 <= m.scroll && m.scroll <= m.cursor && m.cursor < len && m.cursor < m.scroll + m.height
    }
}

/// The minimal-scroll rule: when the new cursor `c` is above the viewport
/// the view scrolls up to it; when below, down just far enough; otherwise
/// the scroll offset is kept.
pub open spec fn scroll_for(scroll: int, height: int, c: int) -> int {
    if c < scroll {
        c
    } else if c >= scroll + height {
        c - height + 1
    } else {
        scroll
    }
}

/// Cursor movement with wrapping: the new index modulo the listing length.
pub open spec fn wrapped_target(cursor: int, amount: int, len: int) -> int {
    (cursor + amount) % len
}

/// Cursor movement with clamping at both ends.
pub open spec fn clamped_target(cursor: int, amount: int, len: int) -> int {
    if cursor + amount < 0 {
        0
    } else if cursor + amount > len - 1 {
        len - 1
    } else {
        cursor + amount
    }
}

/// The viewport after `move_cursor(amount, wrap)` on a listing of `len`
/// entries: a no-op on an empty listing; otherwise the wrapped or clamped
/// cursor with the minimal-scroll rule.
pub open spec fn moved_cursor(m: ViewportModel, amount: int, wrap: bool, len: int) -> ViewportModel {
    if len == 0 {
        m
    } else {
        let c = if wrap {
            wrapped_target(m.cursor, amount, len)
        } else {
            clamped_target(m.cursor, amount, len)
        };
        ViewportModel { cursor: c, scroll: scroll_for(m.scroll, m.height, c), height: m.height }
    }
}

/// The viewport after `move_cursor_to(target)`: the target clamped into the
/// listing, with the minimal-scroll rule.
pub open spec fn retargeted_cursor(m: ViewportModel, target: int, len: int) -> ViewportModel {
    if len == 0 {
        m
    } else {
        let c = if target < len {
            target
        } else {
            len - 1
        };
        ViewportModel { cursor: c, scroll: scroll_for(m.scroll, m.height, c), height: m.height }
    }
}

/// A reported height of zero rows is treated as one row.
pub open spec fn clamped_height(h: int) -> int {
    if h == 0 {
        1
    } else {
        h
    }
}

/// The viewport after a resize: the height is updated, the cursor is kept,
/// and the scroll offset is re-clamped so the cursor stays visible and no
/// blank trailing rows show unnecessarily.
pub open spec fn resized_viewport(m: ViewportModel, height: int, len: int) -> ViewportModel {
    let h = clamped_height(height);
    if len == 0 {
        ViewportModel { cursor: 0, scroll: 0, height: h }
    } else {
        let s0 = if m.cursor - m.scroll >= h {
            m.cursor - h + 1
        } else {
            m.scroll
        };
        let s1 = if len >= h {
            if s0 > len - h {
                len - h
            } else {
                s0
            }
        } else {
            0
        };
        ViewportModel { cursor: m.cursor, scroll: s1, height: h }
    }
}

/// The whole engine state: current directory, its listing, the viewport,
/// the search, and the header/info lines the renderer shows.
pub struct TereAppState {
    pub current_path: String,
    pub ls_output_buf: Vec<Entry>,
    pub cursor_pos: usize,
    pub scroll_pos: usize,
    pub main_win_w: usize,
    pub main_win_h: usize,
    pub folders_only: bool,
    pub header_msg: String,
    pub info_msg: String,
    pub search: SearchState,
}

impl TereAppState {
    pub open spec fn len(self) -> int {
        self.ls_output_buf@.len() as int
    }

    pub open spec fn names(self) -> Seq<Seq<char>> {
        names_of(self.ls_output_buf@)
    }

    pub open spec fn vp(self) -> ViewportModel {
        ViewportModel {
            cursor: self.cursor_pos as int,
            scroll: self.scroll_pos as int,
            height: self.main_win_h as int,
        }
    }

    /// The state invariant: viewport invariants, sorted listing, search
    /// consistent with listing and cursor, well-formed current path.
    pub open spec fn wf(self) -> bool {
        &&& vp_wf(self.vp(), self.len())
        &&& listing_sorted(models_of(self.ls_output_buf@))
        &&& self.search.wf(self.names(), self.cursor_pos)
        &&& path_wf(self.current_path@)
    }

    /// Everything but the viewport and the search is untouched.
    pub open spec fn browsing_context_unchanged(pre: Self, post: Self) -> bool {
        &&& post.current_path == pre.current_path
        &&& post.ls_output_buf == pre.ls_output_buf
        &&& post.folders_only == pre.folders_only
        &&& post.header_msg == pre.header_msg
        &&& post.info_msg == pre.info_msg
        &&& post.main_win_w == pre.main_win_w
        &&& post.main_win_h == pre.main_win_h
    }

    /// A cursor move leaves the search alone apart from the match pointer,
    /// which keeps tracking the cursor.
    pub open spec fn search_tracks_cursor(pre: Self, post: Self) -> bool {
        &&& post.search.active == pre.search.active
        &&& post.search.query == pre.search.query
        &&& post.search.matches == pre.search.matches
        &&& pointer_ok(post.search.matches@, post.cursor_pos, post.search.current_match_pointer)
        &&& !pre.search.active ==> post.search == pre.search
    }

    /// What `advance_search` does: the query grows by one character, the
    /// search becomes active, and the match set is recomputed in full.
    pub open spec fn advance_post(pre: Self, post: Self, c: char) -> bool {
        &&& post.search.active
        &&& post.search.query@ == pre.search.query@.push(c)
        &&& matches_correct(names_of(pre.ls_output_buf@), post.search.query@, post.search.matches@)
        &&& pointer_ok(post.search.matches@, post.cursor_pos, post.search.current_match_pointer)
        &&& post.cursor_pos == pre.cursor_pos
        &&& post.scroll_pos == pre.scroll_pos
        &&& Self::browsing_context_unchanged(pre, post)
    }

    /// What `erase_search_char` does: a no-op on an empty query, else the
    /// query shrinks by its last character and the match set is recomputed.
    pub open spec fn erase_post(pre: Self, post: Self) -> bool {
        if pre.search.query@.len() == 0 {
            post == pre
        } else {
            &&& post.search.active == pre.search.active
            &&& post.search.query@ == pre.search.query@.drop_last()
            &&& matches_correct(
                names_of(pre.ls_output_buf@),
                post.search.query@,
                post.search.matches@,
            )
            &&& pointer_ok(post.search.matches@, post.cursor_pos, post.search.current_match_pointer)
            &&& post.cursor_pos == pre.cursor_pos
            &&& post.scroll_pos == pre.scroll_pos
            &&& Self::browsing_context_unchanged(pre, post)
        }
    }

    /// What `move_cursor_to_adjacent_match` does: on a non-empty match list
    /// the cursor lands on the nearest match strictly beyond it in the given
    /// direction, wrapping around the match list when none lies there.
    pub open spec fn adjacent_match_post(pre: Self, post: Self, forward: bool) -> bool {
        let ms = pre.search.matches@;
        if ms.len() == 0 {
            post == pre
        } else {
            &&& post.search.active == pre.search.active
            &&& post.search.query == pre.search.query
            &&& post.search.matches == pre.search.matches
            &&& Self::browsing_context_unchanged(pre, post)
            &&& match post.search.current_match_pointer {
                Some(k) => {
                    &&& (k as int) < ms.len()
                    &&& post.cursor_pos == ms[k as int]
                    &&& post.scroll_pos as int == scroll_for(
                        pre.scroll_pos as int,
                        pre.main_win_h as int,
                        ms[k as int] as int,
                    )
                    &&& if forward {
                        (ms[k as int] > pre.cursor_pos && forall|j: int|
                            0 <= j < k ==> (#[trigger] ms[j]) <= pre.cursor_pos) || (k == 0
                            && forall|j: int| 0 <= j < ms.len() ==> (#[trigger] ms[j])
                            <= pre.cursor_pos)
                    } else {
                        (ms[k as int] < pre.cursor_pos && forall|j: int|
                            k < j < ms.len() ==> (#[trigger] ms[j]) >= pre.cursor_pos) || (k as int
                            == ms.len() - 1 && forall|j: int|
                            0 <= j < ms.len() ==> (#[trigger] ms[j]) >= pre.cursor_pos)
                    }
                },
                None => false,
            }
        }
    }

    /// What a successful directory change does: the listing is replaced by
    /// the filtered, sorted entries of the target, cursor and scroll reset
    /// to 0, the search is cleared, and the current path becomes the target.
    pub open spec fn change_dir_ok_post(
        pre: Self,
        post: Self,
        target: Seq<char>,
        entries: Seq<Entry>,
    ) -> bool {
        &&& post.current_path@ == target
        &&& listing_sorted(models_of(post.ls_output_buf@))
        &&& post.ls_output_buf@.to_multiset() == kept_entries(
            entries,
            pre.folders_only,
        ).to_multiset()
        &&& post.cursor_pos == 0
        &&& post.scroll_pos == 0
        &&& post.search.is_cleared()
        &&& post.folders_only == pre.folders_only
        &&& post.main_win_w == pre.main_win_w
        &&& post.main_win_h == pre.main_win_h
        &&& post.header_msg == pre.header_msg
        &&& post.info_msg == pre.info_msg
    }

    /// A fresh state: at the root with an empty listing, cleared search,
    /// and the given viewport dimensions.  The embedding program follows
    /// this with a `change_dir` into its starting directory.
    pub fn new(w: u16, h: u16, folders_only: bool) -> (s: Self)
        ensures
            s.wf(),
            s.current_path@ == seq!['/'],
            s.ls_output_buf@.len() == 0,
            s.cursor_pos == 0,
            s.scroll_pos == 0,
            s.search.is_cleared(),
            s.folders_only == folders_only,
            s.main_win_w == w as int,
            s.main_win_h as int == clamped_height(h as int),
            s.header_msg@ == seq!['/'],
            s.info_msg@.len() == 0,
    {
        let path = String::from_str("/");
        proof {
            reveal_strlit("/");
            assert(path@ =~= seq!['/']);
        }
        let header = path.clone();
        TereAppState {
            current_path: path,
            ls_output_buf: Vec::new(),
            cursor_pos: 0,
            scroll_pos: 0,
            main_win_w: w as usize,
            main_win_h: if h == 0 {
                1
            } else {
                h as usize
            },
            folders_only,
            header_msg: header,
            info_msg: String::new(),
            search: SearchState::new_cleared(),
        }
    }

    /// Refresh the header line to show the current directory.
    pub fn update_header(&mut self)
        requires
            old(self).wf(),
        ensures
            final(self).wf(),
            final(self).header_msg@ == old(self).current_path@,
            final(self).current_path == old(self).current_path,
            final(self).ls_output_buf == old(self).ls_output_buf,
            final(self).cursor_pos == old(self).cursor_pos,
            final(self).scroll_pos == old(self).scroll_pos,
            final(self).main_win_w == old(self).main_win_w,
            final(self).main_win_h == old(self).main_win_h,
            final(self).folders_only == old(self).folders_only,
            final(self).info_msg == old(self).info_msg,
            final(self).search == old(self).search,
    {
        self.header_msg = self.current_path.clone();
    }

    pub fn is_searching(&self) -> (r: bool)
        ensures
            r == self.search.active,
    {
        self.search.active
    }

    /// The viewport row the cursor sits on.
    pub fn cursor_row(&self) -> (r: usize)
        requires
            self.wf(),
        ensures
            r as int == self.vp().cursor - self.vp().scroll,
    {
        self.cursor_pos - self.scroll_pos
    }

    /// Move the cursor by `amount`, wrapping past either end when `wrap` is
    /// set and clamping otherwise; recompute the scroll offset under the
    /// minimal-scroll rule.  A no-op on an empty listing.
    pub fn move_cursor(&mut self, amount: isize, wrap: bool)
        requires
            old(self).wf(),
        ensures
            final(self).wf(),
            final(self).vp() == moved_cursor(
                old(self).vp(),
                amount as int,
                wrap,
                old(self).len(),
            ),
            Self::browsing_context_unchanged(*old(self), *final(self)),
            Self::search_tracks_cursor(*old(self), *final(self)),
    {
        let len = self.ls_output_buf.len();
        if len == 0 {
            return ;
        }
        let cur = self.cursor_pos;
        let nc: usize;
        if wrap {
            if amount >= 0 {
                let a = amount as usize;
                let step = a % len;
                nc = if step <= len - 1 - cur {
                    cur + step
                } else {
                    step - (len - cur)
                };
                proof {
                    lemma_wrap_forward(cur as int, a as int, len as int, step as int, nc as int);
                }
            } else {
                let a: usize = if amount == isize::MIN {
                    (isize::MAX as usize) + 1
                } else {
                    (-amount) as usize
                };
                let step = a % len;
                nc = if step <= cur {
                    cur - step
                } else {
                    cur + (len - step)
                };
                proof {
                    assert(a as int == -(amount as int));
                    lemma_wrap_backward(cur as int, a as int, len as int, step as int, nc as int);
                }
            }
        } else {
            if amount >= 0 {
                let a = amount as usize;
                nc = if a >= len - 1 - cur {
                    len - 1
                } else {
                    cur + a
                };
            } else {
                let a: usize = if amount == isize::MIN {
                    (isize::MAX as usize) + 1
                } else {
                    (-amount) as usize
                };
                nc = if a > cur {
                    0
                } else {
                    cur - a
                };
            }
        }
        let sc = self.scroll_pos;
        let h = self.main_win_h;
        let ns = if nc < sc {
            nc
        } else if nc - sc >= h {
            nc - (h - 1)
        } else {
            sc
        };
        self.cursor_pos = nc;
        self.scroll_pos = ns;
        if self.search.active {
            self.search.current_match_pointer = find_pointer(&self.search.matches, self.cursor_pos);
        }
    }

    /// Set the cursor to `target`, clamped into the listing (used for Home
    /// and End); recompute the scroll offset under the minimal-scroll rule.
    pub fn move_cursor_to(&mut self, target: usize)
        requires
            old(self).wf(),
        ensures
            final(self).wf(),
            final(self).vp() == retargeted_cursor(old(self).vp(), target as int, old(self).len()),
            Self::browsing_context_unchanged(*old(self), *final(self)),
            Self::search_tracks_cursor(*old(self), *final(self)),
    {
        let len = self.ls_output_buf.len();
        if len == 0 {
            return ;
        }
        let nc = if target < len {
            target
        } else {
            len - 1
        };
        let sc = self.scroll_pos;
        let h = self.main_win_h;
        let ns = if nc < sc {
            nc
        } else if nc - sc >= h {
            nc - (h - 1)
        } else {
            sc
        };
        self.cursor_pos = nc;
        self.scroll_pos = ns;
        if self.search.active {
            self.search.current_match_pointer = find_pointer(&self.search.matches, self.cursor_pos);
        }
    }

    /// Record new main-window dimensions and re-clamp the viewport: the
    /// cursor is kept, the scroll offset moves only as far as the
    /// invariants force it.
    pub fn update_main_window_dimensions(&mut self, w: u16, h: u16)
        requires
            old(self).wf(),
        ensures
            final(self).wf(),
            final(self).vp() == resized_viewport(old(self).vp(), h as int, old(self).len()),
            final(self).main_win_w == w as int,
            final(self).current_path == old(self).current_path,
            final(self).ls_output_buf == old(self).ls_output_buf,
            final(self).folders_only == old(self).folders_only,
            final(self).header_msg == old(self).header_msg,
            final(self).info_msg == old(self).info_msg,
            final(self).search == old(self).search,
            final(self).cursor_pos == old(self).cursor_pos,
    {
        self.main_win_w = w as usize;
        let h1: usize = if h == 0 {
            1
        } else {
            h as usize
        };
        self.main_win_h = h1;
        let len = self.ls_output_buf.len();
        if len == 0 {
            return ;
        }
        let cur = self.cursor_pos;
        let mut sc = self.scroll_pos;
        if cur - sc >= h1 {
            sc = cur - (h1 - 1);
        }
        if len >= h1 {
            if sc > len - h1 {
                sc = len - h1;
            }
        } else {
            sc = 0;
        }
        self.scroll_pos = sc;
    }

    /// While a search is active, jump to the nearest match strictly before
    /// (`dir < 0`) or after (`dir > 0`) the cursor, wrapping around the
    /// match list when none lies in that direction.  A no-op when there are
    /// no matches.
    #[verifier::rlimit(60)]
    pub fn move_cursor_to_adjacent_match(&mut self, dir: isize)
        requires
            old(self).wf(),
            old(self).search.active,
            dir != 0,
        ensures
            final(self).wf(),
            Self::adjacent_match_post(*old(self), *final(self), dir > 0),
    {
        let n = self.search.matches.len();
        if n == 0 {
            return ;
        }
        let cur = self.cursor_pos;
        let ki: usize;
        if dir > 0 {
            let mut k: usize = 0;
            loop
                invariant
                    k <= n,
                    n == self.search.matches@.len(),
                    forall|x: int| 0 <= x < k ==> (#[trigger] self.search.matches@[x]) <= cur,
                ensures
                    k <= n,
                    forall|x: int| 0 <= x < k ==> (#[trigger] self.search.matches@[x]) <= cur,
                    k == n || self.search.matches@[k as int] > cur,
                decreases n - k,
            {
                if k == n {
                    break ;
                }
                if self.search.matches[k] > cur {
                    break ;
                }
                k = k + 1;
            }
            ki = if k < n {
                k
            } else {
                0
            };
        } else {
            let mut k: usize = n;
            loop
                invariant
                    k <= n,
                    n == self.search.matches@.len(),
                    forall|x: int| k <= x < n ==> (#[trigger] self.search.matches@[x]) >= cur,
                ensures
                    k <= n,
                    forall|x: int| k <= x < n ==> (#[trigger] self.search.matches@[x]) >= cur,
                    k == 0 || self.search.matches@[k - 1] < cur,
                decreases k,
            {
                if k == 0 {
                    break ;
                }
                if self.search.matches[k - 1] < cur {
                    break ;
                }
                k = k - 1;
            }
            ki = if k > 0 {
                k - 1
            } else {
                n - 1
            };
        }
        let target = self.search.matches[ki];
        proof {
            assert(self.search.matches@[ki as int] < names_of(self.ls_output_buf@).len());
        }
        let sc = self.scroll_pos;
        let h = self.main_win_h;
        let ns = if target < sc {
            target
        } else if target - sc >= h {
            target - (h - 1)
        } else {
            sc
        };
        self.cursor_pos = target;
        self.scroll_pos = ns;
        self.search.current_match_pointer = Some(ki);
    }

    /// Append one character to the query, mark the search active, and
    /// recompute the match set over the current listing.  Returns whether
    /// exactly one match remains — the auto-select signal.
    pub fn advance_search(&mut self, c: char) -> (auto_select: bool)
        requires
            old(self).wf(),
        ensures
            final(self).wf(),
            Self::advance_post(*old(self), *final(self), c),
            auto_select == (final(self).search.matches@.len() == 1),
    {
        self.search.active = true;
        self.search.query.push(c);
        let ms = compute_matches(&self.ls_output_buf, &self.search.query);
        self.search.matches = ms;
        self.search.current_match_pointer = find_pointer(&self.search.matches, self.cursor_pos);
        self.search.matches.len() == 1
    }

    /// Drop the last character of the query (a no-op when it is empty) and
    /// recompute the match set.  The search stays active even on an empty
    /// query until cleared explicitly.
    pub fn erase_search_char(&mut self)
        requires
            old(self).wf(),
        ensures
            final(self).wf(),
            Self::erase_post(*old(self), *final(self)),
    {
        if self.search.query.len() == 0 {
            return ;
        }
        self.search.query.pop();
        let ms = compute_matches(&self.ls_output_buf, &self.search.query);
        self.search.matches = ms;
        self.search.current_match_pointer = find_pointer(&self.search.matches, self.cursor_pos);
    }

    /// Leave search mode: inactive, empty query, no matches.
    pub fn clear_search(&mut self)
        requires
            old(self).wf(),
        ensures
            final(self).wf(),
            final(self).search.is_cleared(),
            final(self).cursor_pos == old(self).cursor_pos,
            final(self).scroll_pos == old(self).scroll_pos,
            Self::browsing_context_unchanged(*old(self), *final(self)),
    {
        self.search = SearchState::new_cleared();
    }

    /// Resolve a requested directory change to an absolute target path.
    /// The empty string means "enter the selected entry" (nothing to do
    /// when the listing is empty or the selection is not a directory);
    /// `..` means the parent (nothing to do at the root); anything else is
    /// taken as a path, absolute as given or joined onto the current
    /// directory.  `None` means the request is a no-op, not an error.
    pub fn resolve_target(&self, input: &str) -> (r: Option<String>)
        requires
            self.wf(),
        ensures
            match r {
                Some(t) => path_wf(t@) && t@ == self.resolved_target_spec(input@),
                None => self.resolves_to_noop(input@),
            },
            r is Some <==> !self.resolves_to_noop(input@),
    {
        let n = input.unicode_len();
        if n == 0 {
            if self.ls_output_buf.len() == 0 {
                return None;
            }
            let e = &self.ls_output_buf[self.cursor_pos];
            if e.is_dir() {
                Some(join_path(&self.current_path, e.display_name().as_str()))
            } else {
                None
            }
        } else {
            let mut is_parent = false;
            if n == 2 {
                if input.get_char(0) == '.' && input.get_char(1) == '.' {
                    is_parent = true;
                }
            }
            proof {
                assert(is_parent <==> input@ =~= seq!['.', '.']);
            }
            if is_parent {
                if self.current_path.as_str().unicode_len() == 1 {
                    None
                } else {
                    Some(parent_path(&self.current_path))
                }
            } else if input.get_char(0) == '/' {
                Some(String::from_str(input))
            } else {
                Some(join_path(&self.current_path, input))
            }
        }
    }

    /// Whether a change-directory request is a no-op: entering a
    /// non-directory (or with an empty listing), or asking for the parent
    /// of the root.
    pub open spec fn resolves_to_noop(self, input: Seq<char>) -> bool {
        if input.len() == 0 {
            self.len() == 0 || !self.ls_output_buf@[self.cursor_pos as int].is_dir_spec()
        } else if input == seq!['.', '.'] {
            is_root(self.current_path@)
        } else {
            false
        }
    }

    /// The absolute path a non-no-op request resolves to.
    pub open spec fn resolved_target_spec(self, input: Seq<char>) -> Seq<char> {
        if input.len() == 0 {
            joined(self.current_path@, self.ls_output_buf@[self.cursor_pos as int].name_chars())
        } else if input == seq!['.', '.'] {
            parent_of(self.current_path@)
        } else if input[0] == '/' {
            input
        } else {
            joined(self.current_path@, input)
        }
    }

    /// Apply the outcome of reading the target directory.  On success the
    /// listing is replaced wholesale (filtered and sorted), cursor and
    /// scroll reset to 0, the search is cleared and the current path
    /// becomes the target.  On failure the whole state is left exactly as
    /// it was and the error is returned to the caller.
    pub fn change_dir(&mut self, target: &str, outcome: Result<Vec<Entry>, NavError>) -> (r: Result<
        (),
        NavError,
    >)
        requires
            old(self).wf(),
            path_wf(target@),
        ensures
            final(self).wf(),
            match outcome {
                Ok(entries) => r is Ok && Self::change_dir_ok_post(
                    *old(self),
                    *final(self),
                    target@,
                    entries@,
                ),
                Err(e) => *final(self) == *old(self) && r == Err::<(), NavError>(e),
            },
    {
        match outcome {
            Err(e) => Err(e),
            Ok(entries) => {
                let listing = build_listing(entries, self.folders_only);
                self.ls_output_buf = listing;
                self.cursor_pos = 0;
                self.scroll_pos = 0;
                self.search = SearchState::new_cleared();
                self.current_path = String::from_str(target);
                Ok(())
            },
        }
    }
}

/// On a listing of `len` entries, stepping forward by `a` with wrapping
/// lands on `(cur + a) % len`, and the case arithmetic used to compute it
/// without overflow agrees with that.
proof fn lemma_wrap_forward(cur: int, a: int, len: int, step: int, t: int)
    requires
        0 <= cur < len,
        0 <= a,
        step == a % len,
        t == if step <= len - 1 - cur {
            cur + step
        } else {
            cur + step - len
        },
    ensures
        t == (cur + a) % len,
        0 <= t < len,
{
    lemma_mod_bound(a, len);
    lemma_add_mod_noop(cur, a, len);
    lemma_small_mod(cur as nat, len as nat);
    if step <= len - 1 - cur {
        lemma_small_mod((cur + step) as nat, len as nat);
    } else {
        lemma_mod_add_multiples_vanish(cur + step - len, len);
        lemma_small_mod((cur + step - len) as nat, len as nat);
    }
}

/// The backward counterpart: stepping back by `a` with wrapping lands on
/// `(cur - a) % len` (always in `[0, len)`).
proof fn lemma_wrap_backward(cur: int, a: int, len: int, step: int, t: int)
    requires
        0 <= cur < len,
        0 <= a,
        step == a % len,
        t == if step <= cur {
            cur - step
        } else {
            cur + len - step
        },
    ensures
        t == (cur - a) % len,
        0 <= t < len,
{
    lemma_mod_bound(a, len);
    lemma_sub_mod_noop(cur, a, len);
    lemma_small_mod(cur as nat, len as nat);
    if step <= cur {
        lemma_small_mod((cur - step) as nat, len as nat);
    } else {
        lemma_mod_add_multiples_vanish(cur - step, len);
        lemma_small_mod((cur + len - step) as nat, len as nat);
    }
}

} // verus!
