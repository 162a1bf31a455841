//! The user-interface facade: it owns the engine state and turns every
//! input event into a state transition plus a description of what to draw.
//! The embedding program performs the actual terminal output; nothing here
//! touches the terminal.

use vstd::prelude::*;
use vstd::string::*;
use crate::entry::Entry;
use crate::listing::kept_entries;
use crate::listing::listing_sorted;
use crate::listing::models_of;
use crate::nav::NavError;
use crate::nav::path_wf;
use crate::search::matches_correct;
use crate::search::names_of;
use crate::search::pointer_ok;
use crate::state::TereAppState;
use crate::state::moved_cursor;
use crate::state::resized_viewport;
use crate::state::retargeted_cursor;
use crate::state::scroll_for;

verus! {

/// What one main-window row should show: its text, whether it is drawn
/// bold (directories), whether it is the highlighted cursor row, and how
/// many leading characters to underline (the search match).
pub struct RowPaint {
    pub text: String,
    pub bold: bool,
    pub highlighted: bool,
    pub underline_len: usize,
}

/// `p` correctly describes row `row` of the main window for state `s`.
pub open spec fn row_paint_ok(s: TereAppState, row: int, p: RowPaint, highlighted: bool) -> bool {
    let idx = s.scroll_pos + row;
    &&& p.highlighted == highlighted
    &&& if idx < s.ls_output_buf@.len() {
        p.text@ == s.ls_output_buf@[idx].name_chars() && p.bold == s.ls_output_buf@[
            idx
        ].is_dir_spec()
    } else {
        p.text@.len() == 0 && !p.bold
    }
    &&& p.underline_len == if !highlighted && s.search.active {
        s.search.query@.len() as int
    } else {
        0
    }
}

/// A successful directory change as the facade leaves it: the engine reset
/// onto the new listing, the header showing the new path, the info line
/// cleared.
pub open spec fn change_dir_done(
    pre: TereAppState,
    post: TereAppState,
    target: Seq<char>,
    entries: Seq<Entry>,
) -> bool {
    &&& post.current_path@ == target
    &&& listing_sorted(models_of(post.ls_output_buf@))
    &&& post.ls_output_buf@.to_multiset() == kept_entries(entries, pre.folders_only).to_multiset()
    &&& post.cursor_pos == 0
    &&& post.scroll_pos == 0
    &&& post.search.is_cleared()
    &&& post.folders_only == pre.folders_only
    &&& post.main_win_w == pre.main_win_w
    &&& post.main_win_h == pre.main_win_h
    &&& post.header_msg@ == target
    &&& post.info_msg@ == Seq::<char>::empty()
}

/// A failed directory change as the facade leaves it: listing, viewport,
/// search, path and header exactly as they were; only the info line now
/// carries the error.
pub open spec fn change_dir_failed(pre: TereAppState, post: TereAppState, e: NavError) -> bool {
    &&& post.current_path == pre.current_path
    &&& post.ls_output_buf == pre.ls_output_buf
    &&& post.cursor_pos == pre.cursor_pos
    &&& post.scroll_pos == pre.scroll_pos
    &&& post.search == pre.search
    &&& post.folders_only == pre.folders_only
    &&& post.main_win_w == pre.main_win_w
    &&& post.main_win_h == pre.main_win_h
    &&& post.header_msg == pre.header_msg
    &&& post.info_msg@ == "error: "@ + e.message_spec()
}

/// What typing one search character does: the query grows, the match set
/// is recomputed, and on a single remaining match the cursor jumps to it
/// and the auto-select signal is returned.
pub open spec fn search_char_post(
    pre: TereAppState,
    post: TereAppState,
    c: char,
    auto_select: bool,
) -> bool {
    &&& post.search.active
    &&& post.search.query@ == pre.search.query@.push(c)
    &&& matches_correct(names_of(pre.ls_output_buf@), post.search.query@, post.search.matches@)
    &&& pointer_ok(post.search.matches@, post.cursor_pos, post.search.current_match_pointer)
    &&& TereAppState::browsing_context_unchanged(pre, post)
    &&& auto_select == (post.search.matches@.len() == 1)
    &&& if auto_select {
        post.cursor_pos == post.search.matches@[0] && post.scroll_pos as int == scroll_for(
            pre.scroll_pos as int,
            pre.main_win_h as int,
            post.search.matches@[0] as int,
        )
    } else {
        post.cursor_pos == pre.cursor_pos && post.scroll_pos == pre.scroll_pos
    }
}

/// The facade over the engine state.  Its methods return what must be
/// redrawn; the embedding program draws it.
pub struct TereTui {
    pub app_state: TereAppState,
}

impl TereTui {
    pub open spec fn wf(self) -> bool {
        self.app_state.wf()
    }

    /// A fresh facade at the filesystem root; the embedding program
    /// follows this with a `change_dir` into its starting directory.
    pub fn new(w: u16, h: u16, folders_only: bool) -> (s: Self)
        ensures
            s.wf(),
            s.app_state.current_path@ == seq!['/'],
            s.app_state.ls_output_buf@.len() == 0,
            s.app_state.cursor_pos == 0,
            s.app_state.scroll_pos == 0,
            s.app_state.search.is_cleared(),
            s.app_state.folders_only == folders_only,
    {
        TereTui { app_state: TereAppState::new(w, h, folders_only) }
    }

    /// Refresh the header line to show the current directory.
    pub fn update_header(&mut self)
        requires
            old(self).wf(),
        ensures
            final(self).wf(),
            final(self).app_state.header_msg@ == old(self).app_state.current_path@,
            final(self).app_state.current_path == old(self).app_state.current_path,
            final(self).app_state.ls_output_buf == old(self).app_state.ls_output_buf,
            final(self).app_state.cursor_pos == old(self).app_state.cursor_pos,
            final(self).app_state.scroll_pos == old(self).app_state.scroll_pos,
            final(self).app_state.search == old(self).app_state.search,
            final(self).app_state.info_msg == old(self).app_state.info_msg,
            final(self).app_state.folders_only == old(self).app_state.folders_only,
            final(self).app_state.main_win_w == old(self).app_state.main_win_w,
            final(self).app_state.main_win_h == old(self).app_state.main_win_h,
    {
        self.app_state.update_header();
    }

    /// Set the info line.
    pub fn info_message(&mut self, msg: &str)
        requires
            old(self).wf(),
        ensures
            final(self).wf(),
            final(self).app_state.info_msg@ == msg@,
            final(self).app_state == (TereAppState {
                info_msg: final(self).app_state.info_msg,
                ..old(self).app_state
            }),
    {
        self.app_state.info_msg = String::from_str(msg);
    }

    /// Set the info line to an error: the message prefixed with `error: `.
    pub fn error_message(&mut self, msg: &str)
        requires
            old(self).wf(),
        ensures
            final(self).wf(),
            final(self).app_state.info_msg@ == "error: "@ + msg@,
            final(self).app_state == (TereAppState {
                info_msg: final(self).app_state.info_msg,
                ..old(self).app_state
            }),
    {
        let mut m = String::from_str("error: ");
        m.append(msg);
        self.app_state.info_msg = m;
    }

    /// The listing index shown on main-window row `row`.
    pub fn row_to_buf_idx(&self, row: u16) -> (idx: usize)
        requires
            self.app_state.scroll_pos + row as int <= usize::MAX,
        ensures
            idx == self.app_state.scroll_pos + row as int,
    {
        self.app_state.scroll_pos + row as usize
    }

    /// The entry shown on main-window row `row`, if that row is occupied.
    pub fn get_item_at_row(&self, row: u16) -> (r: Option<&Entry>)
        requires
            self.app_state.scroll_pos + row as int <= usize::MAX,
        ensures
            match r {
                Some(e) => self.app_state.scroll_pos + row < self.app_state.ls_output_buf@.len()
                    && *e == self.app_state.ls_output_buf@[self.app_state.scroll_pos + row as int],
                None => self.app_state.scroll_pos + row >= self.app_state.ls_output_buf@.len(),
            },
    {
        let idx = self.row_to_buf_idx(row);
        if idx < self.app_state.ls_output_buf.len() {
            Some(&self.app_state.ls_output_buf[idx])
        } else {
            None
        }
    }

    /// Describe main-window row `row` drawn without the cursor highlight;
    /// while a search is active its leading query-length characters are
    /// underlined.
    pub fn unhighlight_row(&self, row: u16) -> (p: RowPaint)
        requires
            self.wf(),
            self.app_state.scroll_pos + row as int <= usize::MAX,
        ensures
            row_paint_ok(self.app_state, row as int, p, false),
    {
        let underline_len = if self.app_state.search.active {
            self.app_state.search.query.len()
        } else {
            0
        };
        match self.get_item_at_row(row) {
            Some(e) => RowPaint {
                text: e.display_name().clone(),
                bold: e.is_dir(),
                highlighted: false,
                underline_len,
            },
            None => RowPaint { text: String::new(), bold: false, highlighted: false, underline_len },
        }
    }

    /// Describe main-window row `row` drawn highlighted as the cursor row;
    /// the embedding program clears the other rows around it.
    pub fn highlight_row_exclusive(&self, row: u32) -> (p: RowPaint)
        requires
            self.wf(),
            self.app_state.scroll_pos + row as int <= usize::MAX,
        ensures
            row_paint_ok(self.app_state, row as int, p, true),
    {
        let idx = self.app_state.scroll_pos + row as usize;
        match if idx < self.app_state.ls_output_buf.len() {
            Some(&self.app_state.ls_output_buf[idx])
        } else {
            None
        } {
            Some(e) => RowPaint {
                text: e.display_name().clone(),
                bold: e.is_dir(),
                highlighted: true,
                underline_len: 0,
            },
            None => RowPaint { text: String::new(), bold: false, highlighted: true, underline_len: 0 },
        }
    }

    /// Move the cursor by `amount` (wrapping or clamping) and report
    /// whether the view scrolled, in which case the whole main window
    /// needs redrawing rather than just the cursor row.
    pub fn move_cursor(&mut self, amount: isize, wrap: bool) -> (scrolled: bool)
        requires
            old(self).wf(),
        ensures
            final(self).wf(),
            final(self).app_state.vp() == moved_cursor(
                old(self).app_state.vp(),
                amount as int,
                wrap,
                old(self).app_state.len(),
            ),
            TereAppState::browsing_context_unchanged(old(self).app_state, final(self).app_state),
            TereAppState::search_tracks_cursor(old(self).app_state, final(self).app_state),
            scrolled == (final(self).app_state.scroll_pos != old(self).app_state.scroll_pos),
    {
        let old_scroll = self.app_state.scroll_pos;
        self.app_state.move_cursor(amount, wrap);
        self.app_state.scroll_pos != old_scroll
    }

    /// Apply the outcome of reading `target`.  On success the engine is
    /// reset onto the new listing, the header updated and the info line
    /// cleared; on failure the state is untouched and the info line shows
    /// the error.
    pub fn change_dir(&mut self, target: &str, outcome: Result<Vec<Entry>, NavError>)
        requires
            old(self).wf(),
            path_wf(target@),
        ensures
            final(self).wf(),
            match outcome {
                Ok(entries) => change_dir_done(
                    old(self).app_state,
                    final(self).app_state,
                    target@,
                    entries@,
                ),
                Err(e) => change_dir_failed(old(self).app_state, final(self).app_state, e),
            },
    {
        match self.app_state.change_dir(target, outcome) {
            Err(e) => {
                let m = e.message();
                self.error_message(m.as_str());
            },
            Ok(()) => {
                self.update_header();
                self.info_message("");
                proof {
                    reveal_strlit("");
                    assert(""@ =~= Seq::<char>::empty());
                }
            },
        }
    }

    /// Append one typed character to the search.  When exactly one match
    /// remains, the cursor jumps to it and `true` is returned: the caller
    /// should briefly show the selection and then enter it.
    pub fn on_search_char(&mut self, c: char) -> (auto_select: bool)
        requires
            old(self).wf(),
        ensures
            final(self).wf(),
            search_char_post(old(self).app_state, final(self).app_state, c, auto_select),
    {
        let auto = self.app_state.advance_search(c);
        if auto {
            let m = self.app_state.search.matches[0];
            self.app_state.move_cursor_to(m);
        }
        auto
    }

    /// Drop the last search character and recompute the matches.
    pub fn erase_search_char(&mut self)
        requires
            old(self).wf(),
        ensures
            final(self).wf(),
            TereAppState::erase_post(old(self).app_state, final(self).app_state),
    {
        self.app_state.erase_search_char();
    }

    /// Record new main-window dimensions and re-clamp the viewport.
    pub fn on_resize(&mut self, w: u16, h: u16)
        requires
            old(self).wf(),
        ensures
            final(self).wf(),
            final(self).app_state.vp() == resized_viewport(
                old(self).app_state.vp(),
                h as int,
                old(self).app_state.len(),
            ),
            final(self).app_state.main_win_w == w as int,
            final(self).app_state.cursor_pos == old(self).app_state.cursor_pos,
            final(self).app_state.current_path == old(self).app_state.current_path,
            final(self).app_state.ls_output_buf == old(self).app_state.ls_output_buf,
            final(self).app_state.search == old(self).app_state.search,
            final(self).app_state.header_msg == old(self).app_state.header_msg,
            final(self).app_state.info_msg == old(self).app_state.info_msg,
            final(self).app_state.folders_only == old(self).app_state.folders_only,
    {
        self.app_state.update_main_window_dimensions(w, h);
    }

    /// An up or down arrow: during a search, jump to the adjacent match;
    /// otherwise move the cursor one step with wrapping.  Returns whether
    /// the whole main window needs redrawing.
    pub fn on_arrow_key(&mut self, up: bool) -> (redraw_all: bool)
        requires
            old(self).wf(),
        ensures
            final(self).wf(),
            old(self).app_state.search.active ==> redraw_all
                && TereAppState::adjacent_match_post(
                old(self).app_state,
                final(self).app_state,
                !up,
            ),
            !old(self).app_state.search.active ==> final(self).app_state.vp() == moved_cursor(
                old(self).app_state.vp(),
                if up {
                    -1
                } else {
                    1
                },
                true,
                old(self).app_state.len(),
            ) && TereAppState::browsing_context_unchanged(
                old(self).app_state,
                final(self).app_state,
            ) && TereAppState::search_tracks_cursor(old(self).app_state, final(self).app_state)
                && redraw_all == (final(self).app_state.scroll_pos
                != old(self).app_state.scroll_pos),
    {
        if self.app_state.is_searching() {
            self.app_state.move_cursor_to_adjacent_match(
                if up {
                    -1
                } else {
                    1
                },
            );
            true
        } else {
            self.move_cursor(
                if up {
                    -1
                } else {
                    1
                },
                true,
            )
        }
    }

    /// Page up or down: outside a search, move the cursor by one viewport
    /// height minus one, clamped at the ends; during a search, do nothing.
    /// Returns whether the view scrolled.
    pub fn on_page_up_down(&mut self, up: bool) -> (scrolled: bool)
        requires
            old(self).wf(),
        ensures
            final(self).wf(),
            old(self).app_state.search.active ==> *final(self) == *old(self) && !scrolled,
            !old(self).app_state.search.active ==> final(self).app_state.vp() == moved_cursor(
                old(self).app_state.vp(),
                if up {
                    1 - old(self).app_state.main_win_h as int
                } else {
                    old(self).app_state.main_win_h as int - 1
                },
                false,
                old(self).app_state.len(),
            ) && TereAppState::browsing_context_unchanged(
                old(self).app_state,
                final(self).app_state,
            ) && TereAppState::search_tracks_cursor(old(self).app_state, final(self).app_state)
                && scrolled == (final(self).app_state.scroll_pos
                != old(self).app_state.scroll_pos),
    {
        if self.app_state.is_searching() {
            return false;
        }
        let delta = self.app_state.main_win_h - 1;
        let amount: isize = if up {
            -(delta as isize)
        } else {
            delta as isize
        };
        self.move_cursor(amount, false)
    }

    /// Home or End: outside a search, jump to the first or past the last
    /// entry (clamped); during a search, do nothing.  Returns whether the
    /// cursor was moved.
    pub fn on_home_end(&mut self, home: bool) -> (moved: bool)
        requires
            old(self).wf(),
        ensures
            final(self).wf(),
            old(self).app_state.search.active ==> *final(self) == *old(self) && !moved,
            !old(self).app_state.search.active ==> moved && final(self).app_state.vp()
                == retargeted_cursor(
                old(self).app_state.vp(),
                if home {
                    0
                } else {
                    old(self).app_state.len()
                },
                old(self).app_state.len(),
            ) && TereAppState::browsing_context_unchanged(
                old(self).app_state,
                final(self).app_state,
            ) && TereAppState::search_tracks_cursor(old(self).app_state, final(self).app_state),
    {
        if self.app_state.is_searching() {
            return false;
        }
        let target = if home {
            0
        } else {
            self.app_state.ls_output_buf.len()
        };
        self.app_state.move_cursor_to(target);
        true
    }

    pub fn is_searching(&self) -> (r: bool)
        ensures
            r == self.app_state.search.active,
    {
        self.app_state.is_searching()
    }

    /// Leave search mode.
    pub fn clear_search(&mut self)
        requires
            old(self).wf(),
        ensures
            final(self).wf(),
            final(self).app_state.search.is_cleared(),
            final(self).app_state.cursor_pos == old(self).app_state.cursor_pos,
            final(self).app_state.scroll_pos == old(self).app_state.scroll_pos,
            TereAppState::browsing_context_unchanged(old(self).app_state, final(self).app_state),
    {
        self.app_state.clear_search();
    }

    /// The viewport row the cursor sits on.
    pub fn cursor_row(&self) -> (r: usize)
        requires
            self.wf(),
        ensures
            r as int == self.app_state.cursor_pos - self.app_state.scroll_pos,
    {
        self.app_state.cursor_row()
    }
}

} // verus!
