//! Core state engine for an interactive directory browser.
//!
//! The library owns the current directory listing, the cursor/scroll
//! coordinate system that maps a bounded viewport onto the listing, and an
//! incremental search over entry names.  All state transitions are verified:
//! the viewport invariants hold after every operation, search matches are
//! exactly the indices whose names match the query, and a failed directory
//! change leaves the state untouched.
//!
//! The library performs no I/O: reading directories, decoding key events and
//! drawing to the terminal are left to the embedding program, which feeds the
//! engine plain values and renders the state it exposes.

mod entry;
mod laws;
mod listing;
mod nav;
mod search;
mod state;
mod ui;

pub use entry::Entry;
pub use entry::EntryKind;
pub use entry::EntryModel;
pub use entry::EntryName;
pub use laws::lemma_erase_undoes_advance;
pub use laws::lemma_matches_unique;
pub use laws::lemma_move_cursor_keeps_viewport_wf;
pub use laws::lemma_no_wrap_clamps;
pub use laws::lemma_wrap_from_first;
pub use laws::lemma_wrap_from_last;
pub use listing::build_listing;
pub use listing::entry_le;
pub use listing::kept_entries;
pub use listing::lex_le;
pub use listing::listing_sorted;
pub use listing::models_of;
pub use nav::NavError;
pub use nav::is_root;
pub use nav::joined;
pub use nav::parent_of;
pub use nav::path_wf;
pub use search::SearchState;
pub use search::is_prefix;
pub use search::matches_correct;
pub use search::names_of;
pub use search::pointer_ok;
pub use state::TereAppState;
pub use state::ViewportModel;
pub use state::clamped_height;
pub use state::clamped_target;
pub use state::moved_cursor;
pub use state::resized_viewport;
pub use state::retargeted_cursor;
pub use state::scroll_for;
pub use state::vp_wf;
pub use state::wrapped_target;
pub use ui::RowPaint;
pub use ui::TereTui;
pub use ui::change_dir_done;
pub use ui::change_dir_failed;
pub use ui::row_paint_ok;
pub use ui::search_char_post;
