//! Directory entries: a display name (decoded text, or a lossy fallback when
//! the raw name is not valid text) together with a kind flag.

use vstd::prelude::*;

verus! {

/// Whether an entry is a directory (navigable) or anything else.
#[derive(Clone, Copy, PartialEq, Eq, Structural, Debug)]
pub enum EntryKind {
    Directory,
    Other,
}

/// The display name of an entry.  `Valid` carries a name that decoded
/// cleanly; `Unrepresentable` carries a best-effort fallback rendering of a
/// raw name that was not valid text.  Either way the carried text is what is
/// shown, searched and sorted on.
#[derive(Clone, Debug)]
pub enum EntryName {
    Valid(String),
    Unrepresentable(String),
}

/// One child of a directory, immutable once read.
#[derive(Clone, Debug)]
pub struct Entry {
    pub name: EntryName,
    pub kind: EntryKind,
}

impl EntryName {
    /// The characters of the carried text, whichever variant holds it.
    pub open spec fn chars(self) -> Seq<char> {
        match self {
            EntryName::Valid(s) => s@,
            EntryName::Unrepresentable(s) => s@,
        }
    }
}

/// Mathematical image of an [`Entry`]: just the facts the engine's logic
/// reads — the display text and whether the entry is a directory.
pub ghost struct EntryModel {
    pub name: Seq<char>,
    pub is_dir: bool,
}

impl Entry {
    /// The display text's characters.
    pub open spec fn name_chars(self) -> Seq<char> {
        self.name.chars()
    }

    pub open spec fn is_dir_spec(self) -> bool {
        self.kind == EntryKind::Directory
    }

    pub open spec fn model(self) -> EntryModel {
        EntryModel { name: self.name_chars(), is_dir: self.is_dir_spec() }
    }

    /// Build an entry from its display text and kind.
    pub fn new(name: String, name_valid: bool, kind: EntryKind) -> (e: Entry)
        ensures
            e.name_chars() == name@,
            e.kind == kind,
            (e.name is Valid) == name_valid,
    {
        if name_valid {
            Entry { name: EntryName::Valid(name), kind }
        } else {
            Entry { name: EntryName::Unrepresentable(name), kind }
        }
    }

    /// The text shown, searched and sorted on.
    pub fn display_name(&self) -> (s: &String)
        ensures
            s@ == self.name_chars(),
    {
        match &self.name {
            EntryName::Valid(s) => s,
            EntryName::Unrepresentable(s) => s,
        }
    }

    pub fn is_dir(&self) -> (b: bool)
        ensures
            b == self.is_dir_spec(),
    {
        self.kind == EntryKind::Directory
    }
}

} // verus!
