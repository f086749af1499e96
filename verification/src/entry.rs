//! The entries of an archive as plain values.

use vstd::prelude::*;

verus! {

/// What an entry stands for.
#[derive(Clone, Copy, Debug, PartialEq, Eq, Structural)]
pub enum EntryKind {
    Directory,
    File,
}

/// One entry of an archive: its path inside the archive, what it stands for,
/// and, for a file, its bytes. A directory carries no bytes.
#[derive(Clone, Debug, PartialEq, Eq)]
pub struct ArchiveEntry {
    pub path: String,
    pub kind: EntryKind,
    pub content: Vec<u8>,
}

/// An entry as mathematics sees it.
pub struct EntryModel {
    pub path: Seq<char>,
    pub kind: EntryKind,
    pub content: Seq<u8>,
}

impl View for ArchiveEntry {
    type V = EntryModel;

    open spec fn view(&self) -> EntryModel {
        EntryModel { path: self.path@, kind: self.kind, content: self.content@ }
    }
}

/// The models of a sequence of entries, in the same order.
pub open spec fn entry_models(entries: Seq<ArchiveEntry>) -> Seq<EntryModel> {
    Seq::new(entries.len(), |i: int| entries[i]@)
}

/// The paths of a sequence of entries, in the same order.
pub open spec fn entry_paths(entries: Seq<EntryModel>) -> Seq<Seq<char>> {
    Seq::new(entries.len(), |i: int| entries[i].path)
}

} // verus!
