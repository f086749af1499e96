//! Reading the entries of a ZIP archive that is held in memory.
//!
//! The archive is parsed by the `zip` crate. What that crate computes is
//! named here, not restated: `zip_contents` stands for the archive that the
//! crate finds in a sequence of bytes.

use vstd::prelude::*;
use crate::entry::{entry_models, ArchiveEntry, EntryKind, EntryModel};
use crate::error::{ErrorModel, ExtractError};

verus! {

/// `zip::ZipArchive`, carried through as an opaque value.
#[verifier::external_type_specification]
#[verifier::external_body]
#[verifier::reject_recursive_types(R)]
pub struct ExZipArchive<R>(zip::ZipArchive<R>);

/// `std::io::Cursor`, carried through as an opaque value.
#[verifier::external_type_specification]
#[verifier::external_body]
#[verifier::reject_recursive_types(T)]
pub struct ExCursor<T>(std::io::Cursor<T>);

/// `zip::result::ZipError`, carried through as an opaque value.
#[verifier::external_type_specification]
#[verifier::external_body]
pub struct ExZipError(zip::result::ZipError);

/// What the `zip` crate makes of one entry of an archive.
pub struct ZipSlot {
    /// The entry's name and whether it stands for a directory; `None` where
    /// the entry cannot be opened or its name cannot be decoded.
    pub meta: Option<(Seq<char>, bool)>,
    /// The entry's bytes after decompression; `None` where the entry cannot
    /// be opened or its data does not decompress to what its header declares.
    pub payload: Option<Seq<u8>>,
}

/// The entries that `zip::ZipArchive::new` finds in `bytes`, in the order of
/// the central directory; `None` where it refuses `bytes` as an archive.
pub uninterp spec fn zip_contents(bytes: Seq<u8>) -> Option<Seq<ZipSlot>>;

/// The entries of an opened archive, in the order of its central directory.
pub uninterp spec fn zip_slots(archive: zip::ZipArchive<std::io::Cursor<Vec<u8>>>) -> Seq<ZipSlot>;

/// `zip::ZipArchive::new` on a cursor over `bytes`. The outcome depends on
/// `bytes` alone: the archive's entries are those that `zip_contents` names,
/// and an error comes exactly where `zip_contents` names none.
#[verifier::external_body]
fn zip_open(bytes: Vec<u8>) -> (r: Result<
    zip::ZipArchive<std::io::Cursor<Vec<u8>>>,
    zip::result::ZipError,
>)
    ensures
        match r {
            Ok(archive) => zip_contents(bytes@) == Some(zip_slots(archive)),
            Err(_) => zip_contents(bytes@) is None,
        },
{
    zip::ZipArchive::new(std::io::Cursor::new(bytes))
}

/// `zip::ZipArchive::len`: the number of entries in the central directory.
#[verifier::external_body]
fn zip_len(archive: &zip::ZipArchive<std::io::Cursor<Vec<u8>>>) -> (n: usize)
    ensures
        n == zip_slots(*archive).len(),
{
    archive.len()
}

/// `zip::ZipArchive::by_index`, then `name` and `is_dir` of the entry it
/// opens. Succeeds exactly where the entry's `meta` is there, and then
/// returns it. The archive's entries stay what they were.
#[verifier::external_body]
fn zip_entry_meta(archive: &mut zip::ZipArchive<std::io::Cursor<Vec<u8>>>, index: usize) -> (r:
    Result<(String, bool), zip::result::ZipError>)
    ensures
        zip_slots(*final(archive)) == zip_slots(*old(archive)),
        match r {
            Ok(meta) => index < zip_slots(*old(archive)).len() && zip_slots(
                *old(archive),
            )[index as int].meta == Some((meta.0@, meta.1)),
            Err(_) => index >= zip_slots(*old(archive)).len() || zip_slots(
                *old(archive),
            )[index as int].meta is None,
        },
{
    let file = archive.by_index(index)?;
    let name = file.name()?.into_owned();
    Ok((name, file.is_dir()))
}

/// `zip::ZipArchive::by_index`, then all bytes of the entry it opens, read
/// to the end. Succeeds exactly where the entry's `payload` is there, and
/// then returns it. The archive's entries stay what they were.
#[verifier::external_body]
fn zip_entry_content(archive: &mut zip::ZipArchive<std::io::Cursor<Vec<u8>>>, index: usize) -> (r:
    Result<Vec<u8>, zip::result::ZipError>)
    ensures
        zip_slots(*final(archive)) == zip_slots(*old(archive)),
        match r {
            Ok(content) => index < zip_slots(*old(archive)).len() && zip_slots(
                *old(archive),
            )[index as int].payload == Some(content@),
            Err(_) => index >= zip_slots(*old(archive)).len() || zip_slots(
                *old(archive),
            )[index as int].payload is None,
        },
{
    let mut file = archive.by_index(index)?;
    let mut content = Vec::new();
    std::io::Read::read_to_end(&mut file, &mut content)?;
    Ok(content)
}

/// The text of a `zip` error, as its `Display` writes it. Nothing is
/// claimed of the text.
#[verifier::external_body]
fn zip_error_text(error: &zip::result::ZipError) -> (r: String) {
    error.to_string()
}

/// The entry that a slot gives: a directory needs only its name, a file
/// needs its bytes too.
pub open spec fn slot_entry(slot: ZipSlot) -> Option<EntryModel> {
    match slot.meta {
        None => None,
        Some((path, is_dir)) => if is_dir {
            Some(EntryModel { path, kind: EntryKind::Directory, content: Seq::empty() })
        } else {
            match slot.payload {
                None => None,
                Some(content) => Some(EntryModel { path, kind: EntryKind::File, content }),
            }
        },
    }
}

/// The entries of the archive in `bytes`, in archive order: there only where
/// the archive opens and every one of its entries can be read.
pub open spec fn spec_zip_entries(bytes: Seq<u8>) -> Option<Seq<EntryModel>> {
    match zip_contents(bytes) {
        None => None,
        Some(slots) => if forall|i: int| 0 <= i < slots.len() ==> slot_entry(#[trigger] slots[i])
            is Some {
            Some(Seq::new(slots.len(), |i: int| slot_entry(slots[i])->0))
        } else {
            None
        },
    }
}

/// Reads every entry of the ZIP archive in `bytes`, in archive order, none
/// skipped. The bytes of a directory entry are not read. The first entry that
/// cannot be read fails the whole call.
pub fn read_zip_entries(bytes: Vec<u8>) -> (r: Result<Vec<ArchiveEntry>, ExtractError>)
    ensures
        match r {
            Ok(entries) => spec_zip_entries(bytes@) == Some(entry_models(entries@)),
            Err(e) => spec_zip_entries(bytes@) is None && e@ == ErrorModel::Malformed,
        },
{
    let ghost source = bytes@;
    let mut archive = match zip_open(bytes) {
        Ok(archive) => archive,
        Err(e) => {
            return Err(ExtractError::Malformed { message: zip_error_text(&e) });
        },
    };
    let ghost slots = zip_slots(archive);
    let count = zip_len(&archive);
    let mut entries: Vec<ArchiveEntry> = Vec::new();
    let mut index: usize = 0;
    while index < count
        invariant
            source == bytes@,
            zip_contents(source) == Some(slots),
            zip_slots(archive) == slots,
            count == slots.len(),
            index <= count,
            entries.len() == index,
            forall|i: int| 0 <= i < index ==> slot_entry(#[trigger] slots[i]) == Some(entries@[i]@),
        decreases count - index,
    {
        let (path, is_dir) = match zip_entry_meta(&mut archive, index) {
            Ok(meta) => meta,
            Err(e) => {
                assert(slot_entry(slots[index as int]) is None);
                return Err(ExtractError::Malformed { message: zip_error_text(&e) });
            },
        };
        let entry = if is_dir {
            ArchiveEntry { path, kind: EntryKind::Directory, content: Vec::new() }
        } else {
            match zip_entry_content(&mut archive, index) {
                Ok(content) => ArchiveEntry { path, kind: EntryKind::File, content },
                Err(e) => {
                    assert(slot_entry(slots[index as int]) is None);
                    return Err(ExtractError::Malformed { message: zip_error_text(&e) });
                },
            }
        };
        assert(slot_entry(slots[index as int]) == Some(entry@));
        entries.push(entry);
        index += 1;
    }
    assert(entry_models(entries@) =~= Seq::new(slots.len(), |i: int| slot_entry(slots[i])->0));
    Ok(entries)
}

} // verus!
