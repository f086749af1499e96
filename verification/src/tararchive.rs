//! Walking the entries of a TAR stream that is held in memory, plain or
//! gzip-compressed.
//!
//! The stream is parsed by the `tar` crate, behind `flate2` where it is
//! compressed. What those crates compute is named here, not restated:
//! `tar_items` and `tar_gz_items` stand for what walking the bytes yields.

use vstd::prelude::*;
use crate::error::{ErrorModel, ExtractError};
use crate::text::texts;

verus! {

/// `std::io::Error`, carried through as an opaque value.
#[verifier::external_type_specification]
#[verifier::external_body]
pub struct ExIoError(std::io::Error);

/// What walking a TAR stream yields at one step.
pub enum TarItem {
    /// An entry, with its path as text (bytes that are not UTF-8 replaced).
    Path(Seq<char>),
    /// The stream is damaged at this point.
    Broken,
}

/// A `tar::Archive` over bytes in memory, plain or behind a gzip decoder.
/// Nothing of its inside is visible to proofs.
#[verifier::external_body]
pub struct TarReader {
    inner: tar::Archive<Box<dyn std::io::Read>>,
}

/// The `tar::Entries` iterator of a `TarReader`. Nothing of its inside is
/// visible to proofs.
#[verifier::external_body]
pub struct TarEntries<'a> {
    inner: tar::Entries<'a, Box<dyn std::io::Read>>,
}

/// What the `tar` crate yields, step by step, when it walks `bytes` as a TAR
/// stream from the start.
pub uninterp spec fn tar_items(bytes: Seq<u8>) -> Seq<TarItem>;

/// What the `tar` crate yields, step by step, when it walks what `flate2`
/// decompresses from `bytes` as a gzip stream.
pub uninterp spec fn tar_gz_items(bytes: Seq<u8>) -> Seq<TarItem>;

/// What walking `reader` from the start would yield; `None` once the reader
/// has been read from.
pub uninterp spec fn tar_stream(reader: TarReader) -> Option<Seq<TarItem>>;

/// What `entries` has yet to yield.
pub uninterp spec fn tar_pending(entries: TarEntries<'_>) -> Seq<TarItem>;

/// `tar::Archive::new` on a cursor over `bytes`. Nothing is read yet; a walk
/// from the start yields what `tar_items` names.
#[verifier::external_body]
fn tar_open(bytes: Vec<u8>) -> (r: TarReader)
    ensures
        tar_stream(r) == Some(tar_items(bytes@)),
{
    TarReader { inner: tar::Archive::new(Box::new(std::io::Cursor::new(bytes))) }
}

/// `tar::Archive::new` on a `flate2::read::GzDecoder` over a cursor over
/// `bytes`. A walk from the start yields what `tar_gz_items` names.
#[verifier::external_body]
fn tar_open_gzip(bytes: Vec<u8>) -> (r: TarReader)
    ensures
        tar_stream(r) == Some(tar_gz_items(bytes@)),
{
    let decoder = flate2::read::GzDecoder::new(std::io::Cursor::new(bytes));
    TarReader { inner: tar::Archive::new(Box::new(decoder)) }
}

/// `tar::Archive::entries`. It fails exactly where the reader has been read
/// from before; otherwise the iterator has the whole walk before it.
#[verifier::external_body]
fn tar_entries<'a>(reader: &'a mut TarReader) -> (r: Result<TarEntries<'a>, std::io::Error>)
    ensures
        match r {
            Ok(entries) => tar_stream(*old(reader)) == Some(tar_pending(entries)),
            Err(_) => tar_stream(*old(reader)) is None,
        },
{
    reader.inner.entries().map(|inner| TarEntries { inner })
}

/// The item that a step of the walk handed out.
pub open spec fn item_of(step: Result<String, std::io::Error>) -> TarItem {
    match step {
        Ok(path) => TarItem::Path(path@),
        Err(_) => TarItem::Broken,
    }
}

/// `Iterator::next` of `tar::Entries`, with `path_bytes` of the entry it
/// yields read as text. It yields the first pending item and leaves the rest
/// pending; it yields nothing exactly where nothing is pending.
#[verifier::external_body]
fn tar_next_path<'a>(entries: &mut TarEntries<'a>) -> (r: Option<Result<String, std::io::Error>>)
    ensures
        match r {
            Some(step) => tar_pending(*old(entries)).len() > 0 && item_of(step) == tar_pending(
                *old(entries),
            )[0] && tar_pending(*final(entries)) == tar_pending(*old(entries)).skip(1),
            None => tar_pending(*old(entries)).len() == 0 && tar_pending(*final(entries))
                == tar_pending(*old(entries)),
        },
{
    entries.inner.next().map(
        |step| step.map(|entry| String::from_utf8_lossy(&entry.path_bytes()).into_owned()),
    )
}

/// The text of an I/O error, as its `Display` writes it. Nothing is claimed
/// of the text.
#[verifier::external_body]
fn io_error_text(error: &std::io::Error) -> (r: String) {
    error.to_string()
}

/// The items that walking `bytes` yields, through gzip or not.
pub open spec fn spec_tar_walk(bytes: Seq<u8>, gzip: bool) -> Seq<TarItem> {
    if gzip {
        tar_gz_items(bytes)
    } else {
        tar_items(bytes)
    }
}

/// Whether a walk meets damage.
pub open spec fn has_broken(items: Seq<TarItem>) -> bool {
    exists|i: int| 0 <= i < items.len() && #[trigger] items[i] is Broken
}

/// The paths of a walk without damage, in order.
pub open spec fn item_paths(items: Seq<TarItem>) -> Seq<Seq<char>> {
    Seq::new(items.len(), |i: int| items[i]->Path_0)
}

/// The paths of all entries of a stream, in order: there only where the walk
/// meets no damage.
pub open spec fn spec_tar_paths(bytes: Seq<u8>, gzip: bool) -> Option<Seq<Seq<char>>> {
    let items = spec_tar_walk(bytes, gzip);
    if has_broken(items) {
        None
    } else {
        Some(item_paths(items))
    }
}

/// Walks the TAR stream in `bytes`, decompressing it first where `gzip` is
/// set, and returns the path of every entry in stream order. Damage anywhere
/// in the walk fails the whole call.
pub fn read_tar_paths(bytes: Vec<u8>, gzip: bool) -> (r: Result<Vec<String>, ExtractError>)
    ensures
        match r {
            Ok(paths) => spec_tar_paths(bytes@, gzip) == Some(texts(paths@)),
            Err(e) => spec_tar_paths(bytes@, gzip) is None && e@ == ErrorModel::Malformed,
        },
{
    let ghost items = spec_tar_walk(bytes@, gzip);
    let mut reader = if gzip {
        tar_open_gzip(bytes)
    } else {
        tar_open(bytes)
    };
    let mut paths: Vec<String> = Vec::new();
    match tar_entries(&mut reader) {
        Err(e) => {
            Err(ExtractError::Malformed { message: io_error_text(&e) })
        },
        Ok(mut entries) => {
            let ghost mut done: int = 0;
            loop
                invariant
                    items == spec_tar_walk(bytes@, gzip),
                    0 <= done <= items.len(),
                    tar_pending(entries) == items.skip(done),
                    paths.len() == done,
                    forall|i: int|
                        0 <= i < done ==> #[trigger] items[i] == TarItem::Path(paths@[i]@),
                decreases tar_pending(entries).len(),
            {
                match tar_next_path(&mut entries) {
                    None => {
                        assert(done == items.len());
                        assert(texts(paths@) =~= item_paths(items));
                        return Ok(paths);
                    },
                    Some(Err(e)) => {
                        assert(items[done] is Broken);
                        return Err(ExtractError::Malformed { message: io_error_text(&e) });
                    },
                    Some(Ok(path)) => {
                        assert(items[done] == TarItem::Path(path@));
                        assert(items.skip(done).skip(1) =~= items.skip(done + 1));
                        paths.push(path);
                        proof {
                            done = done + 1;
                        }
                    },
                }
            }
        },
    }
}

} // verus!
