//! Which container format an archive is in, read off its name alone.

use vstd::prelude::*;
use crate::error::{ErrorModel, ExtractError};
use crate::text::{chars_of, same_text, slice_of};

verus! {

/// The container formats that can be unpacked.
#[derive(Clone, Copy, Debug, PartialEq, Eq, Structural)]
pub enum ArchiveFormat {
    Zip,
    Tar,
    TarGzip,
}

/// The index of the last `c` in `s`, or -1 where `s` holds none.
pub open spec fn last_index_of(s: Seq<char>, c: char) -> int
    decreases s.len(),
{
    if s.len() == 0 {
        -1
    } else if s.last() == c {
        s.len() - 1
    } else {
        last_index_of(s.drop_last(), c)
    }
}

/// The extension token of a name: what follows its last `.`, or the whole
/// name where it holds no `.`.
pub open spec fn spec_extension_token(name: Seq<char>) -> Seq<char> {
    name.subrange(last_index_of(name, '.') + 1, name.len() as int)
}

/// The format that a name announces, if any: `zip`, `tar`, or `gz` for a
/// gzip-compressed tar stream.
pub open spec fn spec_detect_format(name: Seq<char>) -> Option<ArchiveFormat> {
    let token = spec_extension_token(name);
    if token == "zip"@ {
        Some(ArchiveFormat::Zip)
    } else if token == "gz"@ {
        Some(ArchiveFormat::TarGzip)
    } else if token == "tar"@ {
        Some(ArchiveFormat::Tar)
    } else {
        None
    }
}

/// The extension token of `name`.
pub fn extension_token(name: &str) -> (r: String)
    ensures
        r@ == spec_extension_token(name@),
{
    let v = chars_of(name);
    let mut end: usize = v.len();
    assert(v@.take(end as int) =~= v@);
    while end > 0 && v[end - 1] != '.'
        invariant
            end <= v.len(),
            last_index_of(v@.take(end as int), '.') == last_index_of(v@, '.'),
        decreases end,
    {
        assert(v@.take(end as int).drop_last() =~= v@.take(end - 1));
        end -= 1;
    }
    slice_of(name, end, v.len())
}

/// Chooses the format of an archive from its name. The bytes of the archive
/// play no part. A name whose extension token is none of `zip`, `gz` and
/// `tar` is refused, and the error carries that token.
pub fn detect_format(name: &str) -> (r: Result<ArchiveFormat, ExtractError>)
    ensures
        match r {
            Ok(format) => spec_detect_format(name@) == Some(format),
            Err(e) => spec_detect_format(name@) is None && e@ == (ErrorModel::UnsupportedFormat {
                extension: spec_extension_token(name@),
            }),
        },
{
    let token = extension_token(name);
    if same_text(token.as_str(), "zip") {
        Ok(ArchiveFormat::Zip)
    } else if same_text(token.as_str(), "gz") {
        Ok(ArchiveFormat::TarGzip)
    } else if same_text(token.as_str(), "tar") {
        Ok(ArchiveFormat::Tar)
    } else {
        Err(ExtractError::UnsupportedFormat { extension: token })
    }
}

/// How a name is read once it is known to hold a TAR stream: through gzip
/// where its extension token is `gz`, plain otherwise.
pub open spec fn spec_tar_format(name: Seq<char>) -> ArchiveFormat {
    if spec_extension_token(name) == "gz"@ {
        ArchiveFormat::TarGzip
    } else {
        ArchiveFormat::Tar
    }
}

/// How `name` is read once it is known to hold a TAR stream.
pub fn tar_format(name: &str) -> (r: ArchiveFormat)
    ensures
        r == spec_tar_format(name@),
{
    let token = extension_token(name);
    if same_text(token.as_str(), "gz") {
        ArchiveFormat::TarGzip
    } else {
        ArchiveFormat::Tar
    }
}

} // verus!
