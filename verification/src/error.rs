//! Failures of archive handling, and the kinds they fall under.

use vstd::prelude::*;
use crate::text::concat;

verus! {

/// The kinds of failure that callers tell apart.
#[derive(Clone, Copy, Debug, PartialEq, Eq, Structural)]
pub enum FailureKind {
    /// A file or directory could not be opened, created, read or written.
    IoFailure,
    /// The archive is of an unknown kind, or its bytes are not a sound archive.
    FormatFailure,
    /// The operating system refused to start a process.
    SpawnFailure,
}

/// Why an extraction did not go through.
#[derive(Clone, Debug, PartialEq, Eq)]
pub enum ExtractError {
    /// The archive's name ends in an extension that names no known format.
    UnsupportedFormat { extension: String },
    /// The archive's bytes could not be read as the format its name announces.
    Malformed { message: String },
    /// The file system refused an operation.
    Io { message: String },
}

/// A failure as mathematics sees it. The text of a malformed archive's
/// failure is the archive reader's own wording and is left out.
pub enum ErrorModel {
    UnsupportedFormat { extension: Seq<char> },
    Malformed,
    Io { message: Seq<char> },
}

impl ErrorModel {
    /// The kind this failure falls under.
    pub open spec fn kind(self) -> FailureKind {
        match self {
            ErrorModel::UnsupportedFormat { .. } => FailureKind::FormatFailure,
            ErrorModel::Malformed => FailureKind::FormatFailure,
            ErrorModel::Io { .. } => FailureKind::IoFailure,
        }
    }
}

impl View for ExtractError {
    type V = ErrorModel;

    open spec fn view(&self) -> ErrorModel {
        match self {
            ExtractError::UnsupportedFormat { extension } => ErrorModel::UnsupportedFormat {
                extension: extension@,
            },
            ExtractError::Malformed { .. } => ErrorModel::Malformed,
            ExtractError::Io { message } => ErrorModel::Io { message: message@ },
        }
    }
}

impl ExtractError {
    /// The text shown to the user.
    pub open spec fn spec_message(self) -> Seq<char> {
        match self {
            ExtractError::UnsupportedFormat { extension } => "Unsupported file extension: "@
                + extension@,
            ExtractError::Malformed { message } => message@,
            ExtractError::Io { message } => message@,
        }
    }

    /// The kind this failure falls under.
    pub fn kind(&self) -> (r: FailureKind)
        ensures
            r == self@.kind(),
    {
        match self {
            ExtractError::UnsupportedFormat { .. } => FailureKind::FormatFailure,
            ExtractError::Malformed { .. } => FailureKind::FormatFailure,
            ExtractError::Io { .. } => FailureKind::IoFailure,
        }
    }

    /// The text shown to the user: for an unknown extension a fixed sentence
    /// that names it, otherwise the underlying cause as it was reported.
    pub fn message(&self) -> (r: String)
        ensures
            r@ == self.spec_message(),
    {
        match self {
            ExtractError::UnsupportedFormat { extension } => concat(
                "Unsupported file extension: ",
                extension.as_str(),
            ),
            ExtractError::Malformed { message } => message.clone(),
            ExtractError::Io { message } => message.clone(),
        }
    }
}

} // verus!
