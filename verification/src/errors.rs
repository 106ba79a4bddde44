//! The stages of the import pipeline and its error taxonomy. Every error
//! is terminal for the current invocation; a failure names the stage it
//! occurred in so the operator knows which artifact to inspect.

use vstd::prelude::*;

verus! {

/// The non-terminal stages of the import pipeline.
#[derive(Clone, Copy, PartialEq, Eq, Structural, Debug)]
pub enum Stage {
    Fetching,
    Validating,
    Linking,
    Relocating,
    Rendering,
}

/// Why an import failed. Each variant carries the filesystem path or the
/// underlying cause implicated, where one exists, so a failure is
/// self-describing.
#[derive(Clone, Debug)]
pub enum ImportError {
    /// The source URL yields no usable repository identifier.
    InvalidSource,
    /// A directory already occupies the provisional destination path;
    /// carries that path.
    DestinationExists(String),
    /// The underlying clone operation (or the rename committing it)
    /// failed; carries its cause.
    CloneFailed(String),
    /// The fetched tree's manifest could not be read at the expected
    /// path; carries the cause reported for the read.
    ManifestNotFound(String),
    /// The task manifest is not well-formed.
    ManifestParseError,
    /// The task manifest declares no package name.
    MissingTaskName,
    /// The task manifest's package name is not a string.
    InvalidTaskName,
    /// A directory already occupies the canonical destination path;
    /// carries that path, or the cause of the rename that was refused.
    RelocationConflict(String),
    /// A manifest could not be read back or written; carries the cause.
    ManifestWriteFailed(String),
    /// The template renderer reported failure; carries the cause.
    RenderFailed(String),
}

/// The mathematical view of an `ImportError`.
pub enum ErrorModel {
    InvalidSource,
    DestinationExists(Seq<char>),
    CloneFailed(Seq<char>),
    ManifestNotFound(Seq<char>),
    ManifestParseError,
    MissingTaskName,
    InvalidTaskName,
    RelocationConflict(Seq<char>),
    ManifestWriteFailed(Seq<char>),
    RenderFailed(Seq<char>),
}

impl View for ImportError {
    type V = ErrorModel;

    open spec fn view(&self) -> ErrorModel {
        match self {
            ImportError::InvalidSource => ErrorModel::InvalidSource,
            ImportError::DestinationExists(p) => ErrorModel::DestinationExists(p@),
            ImportError::CloneFailed(m) => ErrorModel::CloneFailed(m@),
            ImportError::ManifestNotFound(m) => ErrorModel::ManifestNotFound(m@),
            ImportError::ManifestParseError => ErrorModel::ManifestParseError,
            ImportError::MissingTaskName => ErrorModel::MissingTaskName,
            ImportError::InvalidTaskName => ErrorModel::InvalidTaskName,
            ImportError::RelocationConflict(m) => ErrorModel::RelocationConflict(m@),
            ImportError::ManifestWriteFailed(m) => ErrorModel::ManifestWriteFailed(m@),
            ImportError::RenderFailed(m) => ErrorModel::RenderFailed(m@),
        }
    }
}

} // verus!
