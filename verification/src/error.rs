//! Error values of the engine: a kind to branch on and a message to show.

use vstd::prelude::*;

verus! {

/// What went wrong, for callers that branch on the failure.
#[derive(Clone, Copy, Debug, PartialEq, Eq, Structural)]
pub enum ErrorKind {
    /// The candidate path is missing or is not a directory.
    InvalidSource,
    /// The candidate directory holds no manifest file.
    MissingManifest,
    /// The manifest could not be read or decoded.
    ManifestDecodeError,
    /// A mod with the same id and version is already recorded.
    DuplicateInstall,
    /// The destination in the managed store is already there.
    DestinationExists,
    /// Copying the mod into the managed store failed.
    CopyFailed,
    /// The version tag of a pattern is no semantic version.
    InvalidVersion,
    /// The content validator rejected the pattern.
    ContentValidationFailed,
    /// A file of the managed store or the lock file could not be written.
    WriteFailed,
    /// The managed directories could not be set up.
    InitializationError,
    /// The link into the host application could not be made.
    ProjectionFailed,
    /// A failure without a kind of its own: an error that was raised without
    /// one, or an answer that does not fit the request it answers.
    Other,
}

/// A failure of an install operation.
#[derive(Debug)]
pub struct RuntimeError {
    pub kind: ErrorKind,
    pub message: String,
}

/// The value of a [`RuntimeError`].
pub struct Failure {
    pub kind: ErrorKind,
    pub message: Seq<char>,
}

impl View for RuntimeError {
    type V = Failure;

    open spec fn view(&self) -> Failure {
        Failure { kind: self.kind, message: self.message@ }
    }
}

impl RuntimeError {
    /// An error without a kind of its own that carries `message`.
    pub fn new(message: &str) -> (r: Box<RuntimeError>)
        ensures
            r.kind == ErrorKind::Other,
            r.message@ == message@,
    {
        Box::new(RuntimeError { kind: ErrorKind::Other, message: message.to_owned() })
    }

    /// An error of the given kind that carries `message`.
    pub fn of_kind(kind: ErrorKind, message: String) -> (r: RuntimeError)
        ensures
            r.kind == kind,
            r.message == message,
    {
        RuntimeError { kind, message }
    }

    /// The kind of this failure.
    pub fn kind(&self) -> (k: ErrorKind)
        ensures
            k == self.kind,
    {
        self.kind
    }

    /// The text that the error displays as.
    pub fn to_string(&self) -> (s: String)
        ensures
            s@ == self.message@,
    {
        self.message.clone()
    }
}

/// A manifest text that could not be decoded, or a manifest that could not
/// be encoded.
#[derive(Debug)]
pub struct ParseError {
    pub message: String,
}

impl ParseError {
    /// A decoding failure that carries `message`.
    pub fn new(message: &str) -> (r: ParseError)
        ensures
            r.message@ == message@,
    {
        ParseError { message: message.to_owned() }
    }

    /// The text that the error displays as.
    pub fn to_string(&self) -> (s: String)
        ensures
            s@ == self.message@,
    {
        self.message.clone()
    }
}

} // verus!
