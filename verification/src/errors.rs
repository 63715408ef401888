//! Why a step failed.

use crate::digests::{HexError, Sha256Sum};
use vstd::prelude::*;

verus! {

/// Why a step failed. No failure is recovered from: the step ends with it.
#[derive(Debug, PartialEq, Eq)]
pub enum Error {
    /// The program could not be started.
    SpawnFailed { reason: String },
    /// The program ran and ended with an exit code other than zero.
    NonZeroExit { code: i32 },
    /// The program was ended by a signal.
    Signaled,
    /// A directory could not be created or removed, or a file not read.
    Filesystem { reason: String },
    /// The file's digest is not the expected one.
    DigestMismatch { expected: Sha256Sum, actual: Sha256Sum, file: String },
    /// The text given for an expected digest is not 64 hex digits.
    MalformedInput { why: HexError },
}

/// An [`Error`] as plain values.
pub enum ErrorView {
    SpawnFailed { reason: Seq<char> },
    NonZeroExit { code: i32 },
    Signaled,
    Filesystem { reason: Seq<char> },
    DigestMismatch { expected: Seq<u8>, actual: Seq<u8>, file: Seq<char> },
    MalformedInput { why: HexError },
}

impl View for Error {
    type V = ErrorView;

    open spec fn view(&self) -> ErrorView {
        match *self {
            Error::SpawnFailed { reason } => ErrorView::SpawnFailed { reason: reason@ },
            Error::NonZeroExit { code } => ErrorView::NonZeroExit { code },
            Error::Signaled => ErrorView::Signaled,
            Error::Filesystem { reason } => ErrorView::Filesystem { reason: reason@ },
            Error::DigestMismatch { expected, actual, file } => ErrorView::DigestMismatch {
                expected: expected@,
                actual: actual@,
                file: file@,
            },
            Error::MalformedInput { why } => ErrorView::MalformedInput { why },
        }
    }
}

} // verus!
