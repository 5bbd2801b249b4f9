//! Filesystem failures and what they mean for a request.
//!
//! A failed filesystem operation is either the expected shape of bad client
//! input, which the client sees as "not found", or a transient fault of the
//! server, which fails that one request. [`classify`] draws the line; the
//! operating system's error codes stay behind it.

use vstd::prelude::*;

verus! {

/// The operating system's code for "a component of the path is not a
/// directory".
pub const NOT_A_DIRECTORY: i32 = 20;

/// The operating system's code for "the path names a directory".
pub const IS_A_DIRECTORY: i32 = 21;

/// What kind of failure the filesystem reported, as far as a request's
/// outcome depends on it.
#[derive(Clone, Copy, Debug, PartialEq, Eq)]
pub enum FailureKind {
    /// The path names nothing.
    NotFound,
    /// Anything else: permission denied, an interrupted call, a full table.
    Other,
}

/// A failed filesystem operation, reduced to what the outcome of a request
/// depends on.
#[derive(Clone, Copy, Debug, PartialEq, Eq)]
pub struct IoFailure {
    /// The kind of the failure.
    pub kind: FailureKind,
    /// The operating system's raw error code, where there is one.
    pub os_code: Option<i32>,
}

/// The filesystem operations that a request can ask for.
#[derive(Clone, Copy, Debug, PartialEq, Eq)]
pub enum Operation {
    /// Resolving the candidate path to a canonical location.
    Canonicalize,
    /// Opening the canonical location for reading.
    Open,
    /// Opening the index file of a directory for reading.
    OpenIndex,
    /// Reading the metadata of an opened entry.
    Inspect,
}

/// The two classes of failure.
#[derive(Clone, Copy, Debug, PartialEq, Eq)]
pub enum FailureClass {
    /// Bad client input: answered with "not found".
    ClientInput,
    /// A fault on the server's side: fails the request.
    TransientIo,
}

/// Whether the operating system's code says that a path component has the
/// wrong kind: a file where a directory must be, or a directory where a file
/// must be.
pub open spec fn names_wrong_entry_kind(os_code: Option<i32>) -> bool {
    os_code == Some(NOT_A_DIRECTORY) || os_code == Some(IS_A_DIRECTORY)
}

/// The class of a failure of the given operation.
///
/// - Resolving: a missing path or a component of the wrong kind is client
///   input; everything else is transient.
/// - Opening: a missing path is client input; everything else is transient.
/// - Opening a directory's index: every failure is client input, since the
///   index is a convenience that is simply absent.
/// - Inspecting an opened entry: every failure is transient.
pub open spec fn classify_spec(operation: Operation, failure: IoFailure) -> FailureClass {
    match operation {
        Operation::Canonicalize => if failure.kind is NotFound || names_wrong_entry_kind(
            failure.os_code,
        ) {
            FailureClass::ClientInput
        } else {
            FailureClass::TransientIo
        },
        Operation::Open => if failure.kind is NotFound {
            FailureClass::ClientInput
        } else {
            FailureClass::TransientIo
        },
        Operation::OpenIndex => FailureClass::ClientInput,
        Operation::Inspect => FailureClass::TransientIo,
    }
}

/// Classifies a failure of the given operation.
pub fn classify(operation: Operation, failure: IoFailure) -> (class: FailureClass)
    ensures
        class == classify_spec(operation, failure),
{
    match operation {
        Operation::Canonicalize => {
            let missing = match failure.kind {
                FailureKind::NotFound => true,
                FailureKind::Other => false,
            };
            let wrong_kind = match failure.os_code {
                Some(code) => code == NOT_A_DIRECTORY || code == IS_A_DIRECTORY,
                None => false,
            };
            if missing || wrong_kind {
                FailureClass::ClientInput
            } else {
                FailureClass::TransientIo
            }
        },
        Operation::Open => match failure.kind {
            FailureKind::NotFound => FailureClass::ClientInput,
            FailureKind::Other => FailureClass::TransientIo,
        },
        Operation::OpenIndex => FailureClass::ClientInput,
        Operation::Inspect => FailureClass::TransientIo,
    }
}

} // verus!
