//! The library's model of a host I/O failure: the category the host assigns
//! to it, and its display text.

use vstd::prelude::*;

verus! {

/// The category a host assigns to an I/O failure.
///
/// Callers translate the host's own error-kind value into this type before
/// asking the library to classify it; the classification functions are total
/// over it.
#[derive(Clone, Copy, Debug, PartialEq, Eq, Structural)]
pub enum IoKind {
    /// An entity was not found.
    NotFound,
    /// The operation lacked the necessary privileges.
    PermissionDenied,
    /// The connection was refused by the remote server.
    ConnectionRefused,
    /// The connection was reset by the remote server.
    ConnectionReset,
    /// The connection was aborted by the remote server.
    ConnectionAborted,
    /// The network operation failed because it was not connected yet.
    NotConnected,
    /// A socket address could not be bound because it is already in use.
    AddrInUse,
    /// A nonexistent interface was requested or the address is not local.
    AddrNotAvailable,
    /// The operation failed because a pipe was closed.
    BrokenPipe,
    /// An entity already exists.
    AlreadyExists,
    /// A parameter was incorrect.
    InvalidInput,
    /// Data not valid for the operation were encountered.
    InvalidData,
    /// The I/O operation's timeout expired.
    TimedOut,
    /// A write returned `Ok(0)`: it could not write the whole buffer.
    WriteZero,
    /// The operation was interrupted.
    Interrupted,
    /// An end of file was reached prematurely.
    UnexpectedEof,
    /// A failure the host left uncategorized.
    Other,
    /// Any category this catalog does not name.
    Unclassified,
}

/// An I/O failure as the library sees it: its category and its display text.
#[derive(Debug)]
pub struct IoFailure {
    /// The category the host assigned to the failure.
    pub kind: IoKind,
    /// The failure's own display text.
    pub message: String,
}

impl IoFailure {
    /// Pair a failure category with its display text.
    pub fn new(kind: IoKind, message: String) -> (r: Self)
        ensures
            r.kind == kind,
            r.message == message,
    {
        IoFailure { kind, message }
    }
}

} // verus!
