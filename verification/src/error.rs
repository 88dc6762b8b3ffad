//! The kinds of input/output failure that the library distinguishes.
use vstd::prelude::*;

verus! {

/// A kind of input/output failure, as reported by a byte source, a byte sink,
/// or the library itself.
#[derive(Clone, Copy, Debug, PartialEq, Eq, Structural)]
pub enum ErrorKind {
    InvalidData,
    InvalidInput,
    TimedOut,
    WouldBlock,
    Interrupted,
    WriteZero,
    UnexpectedEof,
    PermissionDenied,
    Other,
}

impl ErrorKind {
    /// A poll that ended without data because the source was not ready yet.
    pub open spec fn is_poll_timeout(self) -> bool {
        self == ErrorKind::WouldBlock || self == ErrorKind::TimedOut
    }
}

} // verus!
