//! Status values that the engine reports to its caller.

use vstd::prelude::*;

verus! {

/// Why an operation did not complete.
#[derive(Clone, Copy, Debug, PartialEq, Eq, Structural)]
pub enum SpdmStatus {
    /// A header or payload did not parse, or a field was out of range.
    InvalidMsgField,
    /// The request needs a capability that was not negotiated, or no handler
    /// serves it in the current state.
    UnsupportedCap,
    /// The peer answered with an SPDM ERROR.
    ErrorPeer,
    /// Signing, verification, AEAD or hashing failed.
    Crypto,
    /// Every slot of the session table is taken.
    SessionLimitExceeded,
    /// A secured message did not decrypt or authenticate.
    DecryptError,
    /// The peer did not answer in time.
    Timeout,
    /// The device I/O failed.
    IoError,
    /// An argument does not name anything the context holds.
    InvalidParameter,
    /// The caller's buffer is too small for the message.
    BufferFull,
}

/// Result of an engine operation.
pub type SpdmResult<T = ()> = Result<T, SpdmStatus>;

} // verus!
