//! Errors reported by the codec and the engine.

use vstd::prelude::*;

verus! {

/// What went wrong with a call into the library.
#[derive(Debug, Clone, PartialEq, Eq)]
pub enum TftprsError {
    /// The caller attempted to form a request that the protocol cannot carry.
    BadRequestAttempted,
    /// A packet arrived that fails to parse, or that carries an unexpected block number.
    BadPacketReceived,
    /// A transfer is active and the call needs an idle engine, or the peer sent a
    /// packet that does not fit the active transfer.
    Busy,
    /// No transfer is active, or the active one does not fit the call.
    NoConnection,
    /// The active transfer has no file attached.
    NoFile,
    /// An error packet from the remote peer: its code and its message.
    ErrorResponse(u16, String),
}

} // verus!
