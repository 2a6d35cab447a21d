//! The errors a client operation can surface.

use vstd::prelude::*;

verus! {

/// Everything that can go wrong while talking to the matrix.
///
/// All errors surface to the immediate caller; nothing is retried internally.
#[derive(Clone, Copy, Debug, PartialEq, Eq, Structural)]
pub enum ClientError {
    /// The handshake's protocol-version byte was not the expected value.
    ProtocolMismatch,
    /// A read, write or flush on the underlying transport failed, or the
    /// lock guarding a shared handle was poisoned.
    IoError,
    /// A `contiguous` target area does not fit the matrix bounds.
    AreaTooLarge,
    /// A `contiguous` payload does not hold exactly three bytes per pixel
    /// of the target area.
    WrongColorLength,
}

/// The error a shared handle reports when its lock was poisoned: a caller
/// holding the lock panicked, so the buffered stream must be presumed torn.
pub fn poison_err<S>(_err: S) -> (e: ClientError)
    ensures
        e == ClientError::IoError,
{
    ClientError::IoError
}

} // verus!
