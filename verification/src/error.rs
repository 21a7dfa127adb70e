//! Provider status codes and the error values built from them.

use vstd::prelude::*;

verus! {

/// The provider step succeeded and needs no further call at this layer.
pub const SEC_E_OK: i32 = 0;

/// The handshake is still in progress: more provider calls will be required.
pub const SEC_I_CONTINUE_NEEDED: i32 = 0x0009_0312;

/// The peer closed the session cleanly.
pub const SEC_I_CONTEXT_EXPIRED: i32 = 0x0009_0317;

/// The peer asked for a new handshake on the existing context.
pub const SEC_I_RENEGOTIATE: i32 = 0x0009_0321;

/// The provider needs more input bytes before it can proceed.
pub const SEC_E_INCOMPLETE_MESSAGE: i32 = -2146893032;

/// The context can no longer be used to protect messages.
pub const SEC_E_CONTEXT_EXPIRED: i32 = -2146893033;

/// The pinned algorithms cannot be used together by the provider.
pub const SEC_E_ALGORITHM_MISMATCH: i32 = -2146893007;

/// A failure reported by the provider, carrying its numeric status code.
#[derive(Clone, Copy, Debug, PartialEq, Eq, Structural)]
pub struct Error(pub i32);

impl Error {
    /// The numeric status code that the provider reported.
    pub fn code(&self) -> (code: i32)
        ensures
            code == self.0,
    {
        self.0
    }
}

/// Why a stream operation could not go on.
#[derive(Clone, Copy, Debug, PartialEq, Eq, Structural)]
pub enum StreamError {
    /// The provider answered with a status that the stream does not handle.
    Provider(Error),
    /// The transport delivered no byte while the handshake needed more input.
    UnexpectedEof,
    /// The transport accepted no byte of a non-empty output.
    WriteZero,
    /// A write was attempted on a stream whose session has been shut down.
    ContextExpired,
}

} // verus!
