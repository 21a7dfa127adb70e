//! The lifecycle of a stream and the operations that its owner is asked to
//! perform on its behalf.

use crate::provider::StreamSizes;
use vstd::prelude::*;

verus! {

/// Where a stream stands in its lifecycle.
#[derive(Clone, Copy, Debug, PartialEq, Eq, Structural)]
pub enum State {
    /// A handshake is running: the first one, a renegotiation, or the
    /// exchange that closes the session.
    Initializing {
        /// Bytes were written to the transport and not flushed yet.
        needs_flush: bool,
        /// The provider expects further handshake calls.
        more_calls: bool,
        /// The handshake ends the session instead of opening it.
        shutting_down: bool,
    },
    /// Application data flows, framed by `sizes`.
    Streaming {
        /// The record framing parameters of the session.
        sizes: StreamSizes,
    },
    /// The session is closed. This state is never left.
    Shutdown,
}

/// What the handshake driver needs next.
#[derive(Clone, Copy, Debug, PartialEq, Eq, Structural)]
pub enum HandshakeStep {
    /// Write the pending output to the transport and report how many bytes
    /// it accepted.
    WriteOut,
    /// Flush the transport.
    Flush,
    /// Ask the provider for the stream sizes of the session.
    QuerySizes,
    /// Read from the transport and report the bytes that came.
    ReadIn,
    /// Run one provider handshake step on the held transport bytes.
    Step,
    /// Ask the provider to decrypt the held transport bytes: application data
    /// arrived behind the last handshake message.
    Decrypt,
    /// The handshake is complete and the session is open.
    Streaming(StreamSizes),
    /// The handshake is complete and the session is closed.
    Shutdown,
}

/// What filling the plaintext buffer needs next.
#[derive(Clone, Copy, Debug, PartialEq, Eq, Structural)]
pub enum FillStep {
    /// Read from the transport and report the bytes that came.
    ReadIn,
    /// Ask the provider to decrypt the held transport bytes.
    Decrypt,
    /// The plaintext buffer holds what can be delivered now; it is empty
    /// only at the end of the stream.
    Ready,
}

/// What a write needs next.
#[derive(Clone, Copy, Debug, PartialEq, Eq, Structural)]
pub enum WriteStep {
    /// Drive the handshake from the given step to its end, then ask again.
    Handshake(HandshakeStep),
    /// Ask the provider to encrypt the record laid out for the first `len`
    /// bytes of the caller's data.
    Encrypt {
        /// How many of the caller's bytes the record carries.
        len: usize,
        /// The framing parameters by which the record is laid out.
        sizes: StreamSizes,
    },
    /// Write the pending output to the transport and report how many bytes
    /// it accepted.
    WriteOut {
        /// How many of the caller's bytes the write will report.
        len: usize,
    },
    /// The write is complete: `len` of the caller's bytes were taken.
    Done {
        /// How many of the caller's bytes were taken.
        len: usize,
    },
}

/// What a shutdown needs next.
#[derive(Clone, Copy, Debug, PartialEq, Eq, Structural)]
pub enum ShutdownStep {
    /// Apply the shutdown control token to the provider context.
    ApplyToken,
    /// Drive the handshake from the given step to its end; the shutdown is
    /// then complete.
    Handshake(HandshakeStep),
    /// The session was closed before: nothing is left to do.
    Done,
}

} // verus!
