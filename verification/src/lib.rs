//! A streaming TLS layer over a platform security provider, written so that
//! the library itself performs no I/O.
//!
//! The provider (credential acquisition, handshake steps, record encryption
//! and decryption) and the byte transport are operated by the caller. This
//! crate owns everything in between: the three cursored buffers, the
//! lifecycle state machine, the dispatch on provider status codes and the
//! decisions of the read, write, handshake and shutdown paths. Every decision
//! is a function from the current stream and the outcome of the last outside
//! operation to the updated stream and the next operation to perform.

pub mod buffers;
pub mod credential;
pub mod error;
pub mod laws;
pub mod model;
pub mod provider;
pub mod state;
pub mod stream;
pub mod text;
pub mod utf16;

pub use buffers::BufferSet;
pub use credential::Algorithm;
pub use credential::CredentialRequest;
pub use credential::Direction;
pub use credential::Handle;
pub use credential::SchannelCred;
pub use credential::SchannelCredBuilder;
pub use error::Error;
pub use error::StreamError;
pub use provider::ProviderBuffer;
pub use provider::StreamSizes;
pub use state::FillStep;
pub use state::HandshakeStep;
pub use state::ShutdownStep;
pub use state::State;
pub use state::WriteStep;
pub use stream::TlsStream;
pub use stream::TlsStreamBuilder;
