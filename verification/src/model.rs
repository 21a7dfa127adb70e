//! The mathematical model of a stream: what it holds, and how each outcome of
//! an outside operation changes it.
//!
//! The contracts of [`crate::stream::TlsStream`] are stated over this model.

use crate::buffers::{grown_room, BufferSetView};
use crate::error::{
    StreamError, SEC_E_INCOMPLETE_MESSAGE, SEC_E_OK, SEC_I_CONTEXT_EXPIRED, SEC_I_CONTINUE_NEEDED,
    SEC_I_RENEGOTIATE,
};
use crate::provider::StreamSizes;
use crate::state::{FillStep, HandshakeStep, ShutdownStep, State, WriteStep};
use vstd::prelude::*;

verus! {

/// What a stream holds.
pub struct StreamView<S> {
    /// The transport that the stream keeps for its owner.
    pub transport: S,
    /// Where the stream stands in its lifecycle.
    pub state: State,
    /// The last handshake or decrypt step stalled for want of transport input.
    pub needs_read: bool,
    /// The contents of the three buffers.
    pub bufs: BufferSetView,
    /// The server name handed to the provider, in UTF-16 with a closing zero.
    pub domain: Option<Seq<u16>>,
}

/// The bytes of an optional token.
pub open spec fn token_view(token: Option<&[u8]>) -> Option<Seq<u8>> {
    match token {
        Some(bytes) => Some(bytes@),
        None => None,
    }
}

/// The provider handled a handshake step: it asks for more calls, for more
/// input, or reports the handshake complete.
pub open spec fn step_accepted(status: i32) -> bool {
    status == SEC_I_CONTINUE_NEEDED || status == SEC_E_INCOMPLETE_MESSAGE || status == SEC_E_OK
}

/// A handshake step with this status consumes input.
pub open spec fn step_consumes(status: i32) -> bool {
    status == SEC_I_CONTINUE_NEEDED || status == SEC_E_OK
}

/// The provider handled a decrypt call: it produced plaintext, asks for more
/// input, or reports that the peer closed the session or wants a new
/// handshake.
pub open spec fn decrypt_accepted(status: i32) -> bool {
    status == SEC_E_OK || status == SEC_E_INCOMPLETE_MESSAGE || status == SEC_I_CONTEXT_EXPIRED
        || status == SEC_I_RENEGOTIATE
}

/// A decrypt call with this status consumes input.
pub open spec fn decrypt_consumes(status: i32) -> bool {
    status == SEC_E_OK || status == SEC_I_CONTEXT_EXPIRED || status == SEC_I_RENEGOTIATE
}

impl<S> StreamView<S> {
    /// The stream right after the first provider step: the handshake is
    /// open, the first token waits for the transport, and the next handshake
    /// step needs input from the peer.
    pub open spec fn initial(transport: S, domain: Option<Seq<u16>>, token: Seq<u8>) -> StreamView<
        S,
    > {
        StreamView {
            transport,
            state: State::Initializing {
                needs_flush: false,
                more_calls: true,
                shutting_down: false,
            },
            needs_read: true,
            bufs: BufferSetView {
                enc_in: Seq::empty(),
                enc_room: 0,
                dec_in: Seq::empty(),
                out_buf: token,
            },
            domain,
        }
    }

    /// What the model must satisfy to stand for a stream: the held transport
    /// bytes fit their storage, and an open session can lay out its largest
    /// record.
    pub open spec fn valid(self) -> bool {
        &&& self.bufs.enc_in.len() <= self.bufs.enc_room <= usize::MAX
        &&& self.bufs.dec_in.len() <= usize::MAX
        &&& self.bufs.out_buf.len() <= usize::MAX
        &&& (self.state matches State::Streaming { sizes } ==> sizes.fits())
    }

    /// The same stream with another transport in its keeping.
    pub open spec fn with_transport(self, transport: S) -> StreamView<S> {
        StreamView { transport, ..self }
    }

    /// The same stream in another lifecycle state.
    pub open spec fn with_state(self, state: State) -> StreamView<S> {
        StreamView { state, ..self }
    }

    /// The same stream with the stall flag set to `needs_read`.
    pub open spec fn with_needs_read(self, needs_read: bool) -> StreamView<S> {
        StreamView { needs_read, ..self }
    }

    /// The same stream with other buffer contents.
    pub open spec fn with_bufs(self, bufs: BufferSetView) -> StreamView<S> {
        StreamView { bufs, ..self }
    }

    /// A handshake begins on the session, one that ends it if `shutting_down`
    /// is set. A closed session stays closed.
    pub open spec fn begin_handshake(self, shutting_down: bool) -> StreamView<S> {
        if self.state == State::Shutdown {
            self
        } else {
            self.with_state(
                State::Initializing { needs_flush: false, more_calls: true, shutting_down },
            )
        }
    }

    /// During a handshake, records whether written bytes await a flush.
    pub open spec fn with_needs_flush(self, flag: bool) -> StreamView<S> {
        match self.state {
            State::Initializing { needs_flush, more_calls, shutting_down } => self.with_state(
                State::Initializing { needs_flush: flag, more_calls, shutting_down },
            ),
            _ => self,
        }
    }

    /// During a handshake, records that the provider expects no further call.
    pub open spec fn handshake_complete(self) -> StreamView<S> {
        match self.state {
            State::Initializing { needs_flush, more_calls, shutting_down } => self.with_state(
                State::Initializing { needs_flush, more_calls: false, shutting_down },
            ),
            _ => self,
        }
    }

    /// The provider consumed all held transport bytes but the last `extra`,
    /// which belong to the next message. The stream stalls for input exactly
    /// if nothing is left.
    pub open spec fn keep_extra(self, extra: nat) -> StreamView<S> {
        let kept = self.bufs.enc_in.skip(self.bufs.enc_in.len() - extra);
        StreamView {
            needs_read: kept.len() == 0,
            bufs: BufferSetView { enc_in: kept, ..self.bufs },
            ..self
        }
    }

    /// Queues a token, if there is one, behind the pending output.
    pub open spec fn queue(self, token: Option<Seq<u8>>) -> StreamView<S> {
        match token {
            Some(bytes) => self.with_bufs(
                BufferSetView { out_buf: self.bufs.out_buf + bytes, ..self.bufs },
            ),
            None => self,
        }
    }

    /// The transport accepted the first `n` bytes of the pending output.
    /// During a handshake they await a flush.
    pub open spec fn after_write_out(self, n: nat) -> StreamView<S> {
        self.with_bufs(BufferSetView { out_buf: self.bufs.out_buf.skip(n as int), ..self.bufs })
            .with_needs_flush(true)
    }

    /// The transport delivered `bytes` into the storage grown for the read.
    pub open spec fn after_read_in(self, bytes: Seq<u8>) -> StreamView<S> {
        self.with_bufs(
            BufferSetView {
                enc_in: self.bufs.enc_in + bytes,
                enc_room: grown_room(self.bufs.enc_room, self.bufs.enc_in.len()),
                ..self.bufs
            },
        )
    }

    /// How many bytes the next transport read may deliver.
    pub open spec fn read_capacity(self) -> nat {
        (grown_room(self.bufs.enc_room, self.bufs.enc_in.len()) - self.bufs.enc_in.len()) as nat
    }

    /// The provider answered a handshake step with `status`. It left the last
    /// `extra` held bytes unconsumed and may have produced a token for the
    /// peer.
    ///
    /// * Where it needs more calls, the consumed input leaves and the token
    ///   is queued.
    /// * Where it needs more input, the stream stalls for a read.
    /// * Where the handshake is complete, the consumed input leaves and the
    ///   token is queued; the handshake is recorded as complete unless bytes
    ///   are left, which are application data that must be decrypted first.
    /// * Any other status changes nothing.
    pub open spec fn after_step(
        self,
        status: i32,
        extra: nat,
        token: Option<Seq<u8>>,
    ) -> StreamView<S> {
        if status == SEC_I_CONTINUE_NEEDED {
            self.keep_extra(extra).queue(token)
        } else if status == SEC_E_INCOMPLETE_MESSAGE {
            self.with_needs_read(true)
        } else if status == SEC_E_OK {
            let stepped = self.keep_extra(extra).queue(token);
            if stepped.bufs.enc_in.len() > 0 {
                stepped
            } else {
                stepped.handshake_complete()
            }
        } else {
            self
        }
    }

    /// The provider answered a decrypt call with `status`. It left the last
    /// `extra` held bytes unconsumed and, on success, produced `plaintext`.
    ///
    /// * On success the plaintext replaces the undelivered plaintext and the
    ///   consumed input leaves.
    /// * Where it needs more input, the stream stalls for a read.
    /// * Where the peer closed the session or asks for a new handshake, the
    ///   consumed input leaves and a handshake begins, one that ends the
    ///   session in the first case. A closed session stays closed.
    /// * Any other status changes nothing.
    pub open spec fn after_decrypt(
        self,
        status: i32,
        plaintext: Seq<u8>,
        extra: nat,
    ) -> StreamView<S> {
        if status == SEC_E_OK {
            self.with_bufs(BufferSetView { dec_in: plaintext, ..self.bufs }).keep_extra(extra)
        } else if status == SEC_E_INCOMPLETE_MESSAGE {
            self.with_needs_read(true)
        } else if status == SEC_I_CONTEXT_EXPIRED || status == SEC_I_RENEGOTIATE {
            self.begin_handshake(status == SEC_I_CONTEXT_EXPIRED).keep_extra(extra)
        } else {
            self
        }
    }

    /// The provider produced a record in `frame` and reports `len` as its
    /// length: `frame`, cut to that length if it is longer, becomes the
    /// pending output.
    pub open spec fn after_encrypt(self, frame: Seq<u8>, len: nat) -> StreamView<S> {
        let record = if len <= frame.len() {
            frame.take(len as int)
        } else {
            frame
        };
        self.with_bufs(BufferSetView { out_buf: record, ..self.bufs })
    }

    /// The caller took the first `amt` bytes of the undelivered plaintext.
    pub open spec fn after_consume(self, amt: nat) -> StreamView<S> {
        self.with_bufs(BufferSetView { dec_in: self.bufs.dec_in.skip(amt as int), ..self.bufs })
    }

    /// The shutdown control token was applied to the provider context: the
    /// handshake that ends the session begins, and its first step needs no
    /// input.
    pub open spec fn after_shutdown_token(self) -> StreamView<S> {
        self.begin_handshake(true).with_needs_read(false)
    }

    /// The provider reported the stream sizes of the session whose handshake
    /// is complete: the session is open. Outside a handshake nothing changes.
    pub open spec fn after_sizes(self, sizes: StreamSizes) -> StreamView<S> {
        if self.state is Initializing {
            self.with_state(State::Streaming { sizes })
        } else {
            self
        }
    }

    /// What the handshake driver does next, seen from the start of a round:
    /// pending output is written first and then flushed; a handshake that
    /// needs no further call ends in an open or a closed session; otherwise
    /// a stalled stream reads before the next provider step.
    pub open spec fn next_handshake(self) -> HandshakeStep {
        match self.state {
            State::Streaming { sizes } => HandshakeStep::Streaming(sizes),
            State::Shutdown => HandshakeStep::Shutdown,
            State::Initializing { needs_flush, more_calls, shutting_down } => {
                if self.bufs.out_buf.len() > 0 {
                    HandshakeStep::WriteOut
                } else if needs_flush {
                    HandshakeStep::Flush
                } else if !more_calls {
                    if shutting_down {
                        HandshakeStep::Shutdown
                    } else {
                        HandshakeStep::QuerySizes
                    }
                } else if self.needs_read {
                    HandshakeStep::ReadIn
                } else {
                    HandshakeStep::Step
                }
            },
        }
    }

    /// The stream once the handshake driver has decided: a handshake that
    /// ends the session leaves the stream closed.
    pub open spec fn settled(self) -> StreamView<S> {
        if self.next_handshake() == HandshakeStep::Shutdown {
            self.with_state(State::Shutdown)
        } else {
            self
        }
    }

    /// What filling the plaintext buffer does next: nothing while plaintext
    /// is left or the session is closed; otherwise a stalled stream reads
    /// before the next decrypt call.
    pub open spec fn next_fill(self) -> FillStep {
        if self.bufs.dec_in.len() > 0 || self.state == State::Shutdown {
            FillStep::Ready
        } else if self.needs_read {
            FillStep::ReadIn
        } else {
            FillStep::Decrypt
        }
    }

    /// What a write of `offered` bytes does next. An unfinished handshake is
    /// driven first and a closed session fails the write. In an open session
    /// a record is encrypted only if no output is pending; pending output is
    /// written as it is.
    pub open spec fn next_write(self, offered: nat) -> Result<WriteStep, StreamError> {
        match self.next_handshake() {
            HandshakeStep::Streaming(sizes) => {
                let len = sizes.chunk_len(offered) as usize;
                if self.bufs.out_buf.len() == 0 {
                    Ok(WriteStep::Encrypt { len, sizes })
                } else {
                    Ok(WriteStep::WriteOut { len })
                }
            },
            HandshakeStep::Shutdown => Err(StreamError::ContextExpired),
            step => Ok(WriteStep::Handshake(step)),
        }
    }

    /// What a write that takes `len` caller bytes does once its record is
    /// pending: the record is written until nothing of it is left.
    pub open spec fn next_write_out(self, len: usize) -> WriteStep {
        if self.bufs.out_buf.len() > 0 {
            WriteStep::WriteOut { len }
        } else {
            WriteStep::Done { len }
        }
    }

    /// What a shutdown does first: nothing on a closed session; the
    /// handshake goes on where the session is closing already; otherwise the
    /// provider context is told to shut down.
    pub open spec fn next_shutdown(self) -> ShutdownStep {
        match self.state {
            State::Shutdown => ShutdownStep::Done,
            State::Initializing { needs_flush, more_calls, shutting_down } => if shutting_down {
                ShutdownStep::Handshake(self.next_handshake())
            } else {
                ShutdownStep::ApplyToken
            },
            State::Streaming { sizes } => ShutdownStep::ApplyToken,
        }
    }

    /// The stream once a shutdown has decided what it does first.
    pub open spec fn after_shutdown(self) -> StreamView<S> {
        match self.next_shutdown() {
            ShutdownStep::Handshake(step) => self.settled(),
            _ => self,
        }
    }
}

} // verus!
