//! The stream itself: the buffers, the lifecycle state and the decisions of
//! the handshake, read, write and shutdown paths.
//!
//! The stream performs no outside operation. It keeps the transport for its
//! owner, and each path is a conversation: a function tells which operation
//! is needed next, the owner of the stream performs it on the transport or
//! on the provider, and reports the outcome to the function named for it,
//! which answers with the operation after that.
//!
//! * The handshake begins with [`TlsStream::initialize`]; outcomes are
//!   reported to `initialize_written`, `initialize_flushed`,
//!   `initialize_sizes`, `initialize_read`, `initialize_stepped` and
//!   `initialize_decrypted`.
//! * A read begins with [`TlsStream::fill_buf`]; outcomes are reported to
//!   `fill_buf_read` and `fill_buf_decrypted`. Once the buffer is ready,
//!   [`TlsStream::read`] or [`TlsStream::get_buf`] and
//!   [`TlsStream::consume`] deliver the plaintext.
//! * A write begins with [`TlsStream::write`]; outcomes are reported to
//!   `write_encrypted` and `write_written`.
//! * A shutdown begins with [`TlsStream::shutdown`]; the outcome is reported
//!   to `shutdown_applied`.

use crate::buffers::BufferSet;
use crate::error::{
    Error, StreamError, SEC_E_INCOMPLETE_MESSAGE, SEC_E_OK, SEC_I_CONTEXT_EXPIRED,
    SEC_I_CONTINUE_NEEDED, SEC_I_RENEGOTIATE,
};
use crate::model::{
    decrypt_accepted, decrypt_consumes, step_accepted, step_consumes, token_view, StreamView,
};
use crate::provider::{ProviderBuffer, StreamSizes};
use crate::state::{FillStep, HandshakeStep, ShutdownStep, State, WriteStep};
use crate::utf16::{encode_server_name, server_name};
use vstd::prelude::*;
use vstd::slice::slice_to_vec;

verus! {

/// Configures a stream before its handshake begins.
#[derive(Debug)]
pub struct TlsStreamBuilder {
    domain: Option<Vec<u16>>,
}

impl View for TlsStreamBuilder {
    type V = Option<Seq<u16>>;

    closed spec fn view(&self) -> Option<Seq<u16>> {
        match self.domain {
            Some(name) => Some(name@),
            None => None,
        }
    }
}

impl Default for TlsStreamBuilder {
    fn default() -> (builder: TlsStreamBuilder)
        ensures
            builder@ == None::<Seq<u16>>,
    {
        TlsStreamBuilder { domain: None }
    }
}

impl TlsStreamBuilder {
    /// A builder without a server name: the provider then binds the session
    /// to no peer identity.
    pub fn new() -> (builder: TlsStreamBuilder)
        ensures
            builder@ == None::<Seq<u16>>,
    {
        TlsStreamBuilder { domain: None }
    }

    /// Sets the name of the server that the session is meant for. The
    /// provider indicates it to the peer and checks the peer's certificate
    /// against it.
    pub fn domain(&mut self, domain: &str) -> (builder: &mut TlsStreamBuilder)
        ensures
            builder@ == Some(server_name(domain@)),
            *final(self) == *final(builder),
    {
        self.domain = Some(encode_server_name(domain));
        self
    }

    /// The server name that was set, as the provider takes it.
    pub fn server_name(&self) -> (name: Option<&[u16]>)
        ensures
            match name {
                Some(units) => self@ == Some(units@),
                None => self@ == None::<Seq<u16>>,
            },
    {
        match &self.domain {
            Some(name) => Some(name.as_slice()),
            None => None,
        }
    }

    /// Takes in the transport of the session and the provider's answer to
    /// the first handshake step, which is made without input: its status and
    /// the token that it produced for the peer. Where the provider asks to
    /// continue, the stream exists: its handshake is open, the token waits
    /// for the transport, and the next step needs input from the peer. Any
    /// other answer is an error.
    pub fn initialize<S>(&self, stream: S, status: i32, token: &[u8]) -> (r: Result<
        TlsStream<S>,
        Error,
    >)
        ensures
            status == SEC_I_CONTINUE_NEEDED ==> r is Ok && r->Ok_0.wf() && r->Ok_0@
                == StreamView::initial(stream, self@, token@),
            status != SEC_I_CONTINUE_NEEDED ==> r is Err && r->Err_0 == Error(status),
    {
        if status != SEC_I_CONTINUE_NEEDED {
            return Err(Error(status));
        }
        let domain = match &self.domain {
            Some(name) => Some(slice_to_vec(name.as_slice())),
            None => None,
        };
        Ok(
            TlsStream {
                stream,
                domain,
                state: State::Initializing {
                    needs_flush: false,
                    more_calls: true,
                    shutting_down: false,
                },
                needs_read: true,
                bufs: BufferSet::new(token),
            },
        )
    }
}

/// A TLS session over the byte transport `S`. The stream keeps the
/// transport, owns the buffers and the lifecycle state, and decides what its
/// owner asks of the transport and of the provider.
#[derive(Debug)]
pub struct TlsStream<S> {
    stream: S,
    domain: Option<Vec<u16>>,
    state: State,
    needs_read: bool,
    bufs: BufferSet,
}

impl<S> View for TlsStream<S> {
    type V = StreamView<S>;

    closed spec fn view(&self) -> StreamView<S> {
        StreamView {
            transport: self.stream,
            state: self.state,
            needs_read: self.needs_read,
            bufs: self.bufs@,
            domain: match self.domain {
                Some(name) => Some(name@),
                None => None,
            },
        }
    }
}

impl<S> TlsStream<S> {
    /// The buffers are well formed, and an open session can lay out its
    /// largest record.
    pub closed spec fn wf(&self) -> bool {
        &&& self.bufs.wf()
        &&& (self.state matches State::Streaming { sizes } ==> sizes.fits())
    }

    /// What holds of every stream: the held transport bytes fit their
    /// storage, every buffer has a length that a buffer can have, and an
    /// open session can lay out its largest record.
    pub proof fn lemma_view_valid(&self)
        requires
            self.wf(),
        ensures
            self@.valid(),
    {
        self.bufs.lemma_view_bounds();
    }

    /// The transport.
    pub fn get_ref(&self) -> (stream: &S)
        ensures
            *stream == self@.transport,
    {
        &self.stream
    }

    /// The transport, for its owner to read from, write to and flush. What
    /// the owner makes of it is the stream's transport afterwards; nothing
    /// else of the stream changes.
    pub fn get_mut(&mut self) -> (stream: &mut S)
        ensures
            *stream == old(self)@.transport,
            final(self)@ == old(self)@.with_transport(*final(stream)),
            final(self).wf() == old(self).wf(),
    {
        &mut self.stream
    }

    /// The transport together with the bytes that wait to be written to it.
    pub fn writer(&mut self) -> (parts: (&mut S, &[u8]))
        requires
            old(self).wf(),
        ensures
            *parts.0 == old(self)@.transport,
            parts.1@ == old(self)@.bufs.out_buf,
            final(self)@ == old(self)@.with_transport(*final(parts.0)),
            final(self).wf(),
    {
        (&mut self.stream, self.bufs.out_buf())
    }

    /// The server name that the provider is given with every handshake
    /// step, if one was set.
    pub fn server_name(&self) -> (name: Option<&[u16]>)
        ensures
            match name {
                Some(units) => self@.domain == Some(units@),
                None => self@.domain == None::<Seq<u16>>,
            },
    {
        match &self.domain {
            Some(name) => Some(name.as_slice()),
            None => None,
        }
    }

    /// The lifecycle state.
    pub fn state(&self) -> (state: State)
        ensures
            state == self@.state,
    {
        self.state
    }

    /// Whether the last handshake or decrypt step stalled for want of
    /// transport input.
    pub fn needs_read(&self) -> (flag: bool)
        ensures
            flag == self@.needs_read,
    {
        self.needs_read
    }

    /// The transport bytes held for the provider: the input of the next
    /// handshake step or decrypt call.
    pub fn enc_in(&self) -> (bytes: &[u8])
        requires
            self.wf(),
        ensures
            bytes@ == self@.bufs.enc_in,
    {
        self.bufs.enc_in()
    }

    /// The bytes that wait to be written to the transport.
    pub fn out_buf(&self) -> (bytes: &[u8])
        requires
            self.wf(),
        ensures
            bytes@ == self@.bufs.out_buf,
    {
        self.bufs.out_buf()
    }

    /// The plaintext that can be delivered to the caller now.
    pub fn get_buf(&self) -> (bytes: &[u8])
        requires
            self.wf(),
        ensures
            bytes@ == self@.bufs.dec_in,
    {
        self.bufs.dec_in()
    }

    /// How many bytes the next transport read may deliver.
    pub fn read_capacity(&self) -> (n: usize)
        requires
            self.wf(),
        ensures
            n == self@.read_capacity(),
    {
        self.bufs.read_capacity()
    }

    /// Drops the first `nread` held transport bytes: the provider consumed
    /// them.
    pub fn consume_enc_in(&mut self, nread: usize)
        requires
            old(self).wf(),
            nread <= old(self)@.bufs.enc_in.len(),
        ensures
            final(self).wf(),
            final(self)@ == old(self)@.with_bufs(
                crate::buffers::BufferSetView {
                    enc_in: old(self)@.bufs.enc_in.skip(nread as int),
                    ..old(self)@.bufs
                },
            ),
    {
        self.bufs.consume_enc_in(nread);
    }

    /// Keeps only the bytes that the provider left unconsumed, and notes
    /// whether the stream now stalls for input.
    fn keep_extra(&mut self, extra: ProviderBuffer)
        requires
            old(self).wf(),
            extra.extra_len() <= old(self)@.bufs.enc_in.len(),
        ensures
            final(self).wf(),
            final(self)@ == old(self)@.keep_extra(extra.extra_len()),
    {
        let nread = self.bufs.enc_in_len() - extra.unconsumed();
        self.bufs.consume_enc_in(nread);
        self.needs_read = self.bufs.enc_in_len() == 0;
    }

    /// Whether the provider's answer to a handshake step can be taken in:
    /// where the step consumed input, it left no more unconsumed than was
    /// held.
    pub fn step_fits(&self, status: i32, extra: ProviderBuffer) -> (fits: bool)
        requires
            self.wf(),
        ensures
            fits == (step_consumes(status) ==> extra.extra_len() <= self@.bufs.enc_in.len()),
    {
        if status == SEC_I_CONTINUE_NEEDED || status == SEC_E_OK {
            extra.unconsumed() <= self.bufs.enc_in_len()
        } else {
            true
        }
    }

    /// Whether the provider's answer to a decrypt call can be taken in:
    /// where the call consumed input, it left no more unconsumed than was
    /// held.
    pub fn decrypt_fits(&self, status: i32, extra: ProviderBuffer) -> (fits: bool)
        requires
            self.wf(),
        ensures
            fits == (decrypt_consumes(status) ==> extra.extra_len()
                <= self@.bufs.enc_in.len()),
    {
        if status == SEC_E_OK || status == SEC_I_CONTEXT_EXPIRED || status == SEC_I_RENEGOTIATE {
            extra.unconsumed() <= self.bufs.enc_in_len()
        } else {
            true
        }
    }

    /// Takes in the provider's answer to one handshake step: its status,
    /// the second input slot, which tells what it left unconsumed, and the
    /// token it produced for the peer, if any.
    ///
    /// Returns whether application data is left behind the completed
    /// handshake: it must be decrypted before the handshake is recorded as
    /// complete.
    pub fn step_initialize(
        &mut self,
        status: i32,
        extra: ProviderBuffer,
        token: Option<&[u8]>,
    ) -> (r: Result<bool, Error>)
        requires
            old(self).wf(),
            step_consumes(status) ==> extra.extra_len() <= old(self)@.bufs.enc_in.len(),
        ensures
            final(self).wf(),
            final(self)@ == old(self)@.after_step(status, extra.extra_len(), token_view(token)),
            step_accepted(status) ==> r == Ok::<bool, Error>(
                status == SEC_E_OK && extra.extra_len() > 0,
            ),
            !step_accepted(status) ==> r == Err::<bool, Error>(Error(status)),
    {
        if status == SEC_I_CONTINUE_NEEDED {
            self.keep_extra(extra);
            self.queue(token);
            Ok(false)
        } else if status == SEC_E_INCOMPLETE_MESSAGE {
            self.needs_read = true;
            Ok(false)
        } else if status == SEC_E_OK {
            self.keep_extra(extra);
            self.queue(token);
            if self.bufs.enc_in_len() != 0 {
                Ok(true)
            } else {
                self.handshake_complete();
                Ok(false)
            }
        } else {
            Err(Error(status))
        }
    }

    /// Queues a token, if there is one, behind the pending output.
    fn queue(&mut self, token: Option<&[u8]>)
        requires
            old(self).wf(),
        ensures
            final(self).wf(),
            final(self)@ == old(self)@.queue(token_view(token)),
    {
        if let Some(bytes) = token {
            self.bufs.push_out(bytes);
        }
    }

    /// Begins a handshake on the session, one that ends it if
    /// `shutting_down` is set. A closed session stays closed.
    fn begin_handshake(&mut self, shutting_down: bool)
        requires
            old(self).wf(),
        ensures
            final(self).wf(),
            final(self)@ == old(self)@.begin_handshake(shutting_down),
    {
        match self.state {
            State::Shutdown => {},
            _ => {
                self.state = State::Initializing {
                    needs_flush: false,
                    more_calls: true,
                    shutting_down,
                };
            },
        }
    }

    /// During a handshake, records that the provider expects no further
    /// call.
    fn handshake_complete(&mut self)
        requires
            old(self).wf(),
        ensures
            final(self).wf(),
            final(self)@ == old(self)@.handshake_complete(),
    {
        if let State::Initializing { needs_flush, more_calls, shutting_down } = self.state {
            self.state = State::Initializing { needs_flush, more_calls: false, shutting_down };
        }
    }

    /// Takes in the provider's answer to a decrypt call: its status, the
    /// plaintext that it produced on success, and the fourth slot, which
    /// tells what it left unconsumed.
    pub fn decrypt(&mut self, status: i32, plaintext: &[u8], extra: ProviderBuffer) -> (r: Result<
        (),
        Error,
    >)
        requires
            old(self).wf(),
            decrypt_consumes(status) ==> extra.extra_len() <= old(self)@.bufs.enc_in.len(),
        ensures
            final(self).wf(),
            final(self)@ == old(self)@.after_decrypt(status, plaintext@, extra.extra_len()),
            decrypt_accepted(status) ==> r == Ok::<(), Error>(()),
            !decrypt_accepted(status) ==> r == Err::<(), Error>(Error(status)),
    {
        if status == SEC_E_OK {
            self.bufs.load_dec_in(plaintext);
            self.keep_extra(extra);
            Ok(())
        } else if status == SEC_E_INCOMPLETE_MESSAGE {
            self.needs_read = true;
            Ok(())
        } else if status == SEC_I_CONTEXT_EXPIRED || status == SEC_I_RENEGOTIATE {
            self.begin_handshake(status == SEC_I_CONTEXT_EXPIRED);
            self.keep_extra(extra);
            Ok(())
        } else {
            Err(Error(status))
        }
    }

    /// Takes in the provider's answer to an encrypt call on `frame`: its
    /// status and the lengths that it left in the header, payload and
    /// trailer slots. On success the record, which ends where the trailer
    /// that the provider made ends, becomes the pending output.
    pub fn encrypt(
        &mut self,
        frame: Vec<u8>,
        status: i32,
        header_len: u32,
        data_len: u32,
        trailer_len: u32,
    ) -> (r: Result<(), Error>)
        requires
            old(self).wf(),
        ensures
            final(self).wf(),
            status == SEC_E_OK ==> r == Ok::<(), Error>(()) && final(self)@
                == old(self)@.after_encrypt(
                frame@,
                (header_len + data_len + trailer_len) as nat,
            ),
            status != SEC_E_OK ==> r == Err::<(), Error>(Error(status)) && final(self)@
                == old(self)@,
    {
        if status == SEC_E_OK {
            let len: u64 = header_len as u64 + data_len as u64 + trailer_len as u64;
            let mut record = frame;
            if len <= record.len() as u64 {
                record.truncate(len as usize);
            }
            self.bufs.replace_out(record);
            Ok(())
        } else {
            Err(Error(status))
        }
    }

    /// Takes in the outcome of writing the pending output to the transport:
    /// it accepted the first `nwritten` bytes. A transport that accepts
    /// nothing fails the write.
    pub fn write_out(&mut self, nwritten: usize) -> (r: Result<(), StreamError>)
        requires
            old(self).wf(),
            nwritten <= old(self)@.bufs.out_buf.len(),
        ensures
            final(self).wf(),
            nwritten > 0 ==> r == Ok::<(), StreamError>(()) && final(self)@
                == old(self)@.after_write_out(nwritten as nat),
            nwritten == 0 ==> r == Err::<(), StreamError>(StreamError::WriteZero) && final(self)@
                == old(self)@,
    {
        if nwritten == 0 {
            return Err(StreamError::WriteZero);
        }
        self.bufs.advance_out(nwritten);
        if let State::Initializing { needs_flush, more_calls, shutting_down } = self.state {
            self.state = State::Initializing { needs_flush: true, more_calls, shutting_down };
        }
        Ok(())
    }

    /// Takes in the bytes that a transport read delivered and returns their
    /// number.
    pub fn read_in(&mut self, bytes: &[u8]) -> (nread: usize)
        requires
            old(self).wf(),
            bytes@.len() <= old(self)@.read_capacity(),
        ensures
            final(self).wf(),
            nread == bytes@.len(),
            final(self)@ == old(self)@.after_read_in(bytes@),
    {
        proof {
            self.bufs.lemma_view_bounds();
        }
        self.bufs.read_in(bytes)
    }

    /// Marks the first `amt` bytes of the deliverable plaintext as taken.
    pub fn consume(&mut self, amt: usize)
        requires
            old(self).wf(),
            amt <= old(self)@.bufs.dec_in.len(),
        ensures
            final(self).wf(),
            final(self)@ == old(self)@.after_consume(amt as nat),
    {
        self.bufs.consume(amt);
    }

    /// Copies deliverable plaintext to the front of `buf`, as much as fits,
    /// and marks it as taken. Returns the number of bytes copied.
    pub fn read(&mut self, buf: &mut [u8]) -> (nread: usize)
        requires
            old(self).wf(),
        ensures
            final(self).wf(),
            nread == if old(buf)@.len() <= old(self)@.bufs.dec_in.len() {
                old(buf)@.len()
            } else {
                old(self)@.bufs.dec_in.len()
            },
            final(buf)@ == old(self)@.bufs.dec_in.take(nread as int) + old(buf)@.skip(nread as int),
            final(self)@ == old(self)@.after_consume(nread as nat),
    {
        let read_buf = self.bufs.dec_in();
        let nread = if buf.len() <= read_buf.len() {
            buf.len()
        } else {
            read_buf.len()
        };
        let mut i: usize = 0;
        while i < nread
            invariant
                i <= nread,
                nread <= read_buf@.len(),
                nread <= buf@.len(),
                buf@.len() == old(buf)@.len(),
                read_buf@ == old(self)@.bufs.dec_in,
                forall|k: int| 0 <= k < i ==> buf@[k] == read_buf@[k],
                forall|k: int| i <= k < buf@.len() ==> buf@[k] == old(buf)@[k],
            decreases nread - i,
        {
            buf[i] = read_buf[i];
            i = i + 1;
        }
        assert(buf@ =~= old(self)@.bufs.dec_in.take(nread as int) + old(buf)@.skip(nread as int));
        self.bufs.consume(nread);
        nread
    }

    /// Decides what the handshake driver does next, from the start of a
    /// round. A handshake that ends the session closes the stream here.
    pub fn initialize(&mut self) -> (step: HandshakeStep)
        requires
            old(self).wf(),
        ensures
            final(self).wf(),
            step == old(self)@.next_handshake(),
            final(self)@ == old(self)@.settled(),
    {
        match self.state {
            State::Streaming { sizes } => HandshakeStep::Streaming(sizes),
            State::Shutdown => HandshakeStep::Shutdown,
            State::Initializing { needs_flush, more_calls, shutting_down } => {
                if self.bufs.out_buf().len() > 0 {
                    HandshakeStep::WriteOut
                } else if needs_flush {
                    HandshakeStep::Flush
                } else if !more_calls {
                    if shutting_down {
                        self.state = State::Shutdown;
                        HandshakeStep::Shutdown
                    } else {
                        HandshakeStep::QuerySizes
                    }
                } else if self.needs_read {
                    HandshakeStep::ReadIn
                } else {
                    HandshakeStep::Step
                }
            },
        }
    }

    /// The handshake driver wrote pending output: the transport accepted
    /// `nwritten` bytes. Output that is left is written next, and what was
    /// written is flushed after that.
    pub fn initialize_written(&mut self, nwritten: usize) -> (r: Result<HandshakeStep, StreamError>)
        requires
            old(self).wf(),
            nwritten <= old(self)@.bufs.out_buf.len(),
        ensures
            final(self).wf(),
            nwritten > 0 ==> r == Ok::<HandshakeStep, StreamError>(
                old(self)@.after_write_out(nwritten as nat).next_handshake(),
            ) && final(self)@ == old(self)@.after_write_out(nwritten as nat).settled(),
            nwritten == 0 ==> r == Err::<HandshakeStep, StreamError>(StreamError::WriteZero)
                && final(self)@ == old(self)@,
    {
        match self.write_out(nwritten) {
            Ok(()) => Ok(self.initialize()),
            Err(e) => Err(e),
        }
    }

    /// The handshake driver flushed the transport.
    pub fn initialize_flushed(&mut self) -> (step: HandshakeStep)
        requires
            old(self).wf(),
        ensures
            final(self).wf(),
            step == old(self)@.with_needs_flush(false).next_handshake(),
            final(self)@ == old(self)@.with_needs_flush(false).settled(),
    {
        if let State::Initializing { needs_flush, more_calls, shutting_down } = self.state {
            self.state = State::Initializing { needs_flush: false, more_calls, shutting_down };
        }
        self.initialize()
    }

    /// The handshake driver asked the provider for the stream sizes. On
    /// success the session whose handshake is complete is open.
    pub fn initialize_sizes(&mut self, status: i32, sizes: StreamSizes) -> (r: Result<
        HandshakeStep,
        StreamError,
    >)
        requires
            old(self).wf(),
            status == SEC_E_OK ==> sizes.fits(),
        ensures
            final(self).wf(),
            status == SEC_E_OK ==> r == Ok::<HandshakeStep, StreamError>(
                old(self)@.after_sizes(sizes).next_handshake(),
            ) && final(self)@ == old(self)@.after_sizes(sizes).settled(),
            status == SEC_E_OK && old(self)@.state is Initializing ==> r == Ok::<
                HandshakeStep,
                StreamError,
            >(HandshakeStep::Streaming(sizes)),
            status != SEC_E_OK ==> r == Err::<HandshakeStep, StreamError>(
                StreamError::Provider(Error(status)),
            ) && final(self)@ == old(self)@,
    {
        if status == SEC_E_OK {
            if let State::Initializing { needs_flush, more_calls, shutting_down } = self.state {
                self.state = State::Streaming { sizes };
            }
            Ok(self.initialize())
        } else {
            Err(StreamError::Provider(Error(status)))
        }
    }

    /// The handshake driver read from the transport. The handshake cannot
    /// go on without input: a read that delivered nothing fails it.
    /// Otherwise the provider step follows.
    pub fn initialize_read(&mut self, bytes: &[u8]) -> (r: Result<HandshakeStep, StreamError>)
        requires
            old(self).wf(),
            bytes@.len() <= old(self)@.read_capacity(),
        ensures
            final(self).wf(),
            final(self)@ == old(self)@.after_read_in(bytes@),
            bytes@.len() > 0 ==> r == Ok::<HandshakeStep, StreamError>(HandshakeStep::Step),
            bytes@.len() == 0 ==> r == Err::<HandshakeStep, StreamError>(
                StreamError::UnexpectedEof,
            ),
    {
        if self.read_in(bytes) == 0 {
            Err(StreamError::UnexpectedEof)
        } else {
            Ok(HandshakeStep::Step)
        }
    }

    /// The handshake driver ran a provider step. Application data left
    /// behind a completed handshake is decrypted next; otherwise a new round
    /// begins.
    pub fn initialize_stepped(
        &mut self,
        status: i32,
        extra: ProviderBuffer,
        token: Option<&[u8]>,
    ) -> (r: Result<HandshakeStep, StreamError>)
        requires
            old(self).wf(),
            step_consumes(status) ==> extra.extra_len() <= old(self)@.bufs.enc_in.len(),
        ensures
            final(self).wf(),
            !step_accepted(status) ==> r == Err::<HandshakeStep, StreamError>(
                StreamError::Provider(Error(status)),
            ) && final(self)@ == old(self)@,
            step_accepted(status) && status == SEC_E_OK && extra.extra_len() > 0 ==> r == Ok::<
                HandshakeStep,
                StreamError,
            >(HandshakeStep::Decrypt) && final(self)@ == old(self)@.after_step(
                status,
                extra.extra_len(),
                token_view(token),
            ),
            step_accepted(status) && !(status == SEC_E_OK && extra.extra_len() > 0) ==> r == Ok::<
                HandshakeStep,
                StreamError,
            >(old(self)@.after_step(status, extra.extra_len(), token_view(token)).next_handshake())
                && final(self)@ == old(self)@.after_step(
                status,
                extra.extra_len(),
                token_view(token),
            ).settled(),
    {
        match self.step_initialize(status, extra, token) {
            Ok(true) => Ok(HandshakeStep::Decrypt),
            Ok(false) => Ok(self.initialize()),
            Err(e) => Err(StreamError::Provider(e)),
        }
    }

    /// The handshake driver had the provider decrypt the application data
    /// left behind the completed handshake. The handshake is now recorded as
    /// complete and a new round begins.
    pub fn initialize_decrypted(
        &mut self,
        status: i32,
        plaintext: &[u8],
        extra: ProviderBuffer,
    ) -> (r: Result<HandshakeStep, StreamError>)
        requires
            old(self).wf(),
            decrypt_consumes(status) ==> extra.extra_len() <= old(self)@.bufs.enc_in.len(),
        ensures
            final(self).wf(),
            !decrypt_accepted(status) ==> r == Err::<HandshakeStep, StreamError>(
                StreamError::Provider(Error(status)),
            ) && final(self)@ == old(self)@,
            decrypt_accepted(status) ==> r == Ok::<HandshakeStep, StreamError>(
                old(self)@.after_decrypt(
                    status,
                    plaintext@,
                    extra.extra_len(),
                ).handshake_complete().next_handshake(),
            ) && final(self)@ == old(self)@.after_decrypt(
                status,
                plaintext@,
                extra.extra_len(),
            ).handshake_complete().settled(),
    {
        match self.decrypt(status, plaintext, extra) {
            Ok(()) => {
                self.handshake_complete();
                Ok(self.initialize())
            },
            Err(e) => Err(StreamError::Provider(e)),
        }
    }

    /// Decides what filling the plaintext buffer needs next.
    pub fn fill_buf(&self) -> (step: FillStep)
        requires
            self.wf(),
        ensures
            step == self@.next_fill(),
    {
        if self.bufs.dec_in().len() > 0 {
            FillStep::Ready
        } else if let State::Shutdown = self.state {
            FillStep::Ready
        } else if self.needs_read {
            FillStep::ReadIn
        } else {
            FillStep::Decrypt
        }
    }

    /// Filling the plaintext buffer read from the transport. A read that
    /// delivered nothing is the end of the stream; otherwise the stream no
    /// longer stalls and the provider decrypts next.
    pub fn fill_buf_read(&mut self, bytes: &[u8]) -> (step: FillStep)
        requires
            old(self).wf(),
            bytes@.len() <= old(self)@.read_capacity(),
        ensures
            final(self).wf(),
            bytes@.len() == 0 ==> step == FillStep::Ready && final(self)@
                == old(self)@.after_read_in(bytes@),
            bytes@.len() > 0 ==> step == FillStep::Decrypt && final(self)@
                == old(self)@.after_read_in(bytes@).with_needs_read(false),
    {
        if self.read_in(bytes) == 0 {
            FillStep::Ready
        } else {
            self.needs_read = false;
            FillStep::Decrypt
        }
    }

    /// Filling the plaintext buffer had the provider decrypt the held
    /// transport bytes.
    pub fn fill_buf_decrypted(
        &mut self,
        status: i32,
        plaintext: &[u8],
        extra: ProviderBuffer,
    ) -> (r: Result<FillStep, StreamError>)
        requires
            old(self).wf(),
            decrypt_consumes(status) ==> extra.extra_len() <= old(self)@.bufs.enc_in.len(),
        ensures
            final(self).wf(),
            final(self)@ == old(self)@.after_decrypt(status, plaintext@, extra.extra_len()),
            decrypt_accepted(status) ==> r == Ok::<FillStep, StreamError>(final(self)@.next_fill()),
            !decrypt_accepted(status) ==> r == Err::<FillStep, StreamError>(
                StreamError::Provider(Error(status)),
            ),
    {
        match self.decrypt(status, plaintext, extra) {
            Ok(()) => Ok(self.fill_buf()),
            Err(e) => Err(StreamError::Provider(e)),
        }
    }

    /// Decides what a write of `buf` needs next. An unfinished handshake is
    /// driven first, and a closed session fails the write. In an open
    /// session one record carries as much of `buf` as the session allows;
    /// it is laid out and encrypted only if no output is pending: pending
    /// output is the record of an earlier attempt to write the same data,
    /// and is written instead.
    pub fn write(&mut self, buf: &[u8]) -> (r: Result<WriteStep, StreamError>)
        requires
            old(self).wf(),
        ensures
            final(self).wf(),
            final(self)@ == old(self)@.settled(),
            r == old(self)@.next_write(buf@.len()),
    {
        match self.initialize() {
            HandshakeStep::Streaming(sizes) => {
                let len = if buf.len() <= sizes.max_message as usize {
                    buf.len()
                } else {
                    sizes.max_message as usize
                };
                if self.bufs.out_buf().len() == 0 {
                    Ok(WriteStep::Encrypt { len, sizes })
                } else {
                    Ok(WriteStep::WriteOut { len })
                }
            },
            HandshakeStep::Shutdown => Err(StreamError::ContextExpired),
            step => Ok(WriteStep::Handshake(step)),
        }
    }

    /// A write had the provider encrypt the record laid out in `frame` for
    /// `len` bytes of the caller. On success the record is written next.
    pub fn write_encrypted(
        &mut self,
        frame: Vec<u8>,
        status: i32,
        header_len: u32,
        data_len: u32,
        trailer_len: u32,
        len: usize,
    ) -> (r: Result<WriteStep, StreamError>)
        requires
            old(self).wf(),
        ensures
            final(self).wf(),
            status == SEC_E_OK ==> final(self)@ == old(self)@.after_encrypt(
                frame@,
                (header_len + data_len + trailer_len) as nat,
            ) && r == Ok::<WriteStep, StreamError>(final(self)@.next_write_out(len)),
            status != SEC_E_OK ==> r == Err::<WriteStep, StreamError>(
                StreamError::Provider(Error(status)),
            ) && final(self)@ == old(self)@,
    {
        match self.encrypt(frame, status, header_len, data_len, trailer_len) {
            Ok(()) => Ok(self.next_write_out(len)),
            Err(e) => Err(StreamError::Provider(e)),
        }
    }

    /// A write wrote pending output: the transport accepted `nwritten`
    /// bytes. The write is complete once no output is left.
    pub fn write_written(&mut self, nwritten: usize, len: usize) -> (r: Result<
        WriteStep,
        StreamError,
    >)
        requires
            old(self).wf(),
            nwritten <= old(self)@.bufs.out_buf.len(),
        ensures
            final(self).wf(),
            nwritten > 0 ==> final(self)@ == old(self)@.after_write_out(nwritten as nat) && r
                == Ok::<WriteStep, StreamError>(final(self)@.next_write_out(len)),
            nwritten == 0 ==> r == Err::<WriteStep, StreamError>(StreamError::WriteZero)
                && final(self)@ == old(self)@,
    {
        match self.write_out(nwritten) {
            Ok(()) => Ok(self.next_write_out(len)),
            Err(e) => Err(e),
        }
    }

    /// What a write that takes `len` bytes of the caller does once its
    /// record is pending: write it, until nothing is left.
    fn next_write_out(&self, len: usize) -> (step: WriteStep)
        requires
            self.wf(),
        ensures
            step == self@.next_write_out(len),
    {
        if self.bufs.out_buf().len() > 0 {
            WriteStep::WriteOut { len }
        } else {
            WriteStep::Done { len }
        }
    }

    /// Decides what a shutdown needs first. A closed session needs nothing,
    /// and a session that is closing already goes on with its handshake.
    /// Otherwise the provider context must be told to shut down.
    pub fn shutdown(&mut self) -> (step: ShutdownStep)
        requires
            old(self).wf(),
        ensures
            final(self).wf(),
            step == old(self)@.next_shutdown(),
            final(self)@ == old(self)@.after_shutdown(),
    {
        match self.state {
            State::Shutdown => ShutdownStep::Done,
            State::Initializing { needs_flush, more_calls, shutting_down } => {
                if shutting_down {
                    ShutdownStep::Handshake(self.initialize())
                } else {
                    ShutdownStep::ApplyToken
                }
            },
            State::Streaming { sizes } => ShutdownStep::ApplyToken,
        }
    }

    /// A shutdown applied the shutdown control token to the provider
    /// context. On success the handshake that ends the session begins.
    pub fn shutdown_applied(&mut self, status: i32) -> (r: Result<ShutdownStep, StreamError>)
        requires
            old(self).wf(),
        ensures
            final(self).wf(),
            status == SEC_E_OK ==> r == Ok::<ShutdownStep, StreamError>(
                ShutdownStep::Handshake(old(self)@.after_shutdown_token().next_handshake()),
            ) && final(self)@ == old(self)@.after_shutdown_token().settled(),
            status != SEC_E_OK ==> r == Err::<ShutdownStep, StreamError>(
                StreamError::Provider(Error(status)),
            ) && final(self)@ == old(self)@,
    {
        if status == SEC_E_OK {
            self.begin_handshake(true);
            self.needs_read = false;
            Ok(ShutdownStep::Handshake(self.initialize()))
        } else {
            Err(StreamError::Provider(Error(status)))
        }
    }
}

} // verus!
