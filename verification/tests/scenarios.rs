//! Whole sessions, driven over an in-memory transport against a scripted
//! provider and peer.

use schannel::error::{
    SEC_E_INCOMPLETE_MESSAGE, SEC_E_OK, SEC_I_CONTEXT_EXPIRED, SEC_I_CONTINUE_NEEDED,
    SEC_I_RENEGOTIATE,
};
use schannel::{
    Algorithm, Direction, FillStep, Handle, HandshakeStep, ProviderBuffer, SchannelCredBuilder,
    ShutdownStep, State, StreamError, StreamSizes, TlsStream, TlsStreamBuilder, WriteStep,
};
use std::io::{self, Read, Write};

// ---------------------------------------------------------------------------
// A toy record protocol standing in for the provider's cryptography.

const SEC_E_INVALID_TOKEN: i32 = -2146893048;
const SEC_E_WRONG_PRINCIPAL: i32 = -2146893022;
const SEC_E_DECRYPT_FAILURE: i32 = -2146893008;

const HEADER: usize = 5;
const TRAILER: usize = 4;
const MAX_MESSAGE: usize = 16;

const APPLICATION_DATA: u8 = 23;
const ALERT: u8 = 21;
const HELLO_REQUEST: u8 = 22;

const CLIENT_HELLO: &[u8] = b"CLNTHELO";
const CLIENT_KEY: &[u8] = b"CLIENTKX";
const CLIENT_FINISHED: &[u8] = b"FINISHED";
const SERVER_HELLO: &[u8] = b"SRVHELLO";
const SERVER_DONE: &[u8] = b"SRVDONE!";

fn checksum(plain: &[u8]) -> [u8; 4] {
    let mut sum: u32 = 0;
    for b in plain {
        sum = sum.wrapping_mul(31).wrapping_add(*b as u32);
    }
    sum.to_be_bytes()
}

fn seal(kind: u8, plain: &[u8]) -> Vec<u8> {
    let mut record = vec![kind, 3, 3, (plain.len() >> 8) as u8, plain.len() as u8];
    record.extend(plain.iter().map(|b| b ^ 0x5a));
    record.extend_from_slice(&checksum(plain));
    record
}

/// Splits one record off the front of `input`: its kind, its plaintext and
/// its total length. `None` where the record is not complete.
fn open(input: &[u8]) -> Option<(u8, Vec<u8>, usize)> {
    if input.len() < HEADER {
        return None;
    }
    let len = ((input[3] as usize) << 8) | input[4] as usize;
    let total = HEADER + len + TRAILER;
    if input.len() < total {
        return None;
    }
    let plain: Vec<u8> = input[HEADER..HEADER + len].iter().map(|b| b ^ 0x5a).collect();
    assert_eq!(&input[HEADER + len..total], &checksum(&plain));
    Some((input[0], plain, total))
}

fn extra(len: usize) -> ProviderBuffer {
    if len > 0 {
        ProviderBuffer::extra(len)
    } else {
        ProviderBuffer::empty()
    }
}

// ---------------------------------------------------------------------------
// The scripted provider: the client side of the toy protocol.

#[derive(Debug, PartialEq)]
enum Phase {
    HelloSent,
    KeySent,
    Established,
    Closing,
    Closed,
}

struct Provider {
    phase: Phase,
    encrypt_calls: usize,
    tokens_applied: usize,
}

struct Stepped {
    status: i32,
    extra: ProviderBuffer,
    token: Option<Vec<u8>>,
}

struct Decrypted {
    status: i32,
    data: std::ops::Range<usize>,
    extra: ProviderBuffer,
}

impl Provider {
    /// The first handshake step, made without input.
    fn first_step() -> (Provider, i32, Vec<u8>) {
        let provider = Provider { phase: Phase::HelloSent, encrypt_calls: 0, tokens_applied: 0 };
        (provider, SEC_I_CONTINUE_NEEDED, CLIENT_HELLO.to_vec())
    }

    fn step(&mut self, input: &[u8], domain: Option<&[u16]>) -> Stepped {
        match self.phase {
            Phase::HelloSent => {
                // The server's hello carries the name on its certificate.
                if input.len() < SERVER_HELLO.len() + 1 {
                    return Stepped::incomplete();
                }
                let name_len = input[SERVER_HELLO.len()] as usize;
                let total = SERVER_HELLO.len() + 1 + name_len;
                if input.len() < total {
                    return Stepped::incomplete();
                }
                if &input[..SERVER_HELLO.len()] != SERVER_HELLO {
                    return Stepped::failed(SEC_E_INVALID_TOKEN);
                }
                if let Some(domain) = domain {
                    let name = String::from_utf8(input[SERVER_HELLO.len() + 1..total].to_vec())
                        .unwrap();
                    let wanted: Vec<u16> = name.encode_utf16().chain(Some(0)).collect();
                    if domain != &wanted[..] {
                        return Stepped::failed(SEC_E_WRONG_PRINCIPAL);
                    }
                }
                self.phase = Phase::KeySent;
                Stepped {
                    status: SEC_I_CONTINUE_NEEDED,
                    extra: extra(input.len() - total),
                    token: Some(CLIENT_KEY.to_vec()),
                }
            }
            Phase::KeySent => {
                if input.len() < SERVER_DONE.len() {
                    return Stepped::incomplete();
                }
                if &input[..SERVER_DONE.len()] != SERVER_DONE {
                    return Stepped::failed(SEC_E_INVALID_TOKEN);
                }
                self.phase = Phase::Established;
                Stepped {
                    status: SEC_E_OK,
                    extra: extra(input.len() - SERVER_DONE.len()),
                    token: Some(CLIENT_FINISHED.to_vec()),
                }
            }
            Phase::Closing => {
                self.phase = Phase::Closed;
                Stepped {
                    status: SEC_E_OK,
                    extra: extra(input.len()),
                    token: Some(seal(ALERT, b"bye")),
                }
            }
            Phase::Established | Phase::Closed => Stepped::failed(SEC_E_INVALID_TOKEN),
        }
    }

    fn decrypt(&mut self, input: &mut [u8]) -> Decrypted {
        let Some((kind, plain, total)) = open(input) else {
            return Decrypted {
                status: SEC_E_INCOMPLETE_MESSAGE,
                data: 0..0,
                extra: ProviderBuffer::empty(),
            };
        };
        let rest = extra(input.len() - total);
        match kind {
            APPLICATION_DATA => {
                input[HEADER..HEADER + plain.len()].copy_from_slice(&plain);
                Decrypted { status: SEC_E_OK, data: HEADER..HEADER + plain.len(), extra: rest }
            }
            ALERT => Decrypted { status: SEC_I_CONTEXT_EXPIRED, data: 0..0, extra: rest },
            HELLO_REQUEST => {
                self.phase = Phase::KeySent;
                Decrypted { status: SEC_I_RENEGOTIATE, data: 0..0, extra: rest }
            }
            _ => Decrypted { status: SEC_E_DECRYPT_FAILURE, data: 0..0, extra: rest },
        }
    }

    fn encrypt(
        &mut self,
        frame: &mut [u8],
        sizes: &StreamSizes,
        len: usize,
    ) -> (i32, u32, u32, u32) {
        self.encrypt_calls += 1;
        let header = sizes.header as usize;
        let record = seal(APPLICATION_DATA, &frame[header..header + len]);
        frame[..record.len()].copy_from_slice(&record);
        (SEC_E_OK, sizes.header, len as u32, TRAILER as u32)
    }

    fn stream_sizes(&mut self) -> (i32, StreamSizes) {
        let sizes = StreamSizes::new(HEADER as u32, TRAILER as u32 + 2, MAX_MESSAGE as u32);
        (SEC_E_OK, sizes.unwrap())
    }

    fn apply_shutdown_token(&mut self) -> i32 {
        self.tokens_applied += 1;
        self.phase = Phase::Closing;
        SEC_E_OK
    }
}

impl Stepped {
    fn incomplete() -> Stepped {
        Stepped { status: SEC_E_INCOMPLETE_MESSAGE, extra: ProviderBuffer::empty(), token: None }
    }

    fn failed(status: i32) -> Stepped {
        Stepped { status, extra: ProviderBuffer::empty(), token: None }
    }
}

// ---------------------------------------------------------------------------
// The scripted peer behind an in-memory transport.

#[derive(Debug, PartialEq)]
enum Server {
    AwaitHello,
    AwaitKey,
    AwaitFinished,
    Open,
    Closed,
}

struct Pipe {
    server: Server,
    certificate_name: &'static str,
    /// What the client wrote and the server has not parsed yet.
    inbox: Vec<u8>,
    /// What the server sent and the client has not read yet.
    outbox: Vec<u8>,
    /// Every byte that the client wrote, in order.
    written: Vec<u8>,
    /// The plaintext of every application record that the client sent.
    received_plain: Vec<u8>,
    records_received: usize,
    flushes: usize,
    /// The most that one read delivers.
    read_limit: usize,
    /// The most that one write accepts.
    write_limit: usize,
    /// The writes, counted from now, that fail with `WouldBlock` after
    /// accepting nothing.
    blocked_writes: Vec<usize>,
    writes: usize,
    /// Sent behind the final handshake message, in the same flight.
    early_data: Option<Vec<u8>>,
    /// The response to a complete request.
    response: Vec<u8>,
    /// Ask for a renegotiation before the response.
    renegotiate: bool,
}

impl Pipe {
    fn new() -> Pipe {
        Pipe {
            server: Server::AwaitHello,
            certificate_name: "google.com",
            inbox: Vec::new(),
            outbox: Vec::new(),
            written: Vec::new(),
            received_plain: Vec::new(),
            records_received: 0,
            flushes: 0,
            read_limit: usize::MAX,
            write_limit: usize::MAX,
            blocked_writes: Vec::new(),
            writes: 0,
            early_data: None,
            response: b"HTTP/1.0 200 OK\r\n\r\n<html>hello, world</html>".to_vec(),
            renegotiate: false,
        }
    }

    fn send_plain(&mut self, plain: &[u8]) {
        for chunk in plain.chunks(MAX_MESSAGE) {
            self.outbox.extend(seal(APPLICATION_DATA, chunk));
        }
    }

    fn serve(&mut self) {
        loop {
            match self.server {
                Server::AwaitHello => {
                    if !self.take(CLIENT_HELLO) {
                        return;
                    }
                    self.outbox.extend_from_slice(SERVER_HELLO);
                    self.outbox.push(self.certificate_name.len() as u8);
                    self.outbox.extend_from_slice(self.certificate_name.as_bytes());
                    self.server = Server::AwaitKey;
                }
                Server::AwaitKey => {
                    if !self.take(CLIENT_KEY) {
                        return;
                    }
                    self.outbox.extend_from_slice(SERVER_DONE);
                    if let Some(data) = self.early_data.take() {
                        self.send_plain(&data);
                    }
                    self.server = Server::AwaitFinished;
                }
                Server::AwaitFinished => {
                    if !self.take(CLIENT_FINISHED) {
                        return;
                    }
                    self.server = Server::Open;
                }
                Server::Open => {
                    let Some((kind, plain, total)) = open(&self.inbox) else {
                        return;
                    };
                    self.inbox.drain(..total);
                    if kind == ALERT {
                        self.server = Server::Closed;
                        continue;
                    }
                    assert_eq!(kind, APPLICATION_DATA);
                    self.records_received += 1;
                    self.received_plain.extend_from_slice(&plain);
                    if self.received_plain.ends_with(b"\r\n\r\n") {
                        if self.renegotiate {
                            self.renegotiate = false;
                            self.outbox.extend(seal(HELLO_REQUEST, b""));
                            self.outbox.extend_from_slice(SERVER_DONE);
                            self.server = Server::AwaitFinished;
                        }
                        let response = self.response.clone();
                        self.send_plain(&response);
                        self.outbox.extend(seal(ALERT, b"bye"));
                    }
                }
                Server::Closed => return,
            }
        }
    }

    fn take(&mut self, message: &[u8]) -> bool {
        if self.inbox.len() < message.len() {
            return false;
        }
        assert_eq!(&self.inbox[..message.len()], message);
        self.inbox.drain(..message.len());
        true
    }
}

impl Read for Pipe {
    fn read(&mut self, buf: &mut [u8]) -> io::Result<usize> {
        let n = buf.len().min(self.outbox.len()).min(self.read_limit);
        buf[..n].copy_from_slice(&self.outbox[..n]);
        self.outbox.drain(..n);
        Ok(n)
    }
}

impl Write for Pipe {
    fn write(&mut self, buf: &[u8]) -> io::Result<usize> {
        let turn = self.writes;
        self.writes += 1;
        if self.blocked_writes.contains(&turn) {
            return Err(io::Error::new(io::ErrorKind::WouldBlock, "try again"));
        }
        let n = buf.len().min(self.write_limit);
        self.written.extend_from_slice(&buf[..n]);
        self.inbox.extend_from_slice(&buf[..n]);
        self.serve();
        Ok(n)
    }

    fn flush(&mut self) -> io::Result<()> {
        self.flushes += 1;
        Ok(())
    }
}

// ---------------------------------------------------------------------------
// The owner of a stream: it performs what the stream asks for.

struct Session {
    core: TlsStream<Pipe>,
    provider: Provider,
}

fn failed(e: StreamError) -> io::Error {
    match e {
        StreamError::Provider(error) => {
            io::Error::new(io::ErrorKind::Other, format!("provider error {:#x}", error.code()))
        }
        StreamError::UnexpectedEof => {
            io::Error::new(io::ErrorKind::UnexpectedEof, "unexpected EOF during handshake")
        }
        StreamError::WriteZero => io::Error::new(io::ErrorKind::WriteZero, "nothing written"),
        StreamError::ContextExpired => io::Error::new(io::ErrorKind::Other, "context expired"),
    }
}

impl Session {
    fn connect(builder: &TlsStreamBuilder, pipe: Pipe) -> io::Result<Session> {
        let (provider, status, token) = Provider::first_step();
        let core = builder
            .initialize(pipe, status, &token)
            .map_err(|e| failed(StreamError::Provider(e)))?;
        let mut session = Session { core, provider };
        let step = session.core.initialize();
        session.handshake(step)?;
        Ok(session)
    }

    fn pipe(&self) -> &Pipe {
        self.core.get_ref()
    }

    fn write_out(&mut self) -> io::Result<usize> {
        let (pipe, pending) = self.core.writer();
        let n = pipe.write(pending)?;
        assert!(n <= pending.len());
        Ok(n)
    }

    fn read_transport(&mut self) -> io::Result<Vec<u8>> {
        let mut scratch = vec![0u8; self.core.read_capacity()];
        let n = self.core.get_mut().read(&mut scratch)?;
        scratch.truncate(n);
        Ok(scratch)
    }

    fn decrypt_held(&mut self) -> (Vec<u8>, Decrypted) {
        let mut scratch = self.core.enc_in().to_vec();
        let outcome = self.provider.decrypt(&mut scratch);
        assert!(self.core.decrypt_fits(outcome.status, outcome.extra));
        (scratch, outcome)
    }

    fn handshake(&mut self, first: HandshakeStep) -> io::Result<Option<StreamSizes>> {
        let mut step = first;
        loop {
            step = match step {
                HandshakeStep::WriteOut => {
                    let n = self.write_out()?;
                    self.core.initialize_written(n).map_err(failed)?
                }
                HandshakeStep::Flush => {
                    self.core.get_mut().flush()?;
                    self.core.initialize_flushed()
                }
                HandshakeStep::QuerySizes => {
                    let (status, sizes) = self.provider.stream_sizes();
                    self.core.initialize_sizes(status, sizes).map_err(failed)?
                }
                HandshakeStep::ReadIn => {
                    let bytes = self.read_transport()?;
                    self.core.initialize_read(&bytes).map_err(failed)?
                }
                HandshakeStep::Step => {
                    let outcome = self.provider.step(self.core.enc_in(), self.core.server_name());
                    assert!(self.core.step_fits(outcome.status, outcome.extra));
                    self.core
                        .initialize_stepped(outcome.status, outcome.extra, outcome.token.as_deref())
                        .map_err(failed)?
                }
                HandshakeStep::Decrypt => {
                    let (scratch, outcome) = self.decrypt_held();
                    self.core
                        .initialize_decrypted(outcome.status, &scratch[outcome.data], outcome.extra)
                        .map_err(failed)?
                }
                HandshakeStep::Streaming(sizes) => return Ok(Some(sizes)),
                HandshakeStep::Shutdown => return Ok(None),
            };
        }
    }

    fn fill_buf(&mut self) -> io::Result<&[u8]> {
        let mut step = self.core.fill_buf();
        loop {
            step = match step {
                FillStep::ReadIn => {
                    let bytes = self.read_transport()?;
                    self.core.fill_buf_read(&bytes)
                }
                FillStep::Decrypt => {
                    let (scratch, outcome) = self.decrypt_held();
                    self.core
                        .fill_buf_decrypted(outcome.status, &scratch[outcome.data], outcome.extra)
                        .map_err(failed)?
                }
                FillStep::Ready => return Ok(self.core.get_buf()),
            };
        }
    }

    fn consume(&mut self, amt: usize) {
        assert!(amt <= self.core.get_buf().len());
        self.core.consume(amt);
    }

    fn shutdown(&mut self) -> io::Result<()> {
        let mut step = self.core.shutdown();
        loop {
            step = match step {
                ShutdownStep::ApplyToken => {
                    let status = self.provider.apply_shutdown_token();
                    self.core.shutdown_applied(status).map_err(failed)?
                }
                ShutdownStep::Handshake(first) => {
                    self.handshake(first)?;
                    return Ok(());
                }
                ShutdownStep::Done => return Ok(()),
            };
        }
    }
}

impl Read for Session {
    fn read(&mut self, buf: &mut [u8]) -> io::Result<usize> {
        self.fill_buf()?;
        Ok(self.core.read(buf))
    }
}

impl Write for Session {
    fn write(&mut self, buf: &[u8]) -> io::Result<usize> {
        let mut step = self.core.write(buf).map_err(failed)?;
        loop {
            step = match step {
                WriteStep::Handshake(first) => {
                    self.handshake(first)?;
                    self.core.write(buf).map_err(failed)?
                }
                WriteStep::Encrypt { len, sizes } => {
                    let mut frame = sizes.lay_out(&buf[..len]);
                    let (status, header_len, data_len, trailer_len) =
                        self.provider.encrypt(&mut frame, &sizes, len);
                    self.core
                        .write_encrypted(frame, status, header_len, data_len, trailer_len, len)
                        .map_err(failed)?
                }
                WriteStep::WriteOut { len } => {
                    let n = self.write_out()?;
                    self.core.write_written(n, len).map_err(failed)?
                }
                WriteStep::Done { len } => return Ok(len),
            };
        }
    }

    fn flush(&mut self) -> io::Result<()> {
        self.core.get_mut().flush()
    }
}

fn builder_for(domain: &str) -> TlsStreamBuilder {
    let mut builder = TlsStreamBuilder::new();
    builder.domain(domain);
    builder
}

fn get(session: &mut Session) -> Vec<u8> {
    session.write_all(b"GET / HTTP/1.0\r\n\r\n").unwrap();
    let mut out = vec![];
    session.read_to_end(&mut out).unwrap();
    out
}

// ---------------------------------------------------------------------------
// The scenarios.

#[test]
fn basic() {
    let creds = SchannelCredBuilder::new()
        .acquire(Direction::Outbound, SEC_E_OK, Handle { lower: 1, upper: 2 })
        .unwrap();
    assert_eq!(creds.direction(), Direction::Outbound);
    let mut stream = Session::connect(&builder_for("google.com"), Pipe::new()).unwrap();
    stream.write_all(b"GET / HTTP/1.0\r\n\r\n").unwrap();
    let mut out = vec![];
    stream.read_to_end(&mut out).unwrap();
    assert!(out.starts_with(b"HTTP/1.0 200 OK"));
    assert!(out.ends_with(b"</html>"));
}

#[test]
fn happy_get() {
    let request = SchannelCredBuilder::new().request(Direction::Outbound);
    assert!(request.algorithms.is_empty());
    let mut pipe = Pipe::new();
    pipe.certificate_name = "example.test";
    let mut stream = Session::connect(&builder_for("example.test"), pipe).unwrap();
    let expected: Vec<u16> = "example.test".encode_utf16().chain(Some(0)).collect();
    assert_eq!(stream.core.server_name(), Some(&expected[..]));
    stream.write_all(b"GET / HTTP/1.0\r\n\r\n").unwrap();
    let mut out = vec![];
    stream.read_to_end(&mut out).unwrap();
    assert!(out.starts_with(b"HTTP/1.0 200 OK"));
    assert!(out.ends_with(b"</html>"));
    assert_eq!(stream.pipe().received_plain, b"GET / HTTP/1.0\r\n\r\n");
}

#[test]
fn valid_algorithms() {
    let algorithms = vec![Algorithm::Aes128, Algorithm::Ecdsa];
    let builder = SchannelCredBuilder::new().with_supported_algorithms(algorithms);
    let request = builder.request(Direction::Outbound);
    assert_eq!(request.algorithms, vec![0x660e, 0x2203]);
    let creds = builder.acquire(Direction::Outbound, SEC_E_OK, Handle { lower: 7, upper: 9 });
    assert_eq!(creds.unwrap().handle(), Handle { lower: 7, upper: 9 });
    let mut stream = Session::connect(&builder_for("google.com"), Pipe::new()).unwrap();
    stream.write_all(b"GET / HTTP/1.0\r\n\r\n").unwrap();
    let mut out = vec![];
    stream.read_to_end(&mut out).unwrap();
    assert!(out.starts_with(b"HTTP/1.0 200 OK"));
    assert!(out.ends_with(b"</html>"));
}

#[test]
fn bad_domain() {
    let error = Session::connect(&builder_for("foobar.com"), Pipe::new()).err().unwrap();
    assert_eq!(error.to_string(), format!("provider error {:#x}", SEC_E_WRONG_PRINCIPAL));
}

#[test]
fn bad_domain_sends_no_application_byte() {
    let (provider, status, token) = Provider::first_step();
    let core = builder_for("foobar.com").initialize(Pipe::new(), status, &token).unwrap();
    let mut session = Session { core, provider };
    let step = session.core.initialize();
    assert!(session.handshake(step).is_err());
    assert_eq!(session.pipe().written, CLIENT_HELLO);
    assert_eq!(session.pipe().records_received, 0);
    assert_eq!(session.provider.encrypt_calls, 0);
}

#[test]
fn no_domain_binds_no_identity() {
    let mut pipe = Pipe::new();
    pipe.certificate_name = "elsewhere.test";
    let mut stream = Session::connect(&TlsStreamBuilder::new(), pipe).unwrap();
    assert_eq!(stream.core.server_name(), None);
    assert!(get(&mut stream).ends_with(b"</html>"));
}

#[test]
fn shutdown() {
    let mut stream = Session::connect(&builder_for("google.com"), Pipe::new()).unwrap();
    stream.shutdown().unwrap();
}

#[test]
fn shutdown_is_clean_and_idempotent() {
    let mut stream = Session::connect(&builder_for("google.com"), Pipe::new()).unwrap();
    stream.shutdown().unwrap();
    assert_eq!(stream.core.state(), State::Shutdown);
    assert_eq!(stream.pipe().server, Server::Closed);
    assert_eq!(stream.provider.tokens_applied, 1);
    let written = stream.pipe().written.clone();
    let flushes = stream.pipe().flushes;

    stream.shutdown().unwrap();
    assert_eq!(stream.core.state(), State::Shutdown);
    assert_eq!(stream.provider.tokens_applied, 1);
    assert_eq!(stream.pipe().written, written);
    assert_eq!(stream.pipe().flushes, flushes);
}

#[test]
fn write_after_shutdown_fails() {
    let mut stream = Session::connect(&builder_for("google.com"), Pipe::new()).unwrap();
    stream.shutdown().unwrap();
    let error = stream.write(b"late").err().unwrap();
    assert_eq!(error.to_string(), "context expired");
    assert_eq!(stream.core.write(b"late"), Err(StreamError::ContextExpired));
}

#[test]
fn read_after_shutdown_drains_then_ends() {
    let mut pipe = Pipe::new();
    pipe.early_data = Some(b"early".to_vec());
    let mut stream = Session::connect(&builder_for("google.com"), pipe).unwrap();
    stream.shutdown().unwrap();
    assert_eq!(stream.core.state(), State::Shutdown);
    let mut out = vec![];
    stream.read_to_end(&mut out).unwrap();
    assert_eq!(out, b"early");
    assert_eq!(stream.read(&mut [0u8; 8]).unwrap(), 0);
}

#[test]
fn fragmented_handshake() {
    let mut whole = Session::connect(&builder_for("google.com"), Pipe::new()).unwrap();
    let expected = get(&mut whole);

    let mut pipe = Pipe::new();
    pipe.read_limit = 1;
    let mut stream = Session::connect(&builder_for("google.com"), pipe).unwrap();
    assert!(matches!(stream.core.state(), State::Streaming { .. }));
    let out = get(&mut stream);
    assert_eq!(out, expected);
    assert!(out.starts_with(b"HTTP/1.0 200 OK"));
    assert!(out.ends_with(b"</html>"));
}

#[test]
fn fragmented_writes() {
    let mut pipe = Pipe::new();
    pipe.write_limit = 1;
    let mut stream = Session::connect(&builder_for("google.com"), pipe).unwrap();
    let out = get(&mut stream);
    assert!(out.starts_with(b"HTTP/1.0 200 OK"));
    assert_eq!(stream.pipe().received_plain, b"GET / HTTP/1.0\r\n\r\n");
}

#[test]
fn handshake_flushes_what_it_wrote() {
    let stream = Session::connect(&builder_for("google.com"), Pipe::new()).unwrap();
    // The hello, the key exchange and the finished message: three flights.
    assert_eq!(stream.pipe().flushes, 3);
    let mut expected = CLIENT_HELLO.to_vec();
    expected.extend_from_slice(CLIENT_KEY);
    expected.extend_from_slice(CLIENT_FINISHED);
    assert_eq!(stream.pipe().written, expected);
}

#[test]
fn eof_during_handshake_is_an_error() {
    let mut pipe = Pipe::new();
    pipe.server = Server::Closed;
    let error = Session::connect(&builder_for("google.com"), pipe).err().unwrap();
    assert_eq!(error.kind(), io::ErrorKind::UnexpectedEof);
}

#[test]
fn written_plaintext_reaches_the_peer() {
    let mut stream = Session::connect(&builder_for("google.com"), Pipe::new()).unwrap();
    let message: Vec<u8> = (0..100u8).collect();
    let mut reported = 0;
    let mut calls = 0;
    while reported < message.len() {
        let n = stream.write(&message[reported..]).unwrap();
        assert_eq!(n, MAX_MESSAGE.min(message.len() - reported));
        reported += n;
        calls += 1;
    }
    assert_eq!(calls, 7);
    assert_eq!(reported, message.len());
    assert_eq!(stream.pipe().received_plain, message);
    assert_eq!(stream.pipe().records_received, 7);
}

#[test]
fn plaintext_is_read_in_order() {
    let mut pipe = Pipe::new();
    pipe.response = (0..200u8).collect();
    let mut stream = Session::connect(&builder_for("google.com"), pipe).unwrap();
    stream.write_all(b"GET / HTTP/1.0\r\n\r\n").unwrap();

    let first = stream.fill_buf().unwrap().to_vec();
    assert_eq!(first, (0..16u8).collect::<Vec<u8>>());
    stream.consume(5);
    let rest = stream.fill_buf().unwrap().to_vec();
    assert_eq!(rest, (5..16u8).collect::<Vec<u8>>());
    stream.consume(rest.len());
    let next = stream.fill_buf().unwrap().to_vec();
    assert_eq!(next, (16..32u8).collect::<Vec<u8>>());

    let mut buf = [0u8; 3];
    let mut out = first[..5].to_vec();
    out.extend_from_slice(&rest);
    loop {
        let n = stream.read(&mut buf).unwrap();
        if n == 0 {
            break;
        }
        out.extend_from_slice(&buf[..n]);
    }
    assert_eq!(out, (0..200u8).collect::<Vec<u8>>());
}

#[test]
fn retried_write_sends_no_second_record() {
    let mut stream = Session::connect(&builder_for("google.com"), Pipe::new()).unwrap();
    let before = stream.pipe().written.len();
    stream.core.get_mut().write_limit = 10;
    // The second write of the record is refused.
    stream.core.get_mut().blocked_writes = vec![stream.pipe().writes + 1];

    let error = stream.write(b"GET / HTTP/1.0\r\n\r\n").err().unwrap();
    assert_eq!(error.kind(), io::ErrorKind::WouldBlock);
    assert_eq!(stream.provider.encrypt_calls, 1);
    assert_eq!(stream.pipe().written.len() - before, 10);

    let n = stream.write(b"GET / HTTP/1.0\r\n\r\n").unwrap();
    assert_eq!(n, MAX_MESSAGE);
    assert_eq!(stream.provider.encrypt_calls, 1);
    assert_eq!(stream.pipe().written.len() - before, HEADER + MAX_MESSAGE + TRAILER);
    assert_eq!(stream.pipe().written[before..], seal(APPLICATION_DATA, b"GET / HTTP/1.0\r\n")[..]);
    assert_eq!(stream.pipe().records_received, 1);
    assert_eq!(stream.pipe().received_plain, b"GET / HTTP/1.0\r\n");
}

#[test]
fn renegotiation_loses_nothing() {
    let mut pipe = Pipe::new();
    pipe.renegotiate = true;
    let mut stream = Session::connect(&builder_for("google.com"), pipe).unwrap();
    stream.write_all(b"GET / HTTP/1.0\r\n\r\n").unwrap();

    // The peer's flight holds the request to renegotiate, its handshake
    // message and the response: the decrypt call that meets the request
    // keeps the rest for the handshake.
    assert_eq!(stream.core.fill_buf(), FillStep::ReadIn);
    let bytes = stream.read_transport().unwrap();
    assert_eq!(stream.core.fill_buf_read(&bytes), FillStep::Decrypt);
    let (scratch, outcome) = stream.decrypt_held();
    assert_eq!(outcome.status, SEC_I_RENEGOTIATE);
    let plain = &scratch[outcome.data];
    let next = stream.core.fill_buf_decrypted(outcome.status, plain, outcome.extra);
    assert_eq!(next, Ok(FillStep::Decrypt));
    assert_eq!(
        stream.core.state(),
        State::Initializing { needs_flush: false, more_calls: true, shutting_down: false }
    );
    let mut held = SERVER_DONE.to_vec();
    for chunk in stream.pipe().response.clone().chunks(MAX_MESSAGE) {
        held.extend(seal(APPLICATION_DATA, chunk));
    }
    held.extend(seal(ALERT, b"bye"));
    assert_eq!(stream.core.enc_in(), &held[..]);
    assert!(!stream.core.needs_read());

    // The next write drives the new handshake; the first record of the
    // response arrived behind it and is decrypted with it.
    let n = stream.write(b"again").unwrap();
    assert_eq!(n, 5);
    let mut out = vec![];
    stream.read_to_end(&mut out).unwrap();
    assert_eq!(out, stream.pipe().response);
}

#[test]
fn early_application_data_is_kept() {
    let mut pipe = Pipe::new();
    pipe.early_data = Some(b"welcome".to_vec());
    let mut stream = Session::connect(&builder_for("google.com"), pipe).unwrap();
    assert!(matches!(stream.core.state(), State::Streaming { .. }));
    assert_eq!(stream.core.get_buf(), b"welcome");
    stream.write_all(b"GET / HTTP/1.0\r\n\r\n").unwrap();
    let mut out = vec![];
    stream.read_to_end(&mut out).unwrap();
    assert!(out.starts_with(b"welcomeHTTP/1.0 200 OK"));
    assert!(out.ends_with(b"</html>"));
}

#[test]
fn peer_close_is_end_of_stream() {
    let mut stream = Session::connect(&builder_for("google.com"), Pipe::new()).unwrap();
    let out = get(&mut stream);
    assert!(out.ends_with(b"</html>"));
    // The peer's alert turned the stream towards closing.
    assert_eq!(
        stream.core.state(),
        State::Initializing { needs_flush: false, more_calls: true, shutting_down: true }
    );
    assert_eq!(stream.read(&mut [0u8; 4]).unwrap(), 0);
}
