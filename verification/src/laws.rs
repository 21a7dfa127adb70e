//! What holds of every stream, proved from the model.
//!
//! The functions of [`crate::stream::TlsStream`] state how each of them
//! changes the model of the stream. The laws here speak of several of them
//! at once, or of every state that a stream can be in.

use crate::error::{StreamError, SEC_E_OK, SEC_I_RENEGOTIATE};
use crate::model::StreamView;
use crate::provider::StreamSizes;
use crate::state::{FillStep, HandshakeStep, ShutdownStep, State, WriteStep};
use vstd::prelude::*;

verus! {

/// The sum of a sequence of byte counts.
pub open spec fn total(counts: Seq<nat>) -> nat
    decreases counts.len(),
{
    if counts.len() == 0 {
        0
    } else {
        counts.first() + total(counts.drop_first())
    }
}

/// The bytes that leave the front of `buffer` when it is taken from in
/// portions of the given sizes, one portion after the other.
pub open spec fn taken(buffer: Seq<u8>, counts: Seq<nat>) -> Seq<u8>
    decreases counts.len(),
{
    if counts.len() == 0 {
        Seq::empty()
    } else {
        buffer.take(counts.first() as int) + taken(
            buffer.skip(counts.first() as int),
            counts.drop_first(),
        )
    }
}

/// The stream after the transport accepted pending output in portions of
/// the given sizes.
pub open spec fn after_writes<S>(s: StreamView<S>, counts: Seq<nat>) -> StreamView<S>
    decreases counts.len(),
{
    if counts.len() == 0 {
        s
    } else {
        after_writes(s.after_write_out(counts.first()), counts.drop_first())
    }
}

/// The stream after the caller took deliverable plaintext in portions of
/// the given sizes.
pub open spec fn after_consumes<S>(s: StreamView<S>, counts: Seq<nat>) -> StreamView<S>
    decreases counts.len(),
{
    if counts.len() == 0 {
        s
    } else {
        after_consumes(s.after_consume(counts.first()), counts.drop_first())
    }
}

/// The payloads of the records that carry a sequence of offered data, one
/// record for each: of each offer, as much as one record takes.
pub open spec fn framed_payloads(sizes: StreamSizes, offers: Seq<Seq<u8>>) -> Seq<u8>
    decreases offers.len(),
{
    if offers.len() == 0 {
        Seq::empty()
    } else {
        offers.first().take(sizes.chunk_len(offers.first().len()) as int)
            + framed_payloads(sizes, offers.drop_first())
    }
}

/// How many bytes the writes of a sequence of offered data report as taken,
/// in all.
pub open spec fn reported_total(sizes: StreamSizes, offers: Seq<Seq<u8>>) -> nat
    decreases offers.len(),
{
    if offers.len() == 0 {
        0
    } else {
        sizes.chunk_len(offers.first().len()) + reported_total(
            sizes,
            offers.drop_first(),
        )
    }
}

/// Taking from a buffer in portions takes its front, in order and without
/// gaps.
pub proof fn lemma_taken_is_prefix(buffer: Seq<u8>, counts: Seq<nat>)
    requires
        total(counts) <= buffer.len(),
    ensures
        taken(buffer, counts) == buffer.take(total(counts) as int),
    decreases counts.len(),
{
    if counts.len() == 0 {
        assert(buffer.take(0) =~= Seq::<u8>::empty());
    } else {
        let first = counts.first();
        lemma_taken_is_prefix(buffer.skip(first as int), counts.drop_first());
        assert(buffer.take(first as int) + buffer.skip(first as int).take(
            total(counts.drop_first()) as int,
        ) =~= buffer.take(total(counts) as int));
    }
}

/// A write reports exactly the bytes that it hands to the provider.
///
/// In an open session without pending output, a write of `data` asks for the
/// encryption of one record and will report `len` bytes, where `len` is the
/// length of `data` or the largest payload of the session, whichever is
/// less. The region laid out for that record holds the first `len` bytes of
/// `data` as its payload, between the room for the header and the room for
/// the trailer, and nothing else of `data`.
pub proof fn lemma_write_reports_framed_payload<S>(
    s: StreamView<S>,
    sizes: StreamSizes,
    data: Seq<u8>,
)
    requires
        s.state == (State::Streaming { sizes }),
        s.bufs.out_buf.len() == 0,
        data.len() <= usize::MAX,
    ensures
        ({
            let len = sizes.chunk_len(data.len());
            let frame = sizes.laid_out(data.take(len as int));
            &&& len <= data.len()
            &&& len <= sizes.max_message
            &&& (len == data.len() || len == sizes.max_message)
            &&& s.next_write(data.len()) == Ok::<WriteStep, StreamError>(
                WriteStep::Encrypt { len: len as usize, sizes },
            )
            &&& frame.len() == sizes.frame_len(len)
            &&& frame.subrange(sizes.header as int, sizes.header + len) == data.take(len as int)
        }),
{
    let len = sizes.chunk_len(data.len());
    let frame = sizes.laid_out(data.take(len as int));
    assert(frame.subrange(sizes.header as int, sizes.header + len) =~= data.take(len as int));
}

/// A write that is tried again with the same data reports the bytes that
/// its first attempt handed to the provider.
///
/// Where a write of `data` had its record encrypted and the transport then
/// took only a part of the record, a second write of `data` lays out
/// nothing: it writes the rest of that record and reports, once the record
/// is gone, the same number of bytes that the first attempt asked to be
/// encrypted, the length of the payload of that record.
pub proof fn lemma_retried_write_reports_the_same<S>(
    s: StreamView<S>,
    sizes: StreamSizes,
    data: Seq<u8>,
    frame: Seq<u8>,
    record_len: nat,
    nwritten: nat,
)
    requires
        s.state == (State::Streaming { sizes }),
        s.bufs.out_buf.len() == 0,
        data.len() <= usize::MAX,
        nwritten < s.after_encrypt(frame, record_len).bufs.out_buf.len(),
    ensures
        ({
            let len = sizes.chunk_len(data.len()) as usize;
            let pending = s.after_encrypt(frame, record_len);
            let again = pending.after_write_out(nwritten);
            let rest = (pending.bufs.out_buf.len() - nwritten) as nat;
            &&& s.next_write(data.len()) == Ok::<WriteStep, StreamError>(
                WriteStep::Encrypt { len, sizes },
            )
            &&& again.next_write(data.len()) == Ok::<WriteStep, StreamError>(
                WriteStep::WriteOut { len },
            )
            &&& again.settled() == again
            &&& again.bufs.out_buf == pending.bufs.out_buf.skip(nwritten as int)
            &&& again.after_write_out(rest).next_write_out(len) == WriteStep::Done { len }
        }),
{
}

/// Over any sequence of writes, the bytes reported as taken are the bytes
/// handed to the provider.
///
/// Where each write of a sequence begins without pending output, the
/// payloads that the writes lay out for encryption hold, in all, as many
/// bytes as the writes report as taken.
pub proof fn lemma_reported_bytes_are_framed(sizes: StreamSizes, offers: Seq<Seq<u8>>)
    ensures
        framed_payloads(sizes, offers).len() == reported_total(sizes, offers),
    decreases offers.len(),
{
    if offers.len() > 0 {
        lemma_reported_bytes_are_framed(sizes, offers.drop_first());
    }
}

/// Pending output is never encrypted again.
///
/// Where output is pending in an open session, a write asks for no
/// encryption, whatever data it is given: it writes the pending output as
/// it stands. From there on it only writes, until nothing is pending, and
/// then reports the bytes of the caller as taken.
pub proof fn lemma_pending_output_is_not_encrypted_again<S>(
    s: StreamView<S>,
    sizes: StreamSizes,
    offered: nat,
    nwritten: nat,
)
    requires
        s.state == (State::Streaming { sizes }),
        s.bufs.out_buf.len() > 0,
        0 < nwritten <= s.bufs.out_buf.len(),
    ensures
        ({
            let len = sizes.chunk_len(offered) as usize;
            let t = s.after_write_out(nwritten);
            &&& s.next_write(offered) == Ok::<WriteStep, StreamError>(WriteStep::WriteOut { len })
            &&& s.settled() == s
            &&& t.state == s.state
            &&& t.bufs.out_buf == s.bufs.out_buf.skip(nwritten as int)
            &&& t.next_write_out(len) == if nwritten < s.bufs.out_buf.len() {
                WriteStep::WriteOut { len }
            } else {
                WriteStep::Done { len }
            }
        }),
{
}

/// A write waits for the handshake.
///
/// While a handshake is running, be it the first, a renegotiation or the one
/// that closes the session, a write asks for no encryption and writes no
/// record: it drives the handshake on, or fails where the handshake ends the
/// session.
pub proof fn lemma_write_waits_for_handshake<S>(s: StreamView<S>, offered: nat)
    requires
        s.state is Initializing,
    ensures
        s.next_write(offered) == match s.next_handshake() {
            HandshakeStep::Shutdown => Err::<WriteStep, StreamError>(StreamError::ContextExpired),
            step => Ok::<WriteStep, StreamError>(WriteStep::Handshake(step)),
        },
        !(s.next_handshake() is Streaming),
{
}

/// Output reaches the transport in order and without gaps.
///
/// However the transport splits its writes, the bytes that it was given
/// are, together, the front of the output that was pending at the start,
/// as long as the portions add up; what is pending afterwards is the rest.
pub proof fn lemma_output_written_in_order<S>(s: StreamView<S>, counts: Seq<nat>)
    requires
        total(counts) <= s.bufs.out_buf.len(),
    ensures
        taken(s.bufs.out_buf, counts) == s.bufs.out_buf.take(total(counts) as int),
        after_writes(s, counts).bufs.out_buf == s.bufs.out_buf.skip(total(counts) as int),
        after_writes(s, counts).bufs.enc_in == s.bufs.enc_in,
        after_writes(s, counts).bufs.dec_in == s.bufs.dec_in,
    decreases counts.len(),
{
    lemma_taken_is_prefix(s.bufs.out_buf, counts);
    if counts.len() == 0 {
        assert(s.bufs.out_buf.skip(0) =~= s.bufs.out_buf);
    } else {
        let first = counts.first();
        let t = s.after_write_out(first);
        assert(t.bufs.out_buf == s.bufs.out_buf.skip(first as int));
        lemma_output_written_in_order(t, counts.drop_first());
        assert(t.bufs.out_buf.skip(total(counts.drop_first()) as int) =~= s.bufs.out_buf.skip(
            total(counts) as int,
        ));
    }
}

/// Transport bytes reach the provider in the order in which they were read,
/// and each of them once.
///
/// What a read delivers is held behind what was held before. When the
/// provider then leaves `extra` bytes unconsumed, they are the last `extra`
/// of all held bytes, in their order: what it consumed is the front and
/// leaves, and nothing else does.
pub proof fn lemma_transport_input_in_order<S>(s: StreamView<S>, bytes: Seq<u8>, extra: nat)
    requires
        extra <= s.bufs.enc_in.len() + bytes.len(),
    ensures
        ({
            let held = s.bufs.enc_in + bytes;
            let t = s.after_read_in(bytes).keep_extra(extra);
            &&& s.after_read_in(bytes).bufs.enc_in == held
            &&& held.take(held.len() - extra) + t.bufs.enc_in == held
            &&& t.bufs.enc_in.len() == extra
            &&& t.needs_read == (extra == 0)
        }),
{
    let held = s.bufs.enc_in + bytes;
    let t = s.after_read_in(bytes).keep_extra(extra);
    assert(held.take(held.len() - extra) + t.bufs.enc_in =~= held);
}

/// Plaintext is delivered in the order in which it was decrypted.
///
/// Where plaintext is deliverable and the caller takes its first `amt`
/// bytes, what was taken followed by what is left is what was deliverable.
/// While something is left, filling the buffer asks for no outside
/// operation, so that the rest is delivered next as it stands. Only when
/// nothing is left does the next record come in, and then its plaintext is
/// the whole deliverable plaintext.
pub proof fn lemma_consume_keeps_order<S>(
    s: StreamView<S>,
    amt: nat,
    plaintext: Seq<u8>,
    extra: nat,
)
    requires
        s.bufs.dec_in.len() > 0,
        amt <= s.bufs.dec_in.len(),
    ensures
        s.next_fill() == FillStep::Ready,
        s.bufs.dec_in.take(amt as int) + s.after_consume(amt).bufs.dec_in == s.bufs.dec_in,
        amt < s.bufs.dec_in.len() ==> s.after_consume(amt).next_fill() == FillStep::Ready,
        amt == s.bufs.dec_in.len() && s.state != State::Shutdown ==> s.after_consume(
            amt,
        ).next_fill() != FillStep::Ready,
        s.after_consume(amt).after_decrypt(SEC_E_OK, plaintext, extra).bufs.dec_in == plaintext,
{
    assert(s.bufs.dec_in.take(amt as int) + s.after_consume(amt).bufs.dec_in =~= s.bufs.dec_in);
}

/// However the caller splits its reads, it gets the deliverable plaintext
/// in order and without gaps.
///
/// The bytes taken in portions are, together, the front of the plaintext
/// that was deliverable at the start, as long as the portions add up; what
/// is deliverable afterwards is the rest, and as long as it is not empty no
/// outside operation is asked for that could replace it.
pub proof fn lemma_plaintext_delivered_in_order<S>(s: StreamView<S>, counts: Seq<nat>)
    requires
        total(counts) <= s.bufs.dec_in.len(),
    ensures
        taken(s.bufs.dec_in, counts) == s.bufs.dec_in.take(total(counts) as int),
        after_consumes(s, counts).bufs.dec_in == s.bufs.dec_in.skip(total(counts) as int),
        after_consumes(s, counts).bufs.enc_in == s.bufs.enc_in,
        after_consumes(s, counts).bufs.out_buf == s.bufs.out_buf,
        after_consumes(s, counts).state == s.state,
        total(counts) < s.bufs.dec_in.len() ==> after_consumes(s, counts).next_fill()
            == FillStep::Ready,
    decreases counts.len(),
{
    lemma_taken_is_prefix(s.bufs.dec_in, counts);
    if counts.len() == 0 {
        assert(s.bufs.dec_in.skip(0) =~= s.bufs.dec_in);
    } else {
        let first = counts.first();
        let t = s.after_consume(first);
        lemma_plaintext_delivered_in_order(t, counts.drop_first());
        assert(t.bufs.dec_in.skip(total(counts.drop_first()) as int) =~= s.bufs.dec_in.skip(
            total(counts) as int,
        ));
    }
}

/// Deliverable plaintext stays until the caller takes it or a record
/// replaces it.
///
/// No outcome of an outside operation changes the deliverable plaintext,
/// but a successful decrypt call; so plaintext that arrived behind a
/// handshake, or before a renegotiation, is still there when the handshake
/// is over.
pub proof fn lemma_plaintext_is_kept<S>(
    s: StreamView<S>,
    status: i32,
    count: nat,
    bytes: Seq<u8>,
    token: Option<Seq<u8>>,
    sizes: StreamSizes,
)
    ensures
        s.settled().bufs.dec_in == s.bufs.dec_in,
        s.after_write_out(count).bufs.dec_in == s.bufs.dec_in,
        s.with_needs_flush(false).bufs.dec_in == s.bufs.dec_in,
        s.after_sizes(sizes).bufs.dec_in == s.bufs.dec_in,
        s.after_read_in(bytes).bufs.dec_in == s.bufs.dec_in,
        s.after_step(status, count, token).bufs.dec_in == s.bufs.dec_in,
        s.handshake_complete().bufs.dec_in == s.bufs.dec_in,
        s.after_encrypt(bytes, count).bufs.dec_in == s.bufs.dec_in,
        s.after_shutdown_token().bufs.dec_in == s.bufs.dec_in,
        s.after_shutdown().bufs.dec_in == s.bufs.dec_in,
        status != SEC_E_OK ==> s.after_decrypt(status, bytes, count).bufs.dec_in == s.bufs.dec_in,
        s.after_decrypt(SEC_E_OK, bytes, count).bufs.dec_in == bytes,
{
}

/// A renegotiation loses no byte.
///
/// Where the provider answers a decrypt call on a session that is not
/// closed with a request to renegotiate and leaves `extra` bytes unconsumed,
/// those bytes, the last `extra` of the held ones, stay held in their order;
/// undelivered plaintext and pending output stay as they are; and a
/// handshake on the same session begins. If bytes were left and no output is
/// pending, its first provider step runs on them without a read; if none
/// were left, it reads first.
pub proof fn lemma_renegotiate_keeps_extra<S>(s: StreamView<S>, plaintext: Seq<u8>, extra: nat)
    requires
        s.state != State::Shutdown,
        extra <= s.bufs.enc_in.len(),
    ensures
        ({
            let t = s.after_decrypt(SEC_I_RENEGOTIATE, plaintext, extra);
            &&& t.bufs.enc_in == s.bufs.enc_in.subrange(
                s.bufs.enc_in.len() - extra,
                s.bufs.enc_in.len() as int,
            )
            &&& t.bufs.enc_in.len() == extra
            &&& t.bufs.dec_in == s.bufs.dec_in
            &&& t.bufs.out_buf == s.bufs.out_buf
            &&& t.state == (State::Initializing {
                needs_flush: false,
                more_calls: true,
                shutting_down: false,
            })
            &&& t.needs_read == (extra == 0)
            &&& (s.bufs.out_buf.len() == 0 ==> t.next_handshake() == if extra > 0 {
                HandshakeStep::Step
            } else {
                HandshakeStep::ReadIn
            })
        }),
{
    let t = s.after_decrypt(SEC_I_RENEGOTIATE, plaintext, extra);
    assert(t.bufs.enc_in =~= s.bufs.enc_in.subrange(
        s.bufs.enc_in.len() - extra,
        s.bufs.enc_in.len() as int,
    ));
}

/// A shutdown is idempotent.
///
/// A second shutdown on a stream that the first one closed does nothing and
/// succeeds. On a stream that is still closing, it applies no second
/// control token: it goes on with the handshake that the first one began,
/// at the step that the handshake driver would take anyway.
pub proof fn lemma_shutdown_idempotent<S>(s: StreamView<S>)
    ensures
        s.state == State::Shutdown ==> s.next_shutdown() == ShutdownStep::Done
            && s.after_shutdown() == s,
        s.state != State::Shutdown ==> s.after_shutdown_token().next_shutdown()
            == ShutdownStep::Handshake(s.after_shutdown_token().next_handshake())
            && s.after_shutdown_token().after_shutdown() == s.after_shutdown_token().settled(),
        s.after_shutdown().next_shutdown() == s.next_shutdown() || s.after_shutdown().state
            == State::Shutdown,
{
}

/// A closed session asks for nothing.
///
/// On a closed stream the handshake driver reports the closed session, a
/// read finds the buffer ready, a write fails, and a shutdown is done: none
/// of them asks for an outside operation, and none changes the stream.
pub proof fn lemma_shutdown_asks_for_nothing<S>(s: StreamView<S>, offered: nat)
    requires
        s.state == State::Shutdown,
    ensures
        s.next_handshake() == HandshakeStep::Shutdown,
        s.settled() == s,
        s.next_fill() == FillStep::Ready,
        s.next_write(offered) == Err::<WriteStep, StreamError>(StreamError::ContextExpired),
        s.next_shutdown() == ShutdownStep::Done,
        s.after_shutdown() == s,
{
}

/// A closed session is never left.
///
/// Whatever outcome of an outside operation a closed stream is told of, it
/// stays closed.
pub proof fn lemma_shutdown_is_terminal<S>(
    s: StreamView<S>,
    status: i32,
    count: nat,
    bytes: Seq<u8>,
    token: Option<Seq<u8>>,
    sizes: StreamSizes,
)
    requires
        s.state == State::Shutdown,
    ensures
        s.settled().state == State::Shutdown,
        s.after_write_out(count).state == State::Shutdown,
        s.with_needs_flush(false).state == State::Shutdown,
        s.after_sizes(sizes).state == State::Shutdown,
        s.after_read_in(bytes).state == State::Shutdown,
        s.after_step(status, count, token).state == State::Shutdown,
        s.after_decrypt(status, bytes, count).state == State::Shutdown,
        s.after_decrypt(status, bytes, count).handshake_complete().state == State::Shutdown,
        s.after_encrypt(bytes, count).state == State::Shutdown,
        s.after_consume(count).state == State::Shutdown,
        s.after_shutdown_token().state == State::Shutdown,
        s.after_shutdown().state == State::Shutdown,
{
}

} // verus!
