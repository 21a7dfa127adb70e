//! Plain values that the provider hands back and that the stream logic reads.

use vstd::prelude::*;

verus! {

/// The tag that the provider puts on a buffer whose bytes it did not consume.
pub const SECBUFFER_EXTRA: u32 = 5;

/// One buffer slot of a provider call as the stream logic reads it after the
/// call: the tag that the provider left on it and the length it reports.
#[derive(Clone, Copy, Debug, PartialEq, Eq, Structural)]
pub struct ProviderBuffer {
    /// The tag of the slot.
    pub kind: u32,
    /// The number of bytes that the slot describes.
    pub len: usize,
}

impl ProviderBuffer {
    /// How many trailing input bytes the provider left unconsumed: the length
    /// of the slot where it is tagged as extra, and none otherwise.
    pub open spec fn extra_len(self) -> nat {
        if self.kind == SECBUFFER_EXTRA {
            self.len as nat
        } else {
            0
        }
    }

    /// A slot that the provider left empty.
    pub fn empty() -> (slot: ProviderBuffer)
        ensures
            slot == (ProviderBuffer { kind: 0, len: 0 }),
            slot.extra_len() == 0,
    {
        ProviderBuffer { kind: 0, len: 0 }
    }

    /// A slot tagged as extra that describes `len` unconsumed bytes.
    pub fn extra(len: usize) -> (slot: ProviderBuffer)
        ensures
            slot == (ProviderBuffer { kind: SECBUFFER_EXTRA, len }),
            slot.extra_len() == len,
    {
        ProviderBuffer { kind: SECBUFFER_EXTRA, len }
    }

    /// Computes [`ProviderBuffer::extra_len`].
    pub fn unconsumed(&self) -> (n: usize)
        ensures
            n == self.extra_len(),
    {
        if self.kind == SECBUFFER_EXTRA {
            self.len
        } else {
            0
        }
    }
}

/// The record framing parameters of an established session: the provider
/// reports them once the handshake is complete and they stay fixed.
#[derive(Clone, Copy, Debug, PartialEq, Eq, Structural)]
pub struct StreamSizes {
    /// Length of the header that precedes the payload of a record.
    pub header: u32,
    /// Largest length of the trailer that follows the payload of a record.
    pub trailer: u32,
    /// Largest payload of one record.
    pub max_message: u32,
}

impl StreamSizes {
    /// A record of the largest payload can be laid out in one buffer.
    pub open spec fn fits(self) -> bool {
        self.header + self.max_message + self.trailer <= usize::MAX
    }

    /// The length of the region laid out for a payload of `payload` bytes.
    pub open spec fn frame_len(self, payload: nat) -> nat {
        self.header as nat + payload + self.trailer as nat
    }

    /// How many of `offered` bytes one record carries: all of them, up to
    /// the largest payload.
    pub open spec fn chunk_len(self, offered: nat) -> nat {
        if offered <= self.max_message {
            offered
        } else {
            self.max_message as nat
        }
    }

    /// The region laid out for the provider to encrypt `payload` in place:
    /// room for the header, the payload, room for the trailer.
    pub open spec fn laid_out(self, payload: Seq<u8>) -> Seq<u8> {
        Seq::new(self.header as nat, |i: int| 0u8) + payload + Seq::new(
            self.trailer as nat,
            |i: int| 0u8,
        )
    }

    /// Lays out the region that the provider encrypts in place for
    /// `payload`: room for the record header, the payload, room for the
    /// record trailer.
    pub fn lay_out(&self, payload: &[u8]) -> (frame: Vec<u8>)
        requires
            self.fits(),
            payload@.len() <= self.max_message,
        ensures
            frame@ == self.laid_out(payload@),
            frame@.len() == self.frame_len(payload@.len()),
    {
        let header = self.header as usize;
        let trailer = self.trailer as usize;
        let mut frame: Vec<u8> = Vec::new();
        frame.resize(header, 0);
        let ghost blank = frame@;
        frame.extend_from_slice(payload);
        let ghost filled = frame@;
        assert(filled =~= blank + payload@);
        frame.resize(header + payload.len() + trailer, 0);
        assert(frame@.subrange(0, filled.len() as int) == filled);
        assert forall|i: int| 0 <= i < frame@.len() implies frame@[i] == self.laid_out(
            payload@,
        )[i] by {
            if i < filled.len() {
                assert(frame@[i] == frame@.subrange(0, filled.len() as int)[i]);
            }
        }
        assert(frame@ =~= self.laid_out(payload@));
        frame
    }

    /// The framing parameters, if a record of the largest payload can be
    /// laid out in one buffer.
    pub fn new(header: u32, trailer: u32, max_message: u32) -> (sizes: Option<StreamSizes>)
        ensures
            match sizes {
                Some(s) => s == (StreamSizes { header, trailer, max_message }) && s.fits(),
                None => !(StreamSizes { header, trailer, max_message }).fits(),
            },
    {
        let total: u64 = header as u64 + max_message as u64 + trailer as u64;
        if total <= usize::MAX as u64 {
            Some(StreamSizes { header, trailer, max_message })
        } else {
            None
        }
    }
}

} // verus!
