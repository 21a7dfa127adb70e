//! The three cursored byte buffers of a stream.
//!
//! * `enc_in` holds bytes read from the transport that the provider has not
//!   consumed yet. They occupy the front of a storage area that is grown
//!   between reads and never during a provider call.
//! * `dec_in` holds plaintext of the record decrypted last that the caller
//!   has not taken yet.
//! * `out_buf` holds bytes that still have to be written to the transport:
//!   handshake tokens or one encrypted record.

use vstd::prelude::*;
use vstd::slice::slice_subrange;

verus! {

/// The smallest storage that `enc_in` is given before a transport read.
pub const MIN_READ_STORAGE: usize = 1024;

/// What a [`BufferSet`] holds, as mathematical sequences.
pub struct BufferSetView {
    /// Transport bytes held for the provider, oldest first.
    pub enc_in: Seq<u8>,
    /// Length of the storage area whose front `enc_in` occupies.
    pub enc_room: nat,
    /// Plaintext not yet delivered to the caller, oldest first.
    pub dec_in: Seq<u8>,
    /// Bytes not yet written to the transport, oldest first.
    pub out_buf: Seq<u8>,
}

/// The storage length that `enc_in` has once it was grown for a read: at
/// least [`MIN_READ_STORAGE`] and at least twice the bytes held (as far as a
/// length can express that), and never less than before.
pub open spec fn grown_room(room: nat, held: nat) -> nat {
    let doubled = if 2 * held <= usize::MAX {
        2 * held
    } else {
        usize::MAX as nat
    };
    let wanted = if doubled < MIN_READ_STORAGE {
        MIN_READ_STORAGE as nat
    } else {
        doubled
    };
    if room < wanted {
        wanted
    } else {
        room
    }
}

/// The encrypted-in, decrypted-in and encrypted-out buffers of one stream.
#[derive(Debug)]
pub struct BufferSet {
    enc_in: Vec<u8>,
    enc_pos: usize,
    dec_in: Vec<u8>,
    dec_pos: usize,
    out_buf: Vec<u8>,
    out_pos: usize,
}

impl View for BufferSet {
    type V = BufferSetView;

    closed spec fn view(&self) -> BufferSetView {
        BufferSetView {
            enc_in: self.enc_in@.subrange(0, self.enc_pos as int),
            enc_room: self.enc_in@.len(),
            dec_in: self.dec_in@.subrange(self.dec_pos as int, self.dec_in@.len() as int),
            out_buf: self.out_buf@.subrange(self.out_pos as int, self.out_buf@.len() as int),
        }
    }
}

impl BufferSet {
    /// Every cursor lies inside its buffer.
    pub closed spec fn wf(&self) -> bool {
        &&& self.enc_pos <= self.enc_in@.len()
        &&& self.dec_pos <= self.dec_in@.len()
        &&& self.out_pos <= self.out_buf@.len()
    }

    /// In well-formed buffers the held transport bytes fit their storage, and
    /// every length is one that a buffer can have.
    pub proof fn lemma_view_bounds(&self)
        requires
            self.wf(),
        ensures
            self@.enc_in.len() <= self@.enc_room <= usize::MAX,
            self@.dec_in.len() <= usize::MAX,
            self@.out_buf.len() <= usize::MAX,
    {
        assert(self.enc_in.len() <= usize::MAX);
        assert(self.dec_in.len() <= usize::MAX);
        assert(self.out_buf.len() <= usize::MAX);
    }

    /// Buffers that hold nothing but `token` as pending output.
    pub fn new(token: &[u8]) -> (bufs: BufferSet)
        ensures
            bufs.wf(),
            bufs@.enc_in == Seq::<u8>::empty(),
            bufs@.enc_room == 0,
            bufs@.dec_in == Seq::<u8>::empty(),
            bufs@.out_buf == token@,
    {
        let mut out_buf: Vec<u8> = Vec::new();
        out_buf.extend_from_slice(token);
        let bufs = BufferSet {
            enc_in: Vec::new(),
            enc_pos: 0,
            dec_in: Vec::new(),
            dec_pos: 0,
            out_buf,
            out_pos: 0,
        };
        assert(bufs@.out_buf =~= token@);
        assert(bufs@.enc_in =~= Seq::<u8>::empty());
        assert(bufs@.dec_in =~= Seq::<u8>::empty());
        bufs
    }

    /// The transport bytes held for the provider.
    pub fn enc_in(&self) -> (bytes: &[u8])
        requires
            self.wf(),
        ensures
            bytes@ == self@.enc_in,
    {
        slice_subrange(self.enc_in.as_slice(), 0, self.enc_pos)
    }

    /// How many transport bytes are held for the provider.
    pub fn enc_in_len(&self) -> (n: usize)
        requires
            self.wf(),
        ensures
            n == self@.enc_in.len(),
    {
        self.enc_pos
    }

    /// The plaintext not yet delivered to the caller.
    pub fn dec_in(&self) -> (bytes: &[u8])
        requires
            self.wf(),
        ensures
            bytes@ == self@.dec_in,
    {
        slice_subrange(self.dec_in.as_slice(), self.dec_pos, self.dec_in.len())
    }

    /// The bytes not yet written to the transport.
    pub fn out_buf(&self) -> (bytes: &[u8])
        requires
            self.wf(),
        ensures
            bytes@ == self@.out_buf,
    {
        slice_subrange(self.out_buf.as_slice(), self.out_pos, self.out_buf.len())
    }

    /// How many bytes the next transport read may deliver: the room behind
    /// the held bytes once the storage has been grown for the read.
    pub fn read_capacity(&self) -> (n: usize)
        requires
            self.wf(),
        ensures
            n == grown_room(self@.enc_room, self@.enc_in.len()) - self@.enc_in.len(),
    {
        let wanted = Self::wanted_room(self.enc_pos);
        if self.enc_in.len() < wanted {
            wanted - self.enc_pos
        } else {
            self.enc_in.len() - self.enc_pos
        }
    }

    /// The storage that a read with `held` bytes in `enc_in` asks for.
    fn wanted_room(held: usize) -> (wanted: usize)
        ensures
            wanted == grown_room(0, held as nat),
            wanted >= held,
    {
        let doubled = held.saturating_add(held);
        if doubled < MIN_READ_STORAGE {
            MIN_READ_STORAGE
        } else {
            doubled
        }
    }

    /// Appends what a transport read delivered to `enc_in`, after growing the
    /// storage for that read. Returns the number of bytes appended.
    pub fn read_in(&mut self, bytes: &[u8]) -> (nread: usize)
        requires
            old(self).wf(),
            bytes@.len() + old(self)@.enc_in.len() <= grown_room(
                old(self)@.enc_room,
                old(self)@.enc_in.len(),
            ),
        ensures
            final(self).wf(),
            nread == bytes@.len(),
            final(self)@.enc_in == old(self)@.enc_in + bytes@,
            final(self)@.enc_room == grown_room(old(self)@.enc_room, old(self)@.enc_in.len()),
            final(self)@.dec_in == old(self)@.dec_in,
            final(self)@.out_buf == old(self)@.out_buf,
    {
        let existing_len = self.enc_pos;
        let min_len = Self::wanted_room(existing_len);
        if self.enc_in.len() < min_len {
            self.enc_in.resize(min_len, 0);
        }
        let ghost grown = self.enc_in@;
        assert(grown.subrange(0, existing_len as int) =~= old(self)@.enc_in);
        let nread = bytes.len();
        let mut i: usize = 0;
        while i < nread
            invariant
                i <= nread,
                nread == bytes@.len(),
                existing_len + nread <= self.enc_in.len(),
                self.enc_in@.len() == grown.len(),
                self.enc_pos == existing_len,
                self.dec_in == old(self).dec_in,
                self.dec_pos == old(self).dec_pos,
                self.out_buf == old(self).out_buf,
                self.out_pos == old(self).out_pos,
                self.enc_in@.subrange(0, existing_len as int) == old(self)@.enc_in,
                self.enc_in@.subrange(existing_len as int, existing_len + i) == bytes@.subrange(
                    0,
                    i as int,
                ),
            decreases nread - i,
        {
            let ghost before = self.enc_in@;
            self.enc_in[existing_len + i] = bytes[i];
            assert(self.enc_in@.subrange(0, existing_len as int) =~= before.subrange(
                0,
                existing_len as int,
            ));
            assert(self.enc_in@.subrange(existing_len as int, existing_len + i + 1)
                =~= bytes@.subrange(0, i + 1));
            i = i + 1;
        }
        self.enc_pos = existing_len + nread;
        assert(bytes@.subrange(0, nread as int) =~= bytes@);
        assert(self@.enc_in =~= self.enc_in@.subrange(0, existing_len as int)
            + self.enc_in@.subrange(existing_len as int, existing_len + nread));
        nread
    }

    /// Drops the first `nread` held transport bytes and moves the rest to the
    /// front of the storage.
    pub fn consume_enc_in(&mut self, nread: usize)
        requires
            old(self).wf(),
            nread <= old(self)@.enc_in.len(),
        ensures
            final(self).wf(),
            final(self)@.enc_in == old(self)@.enc_in.skip(nread as int),
            final(self)@.enc_room == old(self)@.enc_room,
            final(self)@.dec_in == old(self)@.dec_in,
            final(self)@.out_buf == old(self)@.out_buf,
    {
        let size = self.enc_pos;
        let count = size - nread;
        let mut i: usize = 0;
        while i < count
            invariant
                i <= count,
                count == size - nread,
                size == old(self).enc_pos,
                size <= self.enc_in@.len(),
                self.enc_in@.len() == old(self).enc_in@.len(),
                self.enc_pos == size,
                self.dec_in == old(self).dec_in,
                self.dec_pos == old(self).dec_pos,
                self.out_buf == old(self).out_buf,
                self.out_pos == old(self).out_pos,
                forall|k: int| 0 <= k < i ==> self.enc_in@[k] == old(self).enc_in@[k + nread],
                forall|k: int| i <= k < size ==> self.enc_in@[k] == old(self).enc_in@[k],
            decreases count - i,
        {
            let byte = self.enc_in[i + nread];
            self.enc_in[i] = byte;
            i = i + 1;
        }
        self.enc_pos = count;
        assert(self@.enc_in =~= old(self)@.enc_in.skip(nread as int));
    }

    /// Replaces the undelivered plaintext by a freshly decrypted record.
    pub fn load_dec_in(&mut self, plaintext: &[u8])
        requires
            old(self).wf(),
        ensures
            final(self).wf(),
            final(self)@.dec_in == plaintext@,
            final(self)@.enc_in == old(self)@.enc_in,
            final(self)@.enc_room == old(self)@.enc_room,
            final(self)@.out_buf == old(self)@.out_buf,
    {
        self.dec_pos = 0;
        self.dec_in.clear();
        self.dec_in.extend_from_slice(plaintext);
        assert(self@.dec_in =~= plaintext@);
    }

    /// Marks the first `amt` bytes of the undelivered plaintext as delivered.
    pub fn consume(&mut self, amt: usize)
        requires
            old(self).wf(),
            amt <= old(self)@.dec_in.len(),
        ensures
            final(self).wf(),
            final(self)@.dec_in == old(self)@.dec_in.skip(amt as int),
            final(self)@.enc_in == old(self)@.enc_in,
            final(self)@.enc_room == old(self)@.enc_room,
            final(self)@.out_buf == old(self)@.out_buf,
    {
        assert(self.dec_pos + amt <= self.dec_in.len());
        self.dec_pos = self.dec_pos + amt;
        assert(self@.dec_in =~= old(self)@.dec_in.skip(amt as int));
    }

    /// Queues `token` behind the bytes that still wait for the transport.
    pub fn push_out(&mut self, token: &[u8])
        requires
            old(self).wf(),
        ensures
            final(self).wf(),
            final(self)@.out_buf == old(self)@.out_buf + token@,
            final(self)@.enc_in == old(self)@.enc_in,
            final(self)@.enc_room == old(self)@.enc_room,
            final(self)@.dec_in == old(self)@.dec_in,
    {
        self.out_buf.extend_from_slice(token);
        assert(self@.out_buf =~= old(self)@.out_buf + token@);
    }

    /// Makes `frame` the whole pending output.
    pub fn replace_out(&mut self, frame: Vec<u8>)
        requires
            old(self).wf(),
        ensures
            final(self).wf(),
            final(self)@.out_buf == frame@,
            final(self)@.enc_in == old(self)@.enc_in,
            final(self)@.enc_room == old(self)@.enc_room,
            final(self)@.dec_in == old(self)@.dec_in,
    {
        self.out_pos = 0;
        self.out_buf = frame;
        assert(self@.out_buf =~= frame@);
    }

    /// Records that the transport accepted the first `nwritten` pending
    /// output bytes.
    pub fn advance_out(&mut self, nwritten: usize)
        requires
            old(self).wf(),
            nwritten <= old(self)@.out_buf.len(),
        ensures
            final(self).wf(),
            final(self)@.out_buf == old(self)@.out_buf.skip(nwritten as int),
            final(self)@.enc_in == old(self)@.enc_in,
            final(self)@.enc_room == old(self)@.enc_room,
            final(self)@.dec_in == old(self)@.dec_in,
    {
        assert(self.out_pos + nwritten <= self.out_buf.len());
        self.out_pos = self.out_pos + nwritten;
        assert(self@.out_buf =~= old(self)@.out_buf.skip(nwritten as int));
    }
}

} // verus!
