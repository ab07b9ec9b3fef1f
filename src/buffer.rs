//! A fixed-capacity byte buffer with a write cursor.
use vstd::prelude::*;
use vstd::string::{is_ascii, is_ascii_spec_bytes, StringSliceAdditionalSpecFns};

verus! {

/// The command sent to the child shell on each change of a watched file.
pub const COMMAND: &'static str = "echo asdf\n";

/// The capacity of the buffers that carry a command and its output.
pub const CONDUIT_CAPACITY: usize = 1024;

/// Why a write into a [`Buffer`] was refused.
#[derive(Debug, Clone, Copy, PartialEq, Eq, Structural)]
pub enum BufferError {
    /// The bytes would not fit in the space left after the cursor.
    CapacityExceeded,
}

/// A byte buffer of capacity `N` whose valid content is the prefix
/// `[0, cursor)`; the bytes after the cursor are stale.
pub struct Buffer<const N: usize> {
    buffer: Vec<u8>,
    cursor: usize,
}

impl<const N: usize> View for Buffer<N> {
    type V = Seq<u8>;

    /// The valid content: the bytes before the cursor.
    closed spec fn view(&self) -> Seq<u8> {
        self.buffer@.subrange(0, self.cursor as int)
    }
}

impl<const N: usize> Buffer<N> {
    /// The storage has exactly `N` bytes and the cursor lies within it.
    pub closed spec fn wf(&self) -> bool {
        &&& self.buffer@.len() == N
        &&& self.cursor <= N
    }

    /// The number of valid bytes.
    pub closed spec fn spec_len(&self) -> nat {
        self.cursor as nat
    }

    /// An empty buffer of capacity `N`.
    pub fn new() -> (r: Self)
        ensures
            r.wf(),
            r@ == Seq::<u8>::empty(),
            r.spec_len() == 0,
    {
        let r = Buffer { buffer: vec![0u8; N], cursor: 0 };
        assert(r@ =~= Seq::<u8>::empty());
        r
    }

    /// Appends `bytes` at the cursor, or leaves the buffer as it was when
    /// they do not fit.
    fn append(&mut self, bytes: &[u8]) -> (r: Result<(), BufferError>)
        requires
            old(self).wf(),
        ensures
            final(self).wf(),
            r is Ok <==> old(self).spec_len() + bytes@.len() <= N,
            r is Ok ==> final(self)@ == old(self)@ + bytes@,
            r is Ok ==> final(self).spec_len() == old(self).spec_len() + bytes@.len(),
            r is Err ==> r == Err::<(), BufferError>(BufferError::CapacityExceeded),
            r is Err ==> *final(self) == *old(self),
    {
        if bytes.len() > N - self.cursor {
            return Err(BufferError::CapacityExceeded);
        }
        let start = self.cursor;
        let ghost before = self.buffer@;
        let mut i: usize = 0;
        while i < bytes.len()
            invariant
                start + bytes@.len() <= N,
                self.buffer@.len() == N,
                self.cursor == start,
                0 <= i <= bytes@.len(),
                self.buffer@.subrange(0, start as int) == before.subrange(0, start as int),
                forall|j: int| 0 <= j < i ==> #[trigger] self.buffer@[start + j] == bytes@[j],
            decreases bytes@.len() - i,
        {
            self.buffer.set(start + i, bytes[i]);
            proof {
                assert(self.buffer@.subrange(0, start as int) =~= before.subrange(0, start as int));
            }
            i = i + 1;
        }
        self.cursor = start + bytes.len();
        proof {
            assert(self@ =~= old(self)@ + bytes@) by {
                assert(old(self)@ =~= before.subrange(0, start as int));
                assert forall|j: int| 0 <= j < self@.len() implies self@[j] == (old(self)@ + bytes@)[j] by {
                    if j >= start {
                        assert(self.buffer@[start + (j - start)] == bytes@[j - start]);
                    } else {
                        assert(self.buffer@.subrange(0, start as int)[j] == before.subrange(0, start as int)[j]);
                    }
                }
            }
        }
        Ok(())
    }

    /// Appends the UTF-8 encoding of `s` at the cursor. Fails with
    /// `CapacityExceeded`, leaving the buffer untouched, when the bytes would
    /// not fit; never writes part of them.
    pub fn write_str(&mut self, s: &str) -> (r: Result<(), BufferError>)
        requires
            old(self).wf(),
        ensures
            final(self).wf(),
            r is Ok <==> old(self).spec_len() + s.spec_bytes().len() <= N,
            r is Ok ==> final(self)@ == old(self)@ + s.spec_bytes(),
            r is Ok ==> final(self).spec_len() == old(self).spec_len() + s.spec_bytes().len(),
            r is Err ==> r == Err::<(), BufferError>(BufferError::CapacityExceeded),
            r is Err ==> *final(self) == *old(self),
    {
        self.append(s.as_bytes())
    }

    /// Takes in the bytes that one read from a source delivered into the
    /// space after the cursor, and advances the cursor past them. A read
    /// that delivered nothing leaves the buffer as it was. Bytes beyond the
    /// remaining capacity are refused with `CapacityExceeded` and nothing is
    /// taken in.
    pub fn read_from(&mut self, data: &[u8]) -> (r: Result<(), BufferError>)
        requires
            old(self).wf(),
        ensures
            final(self).wf(),
            r is Ok <==> old(self).spec_len() + data@.len() <= N,
            r is Ok ==> final(self)@ == old(self)@ + data@,
            r is Ok ==> final(self).spec_len() == old(self).spec_len() + data@.len(),
            r is Err ==> r == Err::<(), BufferError>(BufferError::CapacityExceeded),
            r is Err ==> *final(self) == *old(self),
    {
        self.append(data)
    }

    /// The capacity `N`.
    pub fn capacity(&self) -> (r: usize)
        ensures
            r == N,
    {
        N
    }

    /// The number of valid bytes.
    pub fn len(&self) -> (r: usize)
        requires
            self.wf(),
        ensures
            r == self.spec_len(),
            r == self@.len(),
    {
        self.cursor
    }

    /// The number of bytes that still fit after the cursor.
    pub fn remaining(&self) -> (r: usize)
        requires
            self.wf(),
        ensures
            r == N - self.spec_len(),
    {
        N - self.cursor
    }

    /// The valid content, without resetting the cursor.
    pub fn peek(&self) -> (r: &[u8])
        requires
            self.wf(),
        ensures
            r@ == self@,
    {
        &self.buffer.as_slice()[0..self.cursor]
    }

    /// Hands out the valid content and empties the buffer.
    pub fn pull(&mut self) -> (r: &[u8])
        requires
            old(self).wf(),
        ensures
            final(self).wf(),
            r@ == old(self)@,
            final(self)@ == Seq::<u8>::empty(),
            final(self).spec_len() == 0,
    {
        let length = self.cursor;
        self.cursor = 0;
        proof { assert(self@ =~= Seq::<u8>::empty()); }
        &self.buffer.as_slice()[0..length]
    }
}

/// A drained buffer peeks empty: `pull` leaves the cursor at zero, and a
/// buffer whose cursor is at zero has no valid bytes for `peek` to show.
pub proof fn lemma_drained_peeks_empty<const N: usize>(b: Buffer<N>)
    requires
        b.spec_len() == 0,
    ensures
        b@ == Seq::<u8>::empty(),
{
    assert(b@ =~= Seq::<u8>::empty());
}

/// A fresh buffer of the conduit's capacity holding the command, as its
/// bytes: `echo asdf` and a newline.
pub fn command_buffer() -> (r: Buffer<CONDUIT_CAPACITY>)
    ensures
        r.wf(),
        r@ == COMMAND.spec_bytes(),
        r@ == seq![101u8, 99, 104, 111, 32, 97, 115, 100, 102, 10],
{
    let mut b = Buffer::<CONDUIT_CAPACITY>::new();
    let command = COMMAND;
    proof {
        reveal_strlit("echo asdf\n");
        broadcast use is_ascii_spec_bytes;
        let chars = seq!['e', 'c', 'h', 'o', ' ', 'a', 's', 'd', 'f', '\n'];
        assert(command@ =~= chars);
        assert(is_ascii(command));
        assert(command.spec_bytes() =~= seq![101u8, 99, 104, 111, 32, 97, 115, 100, 102, 10]);
    }
    let _ = b.write_str(command);
    b
}

} // verus!
