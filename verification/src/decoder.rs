//! The sequential byte cursor that every decoding reads from.

use vstd::prelude::*;
use vstd::slice::slice_subrange;

verus! {

/// A cursor over a borrowed byte slice. Reading moves the cursor forward and
/// never changes the bytes; the cursor never passes the end of the slice.
pub struct Decoder<'a> {
    data: &'a [u8],
    position: usize,
}

impl<'a> Decoder<'a> {
    #[verifier::type_invariant]
    spec fn in_range(self) -> bool {
        self.position <= self.data@.len()
    }

    /// The bytes that the decoder was created over.
    pub closed spec fn source(&self) -> Seq<u8> {
        self.data@
    }

    /// The number of bytes read so far.
    pub closed spec fn position(&self) -> nat {
        self.position as nat
    }

    /// The bytes that have not been read yet.
    pub open spec fn remaining(&self) -> Seq<u8> {
        self.source().skip(self.position() as int)
    }

    /// Creates a decoder at the start of `data`.
    pub fn new(data: &'a [u8]) -> (decoder: Decoder<'a>)
        ensures
            decoder.source() == data@,
            decoder.position() == 0,
            decoder.remaining() == data@,
    {
        assert(data@.skip(0) =~= data@);
        Decoder { data, position: 0 }
    }

    /// Returns a second cursor at the same position over the same bytes.
    pub fn fork(&self) -> (other: Decoder<'a>)
        ensures
            other.source() == self.source(),
            other.position() == self.position(),
            other.remaining() == self.remaining(),
    {
        proof {
            use_type_invariant(self);
        }
        Decoder { data: self.data, position: self.position }
    }

    /// Returns the number of bytes that have not been read yet.
    pub fn left(&self) -> (count: usize)
        ensures
            count == self.remaining().len(),
            self.position() + count == self.source().len(),
    {
        proof {
            use_type_invariant(self);
        }
        self.data.len() - self.position
    }

    /// Returns the next `count` bytes and stays where it is.
    pub fn peek(&self, count: usize) -> (bytes: &'a [u8])
        requires
            count <= self.remaining().len(),
        ensures
            bytes@ == self.remaining().take(count as int),
    {
        proof {
            use_type_invariant(self);
            assert(self.remaining().len() == self.data@.len() - self.position);
        }
        let total: usize = self.data.len();
        let start: usize = self.position;
        assert(start + count <= total);
        let bytes = slice_subrange(self.data, start, start + count);
        proof {
            assert(bytes@ =~= self.remaining().take(count as int));
        }
        bytes
    }

    /// Reads the next `count` bytes and moves past them.
    pub fn take(&mut self, count: usize) -> (bytes: &'a [u8])
        requires
            count <= old(self).remaining().len(),
        ensures
            bytes@ == old(self).remaining().take(count as int),
            final(self).source() == old(self).source(),
            final(self).position() == old(self).position() + count,
            final(self).remaining() == old(self).remaining().skip(count as int),
    {
        proof {
            use_type_invariant(&*self);
            assert(self.remaining().len() == self.data@.len() - self.position);
        }
        let total: usize = self.data.len();
        let start: usize = self.position;
        assert(start + count <= total);
        let end: usize = start + count;
        let bytes = slice_subrange(self.data, start, end);
        self.position = end;
        proof {
            assert(bytes@ =~= old(self).remaining().take(count as int));
            assert(self.remaining() =~= old(self).remaining().skip(count as int));
        }
        bytes
    }
}

} // verus!
