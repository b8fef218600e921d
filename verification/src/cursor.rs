//! A forward-only cursor over a buffer of bytes.
//!
//! Every read either succeeds and moves the cursor past what it read, or fails and leaves
//! the cursor where it was: no read hands out a partial value.

use crate::codec::{be_value, decode_be, decode_le, le_value};
use crate::error::ZffError;
use vstd::prelude::*;

verus! {

/// A buffer of bytes and the position of the next byte to read.
#[derive(Debug)]
pub struct ByteCursor {
    data: Vec<u8>,
    position: usize,
}

/// What a read of `count` raw bytes from `rest` gives: the bytes and how many were used.
pub open spec fn parse_bytes(rest: Seq<u8>, count: nat) -> Result<(Seq<u8>, nat), ZffError> {
    if rest.len() < count {
        Err(ZffError::UnexpectedEof)
    } else {
        Ok((rest.subrange(0, count as int), count))
    }
}

/// What a read of an unsigned integer of `width` bytes from `rest` gives, least significant
/// byte first.
pub open spec fn parse_uint_le(rest: Seq<u8>, width: nat) -> Result<(nat, nat), ZffError> {
    if rest.len() < width {
        Err(ZffError::UnexpectedEof)
    } else {
        Ok((le_value(rest.subrange(0, width as int)), width))
    }
}

/// What a read of an unsigned integer of `width` bytes from `rest` gives, most significant
/// byte first.
pub open spec fn parse_uint_be(rest: Seq<u8>, width: nat) -> Result<(nat, nat), ZffError> {
    if rest.len() < width {
        Err(ZffError::UnexpectedEof)
    } else {
        Ok((be_value(rest.subrange(0, width as int)), width))
    }
}

/// Relates a decoder's result `r`, and the cursor after the call, to what the format says
/// the remaining bytes hold: on success the value read and a cursor moved past it, on
/// failure the error and a cursor that did not move.
pub open spec fn decoded<T: View>(
    pre: ByteCursor,
    post: ByteCursor,
    r: Result<T, ZffError>,
    expected: Result<(T::V, nat), ZffError>,
) -> bool {
    &&& post.bytes() == pre.bytes()
    &&& match expected {
        Ok((value, used)) => r is Ok && r->Ok_0@ == value && post.offset() == pre.offset() + used,
        Err(e) => r is Err && r->Err_0 == e && post.offset() == pre.offset(),
    }
}

impl ByteCursor {
    #[verifier::type_invariant]
    spec fn in_bounds(&self) -> bool {
        self.position <= self.data@.len()
    }

    /// All the bytes of the buffer.
    pub closed spec fn bytes(&self) -> Seq<u8> {
        self.data@
    }

    /// The number of bytes that were read so far.
    pub closed spec fn offset(&self) -> nat {
        self.position as nat
    }

    /// The bytes that are still to be read.
    pub open spec fn rest(&self) -> Seq<u8> {
        self.bytes().skip(self.offset() as int)
    }

    /// Creates a cursor at the start of `data`.
    pub fn new(data: Vec<u8>) -> (cursor: ByteCursor)
        ensures
            cursor.bytes() == data@,
            cursor.offset() == 0,
    {
        ByteCursor { data, position: 0 }
    }

    /// Returns the number of bytes that were read so far.
    pub fn position(&self) -> (position: usize)
        ensures
            position == self.offset(),
            position <= self.bytes().len(),
    {
        proof {
            use_type_invariant(self);
        }
        self.position
    }

    /// Returns the number of bytes that are still to be read.
    pub fn remaining(&self) -> (count: usize)
        ensures
            count == self.rest().len(),
            count == self.bytes().len() - self.offset(),
    {
        proof {
            use_type_invariant(self);
        }
        self.data.len() - self.position
    }

    /// Moves the cursor to `position`, counted from the start of the buffer.
    pub fn set_position(&mut self, position: usize)
        requires
            position <= old(self).bytes().len(),
        ensures
            final(self).bytes() == old(self).bytes(),
            final(self).offset() == position,
    {
        self.position = position;
    }

    /// Hands the buffer back.
    pub fn into_inner(self) -> (data: Vec<u8>)
        ensures
            data@ == self.bytes(),
    {
        self.data
    }

    /// Reads the next `count` bytes.
    pub fn read_exact(&mut self, count: usize) -> (r: Result<Vec<u8>, ZffError>)
        ensures
            decoded(*old(self), *final(self), r, parse_bytes(old(self).rest(), count as nat)),
    {
        proof {
            use_type_invariant(&*self);
        }
        if self.data.len() - self.position < count {
            return Err(ZffError::UnexpectedEof);
        }
        let start: usize = self.position;
        let len: usize = self.data.len();
        let mut out: Vec<u8> = Vec::new();
        let mut i: usize = 0;
        while i < count
            invariant
                i <= count,
                start + count <= self.data@.len() == len,
                out@ == self.data@.subrange(start as int, start + i),
            decreases count - i,
        {
            out.push(self.data[start + i]);
            proof {
                assert(out@ =~= self.data@.subrange(start as int, start + i + 1));
            }
            i = i + 1;
        }
        self.position = start + count;
        proof {
            assert(out@ =~= old(self).rest().subrange(0, count as int));
        }
        Ok(out)
    }

    /// Reads the next `N` bytes into an array.
    pub fn read_array<const N: usize>(&mut self) -> (r: Result<[u8; N], ZffError>)
        ensures
            decoded(*old(self), *final(self), r, parse_bytes(old(self).rest(), N as nat)),
    {
        proof {
            use_type_invariant(&*self);
        }
        if self.data.len() - self.position < N {
            return Err(ZffError::UnexpectedEof);
        }
        let start: usize = self.position;
        let len: usize = self.data.len();
        let mut out: [u8; N] = [0u8; N];
        let mut i: usize = 0;
        while i < N
            invariant
                i <= N,
                start + N <= self.data@.len() == len,
                out@.len() == N,
                forall|j: int| 0 <= j < i ==> out@[j] == self.data@[start + j],
            decreases N - i,
        {
            out[i] = self.data[start + i];
            i = i + 1;
        }
        self.position = start + N;
        proof {
            assert(out@ =~= old(self).rest().subrange(0, N as int));
        }
        Ok(out)
    }

    /// Reads an unsigned integer of `width` bytes, least significant byte first.
    pub fn read_uint_le(&mut self, width: usize) -> (r: Result<u64, ZffError>)
        requires
            width <= 8,
        ensures
            final(self).bytes() == old(self).bytes(),
            match parse_uint_le(old(self).rest(), width as nat) {
                Ok((value, used)) => r == Ok::<u64, ZffError>(value as u64) && final(self).offset()
                    == old(self).offset() + used,
                Err(e) => r == Err::<u64, ZffError>(e) && final(self).offset() == old(
                    self,
                ).offset(),
            },
    {
        proof {
            use_type_invariant(&*self);
        }
        if self.data.len() - self.position < width {
            return Err(ZffError::UnexpectedEof);
        }
        let start: usize = self.position;
        let value: u64 = decode_le(self.data.as_slice(), start, width);
        self.position = start + width;
        proof {
            assert(self.data@.subrange(start as int, start + width) =~= old(self).rest().subrange(
                0,
                width as int,
            ));
        }
        Ok(value)
    }

    /// Reads an unsigned integer of `width` bytes, most significant byte first.
    pub fn read_uint_be(&mut self, width: usize) -> (r: Result<u64, ZffError>)
        requires
            width <= 8,
        ensures
            final(self).bytes() == old(self).bytes(),
            match parse_uint_be(old(self).rest(), width as nat) {
                Ok((value, used)) => r == Ok::<u64, ZffError>(value as u64) && final(self).offset()
                    == old(self).offset() + used,
                Err(e) => r == Err::<u64, ZffError>(e) && final(self).offset() == old(
                    self,
                ).offset(),
            },
    {
        proof {
            use_type_invariant(&*self);
        }
        if self.data.len() - self.position < width {
            return Err(ZffError::UnexpectedEof);
        }
        let start: usize = self.position;
        let value: u64 = decode_be(self.data.as_slice(), start, width);
        self.position = start + width;
        proof {
            assert(self.data@.subrange(start as int, start + width) =~= old(self).rest().subrange(
                0,
                width as int,
            ));
        }
        Ok(value)
    }
}

} // verus!
