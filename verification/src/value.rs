//! The value codec: how the primitive values of the format are written and read.
//!
//! | value                      | bytes                                              |
//! |----------------------------|----------------------------------------------------|
//! | `u8`, `u32`, `u64`         | 1, 4, 8 bytes, least significant byte first        |
//! | `i64`                      | 8 bytes, two's complement, least significant first |
//! | `[u8; N]`                  | the `N` bytes, without a length                    |
//! | `Vec<u8>`                  | the length as a `u32`, then the bytes              |
//!
//! A value can also be written for a key: the key, a byte that tells the kind of the value,
//! then the value.

use crate::codec::{
    encode_le,
    i64_bits,
    i64_from_bits,
    i64_of_bits,
    i64_to_bits,
    le_bytes,
    lemma_i64_bits_round_trip,
    lemma_le_bytes_len,
    lemma_le_value_bound,
    lemma_le_value_of_bytes,
    lemma_pow256_values,
};
use crate::cursor::{decoded, parse_bytes, parse_uint_le, ByteCursor};
use crate::error::ZffError;
use vstd::prelude::*;
use vstd::string::StringSliceAdditionalSpecFns;

verus! {

/// The kinds of value that can stand behind a key.
#[derive(Debug, Clone, Copy, PartialEq, Eq, Structural)]
pub enum ValueType {
    /// A record with its envelope.
    Object,
    /// An unsigned integer of one byte.
    Uint8,
    /// An unsigned integer of four bytes.
    Uint32,
    /// An unsigned integer of eight bytes.
    Uint64,
    /// A signed integer of eight bytes.
    Int64,
    /// Bytes whose number the type fixes.
    ByteArray,
    /// Bytes behind their number.
    Bytes,
}

impl ValueType {
    /// The byte that stands for the kind.
    pub open spec fn raw_value(self) -> u8 {
        match self {
            ValueType::Object => 0,
            ValueType::Uint8 => 1,
            ValueType::Uint32 => 2,
            ValueType::Uint64 => 3,
            ValueType::Int64 => 4,
            ValueType::ByteArray => 5,
            ValueType::Bytes => 6,
        }
    }

    /// Returns the byte that stands for the kind.
    pub fn as_raw_value(&self) -> (code: u8)
        ensures
            code == self.raw_value(),
    {
        match self {
            ValueType::Object => 0,
            ValueType::Uint8 => 1,
            ValueType::Uint32 => 2,
            ValueType::Uint64 => 3,
            ValueType::Int64 => 4,
            ValueType::ByteArray => 5,
            ValueType::Bytes => 6,
        }
    }
}

/// The longest key, in bytes: its length is written in one byte.
pub const MAX_KEY_LEN: usize = 255;

/// A key on disk: its length in one byte, then its bytes.
pub open spec fn key_encoding(key: Seq<u8>) -> Seq<u8> {
    seq![key.len() as u8] + key
}

/// A value of kind `kind` on disk behind its key.
pub open spec fn keyed_encoding(key: Seq<u8>, kind: ValueType, value: Seq<u8>) -> Seq<u8> {
    key_encoding(key) + seq![kind.raw_value()] + value
}

/// Encodes a key.
pub fn encode_key(key: &str) -> (v: Vec<u8>)
    requires
        key.spec_bytes().len() <= MAX_KEY_LEN,
    ensures
        v@ == key_encoding(key.spec_bytes()),
{
    let bytes = key.as_bytes();
    let mut v: Vec<u8> = Vec::new();
    v.push(bytes.len() as u8);
    v.extend_from_slice(bytes);
    v
}

/// Encodes a value that is already in bytes behind `key`, marked as being of kind `kind`.
pub fn encode_keyed(key: &str, kind: ValueType, value: &[u8]) -> (v: Vec<u8>)
    requires
        key.spec_bytes().len() <= MAX_KEY_LEN,
    ensures
        v@ == keyed_encoding(key.spec_bytes(), kind, value@),
{
    let mut v = encode_key(key);
    v.push(kind.as_raw_value());
    v.extend_from_slice(value);
    v
}

/// Values that can be written.
pub trait ValueEncoder {
    /// Whether the value can be written at all: a buffer must not be longer than its length
    /// field can tell.
    spec fn encodable(&self) -> bool;

    /// The bytes that stand for the value.
    spec fn encoding(&self) -> Seq<u8>;

    /// The kind under which the value is written behind a key.
    spec fn spec_value_type() -> ValueType;

    /// Returns the kind under which the value is written behind a key.
    fn value_type() -> (kind: ValueType)
        ensures
            kind == Self::spec_value_type(),
    ;

    /// Encodes the value directly (= without key).
    fn encode_directly(&self) -> (v: Vec<u8>)
        requires
            self.encodable(),
        ensures
            v@ == self.encoding(),
    ;

    /// Encodes the value behind `key`.
    fn encode_for_key(&self, key: &str) -> (v: Vec<u8>)
        requires
            self.encodable(),
            key.spec_bytes().len() <= MAX_KEY_LEN,
        ensures
            v@ == keyed_encoding(key.spec_bytes(), Self::spec_value_type(), self.encoding()),
    {
        let encoded = self.encode_directly();
        encode_keyed(key, Self::value_type(), encoded.as_slice())
    }
}

/// Values that can be read.
pub trait ValueDecoder: Sized + View {
    /// What the bytes `rest` hold at their start: the value and the number of bytes that
    /// stand for it, or the error.
    spec fn spec_decode(rest: Seq<u8>) -> Result<(Self::V, nat), ZffError>;

    /// Decodes the value at the cursor.
    fn decode_directly(cursor: &mut ByteCursor) -> (r: Result<Self, ZffError>)
        ensures
            decoded(*old(cursor), *final(cursor), r, Self::spec_decode(old(cursor).rest())),
    ;
}

/// Values that can be written and read back.
pub trait ValueCoding: ValueEncoder + ValueDecoder {
    /// Reading what was written gives the value back and uses exactly the bytes written,
    /// whatever follows them.
    proof fn lemma_round_trip(&self, suffix: Seq<u8>)
        requires
            self.encodable(),
        ensures
            Self::spec_decode(self.encoding() + suffix) == Ok::<(Self::V, nat), ZffError>(
                (self@, self.encoding().len()),
            ),
    ;
}

impl ValueEncoder for u8 {
    open spec fn encodable(&self) -> bool {
        true
    }

    open spec fn encoding(&self) -> Seq<u8> {
        seq![*self]
    }

    open spec fn spec_value_type() -> ValueType {
        ValueType::Uint8
    }

    fn value_type() -> (kind: ValueType) {
        ValueType::Uint8
    }

    fn encode_directly(&self) -> (v: Vec<u8>) {
        proof {
            assert(self.encoding().len() == 1);
        }
        let mut v: Vec<u8> = Vec::new();
        v.push(*self);
        v
    }
}

impl ValueDecoder for u8 {
    open spec fn spec_decode(rest: Seq<u8>) -> Result<(u8, nat), ZffError> {
        if rest.len() < 1 {
            Err(ZffError::UnexpectedEof)
        } else {
            Ok((rest[0], 1))
        }
    }

    fn decode_directly(cursor: &mut ByteCursor) -> (r: Result<u8, ZffError>) {
        proof {
            assert(u8::spec_decode(cursor.rest()) is Ok <==> cursor.rest().len() >= 1);
        }
        match cursor.read_array::<1>() {
            Ok(bytes) => Ok(bytes[0]),
            Err(e) => Err(e),
        }
    }
}

impl ValueCoding for u8 {
    proof fn lemma_round_trip(&self, suffix: Seq<u8>) {
    }
}

impl ValueEncoder for u32 {
    open spec fn encodable(&self) -> bool {
        true
    }

    open spec fn encoding(&self) -> Seq<u8> {
        le_bytes(*self as nat, 4)
    }

    open spec fn spec_value_type() -> ValueType {
        ValueType::Uint32
    }

    fn value_type() -> (kind: ValueType) {
        ValueType::Uint32
    }

    fn encode_directly(&self) -> (v: Vec<u8>) {
        proof {
            lemma_le_bytes_len(*self as nat, 4);
            assert(self.encoding().len() == 4);
        }
        encode_le(*self as u64, 4)
    }
}

impl ValueDecoder for u32 {
    open spec fn spec_decode(rest: Seq<u8>) -> Result<(u32, nat), ZffError> {
        match parse_uint_le(rest, 4) {
            Ok((value, used)) => Ok((value as u32, used)),
            Err(e) => Err(e),
        }
    }

    fn decode_directly(cursor: &mut ByteCursor) -> (r: Result<u32, ZffError>) {
        proof {
            assert(u32::spec_decode(cursor.rest()) is Ok <==> cursor.rest().len() >= 4);
            if cursor.rest().len() >= 4 {
                lemma_le_value_bound(cursor.rest().subrange(0, 4));
                lemma_pow256_values();
            }
        }
        match cursor.read_uint_le(4) {
            Ok(value) => Ok(value as u32),
            Err(e) => Err(e),
        }
    }
}

impl ValueCoding for u32 {
    proof fn lemma_round_trip(&self, suffix: Seq<u8>) {
        lemma_pow256_values();
        lemma_le_bytes_len(*self as nat, 4);
        lemma_le_value_of_bytes(*self as nat, 4);
        assert((self.encoding() + suffix).subrange(0, 4) =~= self.encoding());
    }
}

impl ValueEncoder for u64 {
    open spec fn encodable(&self) -> bool {
        true
    }

    open spec fn encoding(&self) -> Seq<u8> {
        le_bytes(*self as nat, 8)
    }

    open spec fn spec_value_type() -> ValueType {
        ValueType::Uint64
    }

    fn value_type() -> (kind: ValueType) {
        ValueType::Uint64
    }

    fn encode_directly(&self) -> (v: Vec<u8>) {
        proof {
            lemma_le_bytes_len(*self as nat, 8);
            assert(self.encoding().len() == 8);
        }
        encode_le(*self, 8)
    }
}

impl ValueDecoder for u64 {
    open spec fn spec_decode(rest: Seq<u8>) -> Result<(u64, nat), ZffError> {
        match parse_uint_le(rest, 8) {
            Ok((value, used)) => Ok((value as u64, used)),
            Err(e) => Err(e),
        }
    }

    fn decode_directly(cursor: &mut ByteCursor) -> (r: Result<u64, ZffError>) {
        proof {
            assert(u64::spec_decode(cursor.rest()) is Ok <==> cursor.rest().len() >= 8);
        }
        cursor.read_uint_le(8)
    }
}

impl ValueCoding for u64 {
    proof fn lemma_round_trip(&self, suffix: Seq<u8>) {
        lemma_pow256_values();
        lemma_le_bytes_len(*self as nat, 8);
        lemma_le_value_of_bytes(*self as nat, 8);
        assert((self.encoding() + suffix).subrange(0, 8) =~= self.encoding());
    }
}

impl ValueEncoder for i64 {
    open spec fn encodable(&self) -> bool {
        true
    }

    open spec fn encoding(&self) -> Seq<u8> {
        le_bytes(i64_bits(*self), 8)
    }

    open spec fn spec_value_type() -> ValueType {
        ValueType::Int64
    }

    fn value_type() -> (kind: ValueType) {
        ValueType::Int64
    }

    fn encode_directly(&self) -> (v: Vec<u8>) {
        proof {
            lemma_le_bytes_len(i64_bits(*self), 8);
            assert(self.encoding().len() == 8);
        }
        encode_le(i64_to_bits(*self), 8)
    }
}

impl ValueDecoder for i64 {
    open spec fn spec_decode(rest: Seq<u8>) -> Result<(i64, nat), ZffError> {
        match parse_uint_le(rest, 8) {
            Ok((value, used)) => Ok((i64_of_bits(value), used)),
            Err(e) => Err(e),
        }
    }

    fn decode_directly(cursor: &mut ByteCursor) -> (r: Result<i64, ZffError>) {
        proof {
            assert(i64::spec_decode(cursor.rest()) is Ok <==> cursor.rest().len() >= 8);
            if cursor.rest().len() >= 8 {
                lemma_le_value_bound(cursor.rest().subrange(0, 8));
                lemma_pow256_values();
            }
        }
        match cursor.read_uint_le(8) {
            Ok(value) => Ok(i64_from_bits(value)),
            Err(e) => Err(e),
        }
    }
}

impl ValueCoding for i64 {
    proof fn lemma_round_trip(&self, suffix: Seq<u8>) {
        lemma_i64_bits_round_trip(*self);
        lemma_le_bytes_len(i64_bits(*self), 8);
        lemma_le_value_of_bytes(i64_bits(*self), 8);
        assert((self.encoding() + suffix).subrange(0, 8) =~= self.encoding());
    }
}

impl<const N: usize> ValueEncoder for [u8; N] {
    open spec fn encodable(&self) -> bool {
        true
    }

    open spec fn encoding(&self) -> Seq<u8> {
        self@
    }

    open spec fn spec_value_type() -> ValueType {
        ValueType::ByteArray
    }

    fn value_type() -> (kind: ValueType) {
        ValueType::ByteArray
    }

    fn encode_directly(&self) -> (v: Vec<u8>) {
        proof {
            assert(self.encoding().len() == N);
        }
        let mut v: Vec<u8> = Vec::new();
        v.extend_from_slice(self.as_slice());
        v
    }
}

impl<const N: usize> ValueDecoder for [u8; N] {
    open spec fn spec_decode(rest: Seq<u8>) -> Result<(Seq<u8>, nat), ZffError> {
        parse_bytes(rest, N as nat)
    }

    fn decode_directly(cursor: &mut ByteCursor) -> (r: Result<[u8; N], ZffError>) {
        proof {
            assert(<[u8; N]>::spec_decode(cursor.rest()) is Ok <==> cursor.rest().len() >= N);
        }
        cursor.read_array::<N>()
    }
}

impl<const N: usize> ValueCoding for [u8; N] {
    proof fn lemma_round_trip(&self, suffix: Seq<u8>) {
        assert((self@ + suffix).subrange(0, N as int) =~= self@);
    }
}

impl ValueEncoder for Vec<u8> {
    open spec fn encodable(&self) -> bool {
        self@.len() <= u32::MAX
    }

    open spec fn encoding(&self) -> Seq<u8> {
        le_bytes(self@.len(), 4) + self@
    }

    open spec fn spec_value_type() -> ValueType {
        ValueType::Bytes
    }

    fn value_type() -> (kind: ValueType) {
        ValueType::Bytes
    }

    fn encode_directly(&self) -> (v: Vec<u8>) {
        proof {
            lemma_le_bytes_len(self@.len(), 4);
            assert(self.encoding().len() == 4 + self@.len());
        }
        let mut v = encode_le(self.len() as u64, 4);
        v.extend_from_slice(self.as_slice());
        v
    }
}

impl ValueDecoder for Vec<u8> {
    open spec fn spec_decode(rest: Seq<u8>) -> Result<(Seq<u8>, nat), ZffError> {
        match parse_uint_le(rest, 4) {
            Err(e) => Err(e),
            Ok((count, _)) => match parse_bytes(rest.skip(4), count) {
                Err(e) => Err(e),
                Ok((bytes, _)) => Ok((bytes, 4 + count)),
            },
        }
    }

    fn decode_directly(cursor: &mut ByteCursor) -> (r: Result<Vec<u8>, ZffError>) {
        let start: usize = cursor.position();
        proof {
            assert(Vec::<u8>::spec_decode(cursor.rest()) is Ok ==> cursor.rest().len() >= 4);
            if cursor.rest().len() >= 4 {
                lemma_le_value_bound(cursor.rest().subrange(0, 4));
                lemma_pow256_values();
            }
        }
        let count: u64 = match cursor.read_uint_le(4) {
            Ok(count) => count,
            Err(e) => {
                return Err(e);
            },
        };
        proof {
            assert(cursor.rest() =~= old(cursor).rest().skip(4));
        }
        if count > cursor.remaining() as u64 {
            cursor.set_position(start);
            return Err(ZffError::UnexpectedEof);
        }
        cursor.read_exact(count as usize)
    }
}

impl ValueCoding for Vec<u8> {
    proof fn lemma_round_trip(&self, suffix: Seq<u8>) {
        let count = self@.len();
        lemma_pow256_values();
        lemma_le_bytes_len(count, 4);
        lemma_le_value_of_bytes(count, 4);
        let whole = self.encoding() + suffix;
        assert(whole.subrange(0, 4) =~= le_bytes(count, 4));
        assert(whole.skip(4).subrange(0, count as int) =~= self@);
    }
}

} // verus!
