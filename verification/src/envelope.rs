//! The record envelope: every header and footer is written as a 4-byte identifier, most
//! significant byte first, an 8-byte length, least significant byte first, and a body.
//!
//! What the length counts is a matter of the record: most records count their body, the
//! chunk header counts body and envelope prefix together. [`LengthRule`] says which.

use crate::codec::{
    be_bytes,
    be_value,
    encode_be,
    encode_le,
    le_bytes,
    le_value,
    lemma_be_value_of_bytes,
    lemma_le_bytes_len,
    lemma_le_value_bound,
    lemma_le_value_of_bytes,
    lemma_pow256_values,
};
use crate::constants::{DEFAULT_LENGTH_HEADER_IDENTIFIER, DEFAULT_LENGTH_VALUE_HEADER_LENGTH};
use crate::cursor::{decoded, ByteCursor};
use crate::error::ZffError;
use crate::value::{encode_keyed, keyed_encoding, ValueType, MAX_KEY_LEN};
use vstd::prelude::*;
use vstd::string::StringSliceAdditionalSpecFns;

verus! {

/// The number of bytes that an envelope puts before the body: identifier and length.
pub const ENVELOPE_PREFIX_LEN: usize = DEFAULT_LENGTH_HEADER_IDENTIFIER
    + DEFAULT_LENGTH_VALUE_HEADER_LENGTH;

/// What the length field of a record counts.
#[derive(Debug, Clone, Copy, PartialEq, Eq, Structural)]
pub enum LengthRule {
    /// The bytes of the body.
    BodyOnly,
    /// The bytes of the body and the 12 bytes of identifier and length before it.
    WithEnvelope,
}

impl LengthRule {
    /// The value of the length field for a body of `body_len` bytes.
    pub open spec fn declared_length(self, body_len: nat) -> nat {
        match self {
            LengthRule::BodyOnly => body_len,
            LengthRule::WithEnvelope => body_len + 12,
        }
    }

    /// The number of bytes of the body under a length field of `declared`, if there is one:
    /// a length that counts the envelope cannot be below 12.
    pub open spec fn body_length(self, declared: nat) -> Option<nat> {
        match self {
            LengthRule::BodyOnly => Some(declared),
            LengthRule::WithEnvelope => if declared < 12 {
                None
            } else {
                Some((declared - 12) as nat)
            },
        }
    }
}

/// A record on disk: identifier, length, body.
pub open spec fn envelope(identifier: u32, rule: LengthRule, body: Seq<u8>) -> Seq<u8> {
    be_bytes(identifier as nat, 4) + le_bytes(rule.declared_length(body.len()), 8) + body
}

/// An envelope as it was read, whatever record it holds.
#[derive(Debug)]
pub struct Envelope {
    /// The identifier of the record.
    pub identifier: u32,
    /// The length field, as it was written.
    pub length: u64,
    /// The bytes of the body.
    pub body: Vec<u8>,
}

/// The mathematical value of an [`Envelope`].
pub struct EnvelopeView {
    pub identifier: u32,
    pub length: u64,
    pub body: Seq<u8>,
}

impl View for Envelope {
    type V = EnvelopeView;

    open spec fn view(&self) -> EnvelopeView {
        EnvelopeView { identifier: self.identifier, length: self.length, body: self.body@ }
    }
}

/// What the bytes `rest` hold at their start, read as an envelope under `rule`: the
/// envelope and the number of bytes that it takes.
pub open spec fn parse_envelope(rest: Seq<u8>, rule: LengthRule) -> Result<
    (EnvelopeView, nat),
    ZffError,
> {
    if rest.len() < 12 {
        Err(ZffError::UnexpectedEof)
    } else {
        let declared = le_value(rest.subrange(4, 12));
        match rule.body_length(declared) {
            None => Err(ZffError::HeaderDecodeLength),
            Some(count) => if rest.len() - 12 < count {
                Err(ZffError::HeaderDecodeLength)
            } else {
                Ok(
                    (
                        EnvelopeView {
                            identifier: be_value(rest.subrange(0, 4)) as u32,
                            length: declared as u64,
                            body: rest.subrange(12, 12 + count as int),
                        },
                        12 + count,
                    ),
                )
            },
        }
    }
}

/// What the bytes `rest` hold at their start, read as the record with the identifier
/// `expected`: the body and the number of bytes that the record takes. The identifier is
/// judged before the length is looked at.
pub open spec fn parse_validated(rest: Seq<u8>, expected: u32, rule: LengthRule) -> Result<
    (Seq<u8>, nat),
    ZffError,
> {
    if rest.len() < 4 {
        Err(ZffError::UnexpectedEof)
    } else if be_value(rest.subrange(0, 4)) != expected {
        Err(ZffError::HeaderDecodeMismatchIdentifier)
    } else {
        match parse_envelope(rest, rule) {
            Err(e) => Err(e),
            Ok((found, used)) => Ok((found.body, used)),
        }
    }
}

/// An envelope that was written is read back as it was, whatever follows it.
pub proof fn lemma_envelope_round_trip(
    identifier: u32,
    rule: LengthRule,
    body: Seq<u8>,
    suffix: Seq<u8>,
)
    requires
        rule.declared_length(body.len()) <= u64::MAX,
    ensures
        envelope(identifier, rule, body).len() == 12 + body.len(),
        parse_envelope(envelope(identifier, rule, body) + suffix, rule) == Ok::<
            (EnvelopeView, nat),
            ZffError,
        >(
            (
                EnvelopeView {
                    identifier,
                    length: rule.declared_length(body.len()) as u64,
                    body,
                },
                12 + body.len(),
            ),
        ),
        parse_validated(envelope(identifier, rule, body) + suffix, identifier, rule) == Ok::<
            (Seq<u8>, nat),
            ZffError,
        >((body, 12 + body.len())),
{
    let declared = rule.declared_length(body.len());
    let whole = envelope(identifier, rule, body) + suffix;
    lemma_pow256_values();
    lemma_be_value_of_bytes(identifier as nat, 4);
    lemma_le_bytes_len(declared, 8);
    lemma_le_value_of_bytes(declared, 8);
    assert(whole.subrange(0, 4) =~= be_bytes(identifier as nat, 4));
    assert(whole.subrange(4, 12) =~= le_bytes(declared, 8));
    assert(whole.subrange(12, 12 + body.len() as int) =~= body);
}

/// Bytes that do not start with the identifier asked for are never taken for the record.
pub proof fn lemma_identifier_rejected(rest: Seq<u8>, expected: u32, rule: LengthRule)
    requires
        rest.len() >= 4,
        be_value(rest.subrange(0, 4)) != expected,
    ensures
        parse_validated(rest, expected, rule) == Err::<(Seq<u8>, nat), ZffError>(
            ZffError::HeaderDecodeMismatchIdentifier,
        ),
{
}

/// Puts `body` into an envelope.
pub fn encode_envelope(identifier: u32, rule: LengthRule, body: &[u8]) -> (v: Vec<u8>)
    requires
        rule.declared_length(body@.len()) <= u64::MAX,
    ensures
        v@ == envelope(identifier, rule, body@),
{
    let declared: u64 = match rule {
        LengthRule::BodyOnly => body.len() as u64,
        LengthRule::WithEnvelope => body.len() as u64 + ENVELOPE_PREFIX_LEN as u64,
    };
    let mut v = encode_be(identifier as u64, DEFAULT_LENGTH_HEADER_IDENTIFIER);
    let mut length = encode_le(declared, DEFAULT_LENGTH_VALUE_HEADER_LENGTH);
    v.append(&mut length);
    v.extend_from_slice(body);
    v
}

/// Reads an envelope, whatever record it holds: the 12 bytes of identifier and length, and
/// the body that the length tells of.
pub fn decode_envelope(cursor: &mut ByteCursor, rule: LengthRule) -> (r: Result<
    Envelope,
    ZffError,
>)
    ensures
        decoded(*old(cursor), *final(cursor), r, parse_envelope(old(cursor).rest(), rule)),
{
    let start: usize = cursor.position();
    if cursor.remaining() < ENVELOPE_PREFIX_LEN {
        return Err(ZffError::UnexpectedEof);
    }
    let ghost rest = cursor.rest();
    proof {
        lemma_le_value_bound(rest.subrange(0, 4).reverse());
        lemma_le_value_bound(rest.subrange(4, 12));
        lemma_pow256_values();
    }
    let identifier: u64 = match cursor.read_uint_be(DEFAULT_LENGTH_HEADER_IDENTIFIER) {
        Ok(identifier) => identifier,
        Err(e) => {
            return Err(e);
        },
    };
    proof {
        assert(cursor.rest().subrange(0, 8) =~= rest.subrange(4, 12));
    }
    let declared: u64 = match cursor.read_uint_le(DEFAULT_LENGTH_VALUE_HEADER_LENGTH) {
        Ok(declared) => declared,
        Err(e) => {
            return Err(e);
        },
    };
    let count: u64 = match rule {
        LengthRule::BodyOnly => declared,
        LengthRule::WithEnvelope => {
            if declared < ENVELOPE_PREFIX_LEN as u64 {
                cursor.set_position(start);
                return Err(ZffError::HeaderDecodeLength);
            }
            declared - ENVELOPE_PREFIX_LEN as u64
        },
    };
    if count > cursor.remaining() as u64 {
        cursor.set_position(start);
        return Err(ZffError::HeaderDecodeLength);
    }
    proof {
        assert(cursor.rest().subrange(0, count as int) =~= rest.subrange(12, 12 + count));
    }
    match cursor.read_exact(count as usize) {
        Ok(body) => Ok(Envelope { identifier: identifier as u32, length: declared, body }),
        Err(e) => Err(e),
    }
}

/// Reads the envelope of the record with the identifier `expected` and returns its body.
pub fn decode_and_validate(cursor: &mut ByteCursor, expected: u32, rule: LengthRule) -> (r:
    Result<Vec<u8>, ZffError>)
    ensures
        decoded(
            *old(cursor),
            *final(cursor),
            r,
            parse_validated(old(cursor).rest(), expected, rule),
        ),
{
    let start: usize = cursor.position();
    let ghost rest = cursor.rest();
    proof {
        if rest.len() >= 4 {
            lemma_le_value_bound(rest.subrange(0, 4).reverse());
            lemma_pow256_values();
        }
    }
    let identifier: u64 = match cursor.read_uint_be(DEFAULT_LENGTH_HEADER_IDENTIFIER) {
        Ok(identifier) => identifier,
        Err(e) => {
            return Err(e);
        },
    };
    cursor.set_position(start);
    if identifier != expected as u64 {
        return Err(ZffError::HeaderDecodeMismatchIdentifier);
    }
    match decode_envelope(cursor, rule) {
        Ok(found) => Ok(found.body),
        Err(e) => Err(e),
    }
}

/// Records that are written in an envelope under an identifier of their own.
pub trait HeaderCoding: Sized + View {
    /// The identifier of the record.
    spec fn spec_identifier() -> u32;

    /// What the length field of the record counts.
    spec fn spec_length_rule() -> LengthRule;

    /// Whether the fields are within their domains: a nonce, a salt and a signature have
    /// the number of bytes that their type fixes. This holds of every record in memory.
    spec fn well_formed(model: Self::V) -> bool;

    /// Whether the record can be written: every buffer in it must fit its length field.
    spec fn encodable(model: Self::V) -> bool;

    /// The body of the record.
    spec fn body(model: Self::V) -> Seq<u8>;

    /// What a body holds: the record, or the error.
    spec fn parse_body(body: Seq<u8>) -> Result<Self::V, ZffError>;

    /// The fields of a record in memory are within their domains.
    proof fn lemma_well_formed(&self)
        ensures
            Self::well_formed(self@),
    ;

    /// The length of a body fits the length field.
    proof fn lemma_body_len(model: Self::V)
        requires
            Self::well_formed(model),
            Self::encodable(model),
        ensures
            Self::spec_length_rule().declared_length(Self::body(model).len()) <= u64::MAX,
    ;

    /// A body that was written is read back as the record it was written from.
    proof fn lemma_body_round_trip(model: Self::V)
        requires
            Self::well_formed(model),
            Self::encodable(model),
        ensures
            Self::parse_body(Self::body(model)) == Ok::<Self::V, ZffError>(model),
    ;

    /// Returns the identifier of the record.
    fn identifier() -> (identifier: u32)
        ensures
            identifier == Self::spec_identifier(),
    ;

    /// Returns what the length field of the record counts.
    fn length_rule() -> (rule: LengthRule)
        ensures
            rule == Self::spec_length_rule(),
    ;

    /// Encodes the body of the record.
    fn encode_header(&self) -> (v: Vec<u8>)
        requires
            Self::encodable(self@),
        ensures
            v@ == Self::body(self@),
    ;

    /// Decodes the body of the record.
    fn decode_content(data: Vec<u8>) -> (r: Result<Self, ZffError>)
        ensures
            match Self::parse_body(data@) {
                Ok(model) => r is Ok && r->Ok_0@ == model,
                Err(e) => r is Err && r->Err_0 == e,
            },
    ;

    /// Encodes the record with its envelope.
    fn encode_directly(&self) -> (v: Vec<u8>)
        requires
            Self::encodable(self@),
        ensures
            v@ == envelope(Self::spec_identifier(), Self::spec_length_rule(), Self::body(self@)),
    {
        proof {
            self.lemma_well_formed();
            Self::lemma_body_len(self@);
        }
        let body = self.encode_header();
        encode_envelope(Self::identifier(), Self::length_rule(), body.as_slice())
    }

    /// Encodes the record with its envelope behind `key`.
    fn encode_for_key(&self, key: &str) -> (v: Vec<u8>)
        requires
            Self::encodable(self@),
            key.spec_bytes().len() <= MAX_KEY_LEN,
        ensures
            v@ == keyed_encoding(
                key.spec_bytes(),
                ValueType::Object,
                envelope(Self::spec_identifier(), Self::spec_length_rule(), Self::body(self@)),
            ),
    {
        let encoded = self.encode_directly();
        encode_keyed(key, ValueType::Object, encoded.as_slice())
    }

    /// Decodes the record at the cursor.
    fn decode_directly(cursor: &mut ByteCursor) -> (r: Result<Self, ZffError>)
        ensures
            decoded(
                *old(cursor),
                *final(cursor),
                r,
                match parse_validated(
                    old(cursor).rest(),
                    Self::spec_identifier(),
                    Self::spec_length_rule(),
                ) {
                    Err(e) => Err(e),
                    Ok((body, used)) => match Self::parse_body(body) {
                        Err(e) => Err(e),
                        Ok(model) => Ok((model, used)),
                    },
                },
            ),
    {
        let start: usize = cursor.position();
        let body = match decode_and_validate(cursor, Self::identifier(), Self::length_rule()) {
            Ok(body) => body,
            Err(e) => {
                return Err(e);
            },
        };
        match Self::decode_content(body) {
            Ok(record) => Ok(record),
            Err(e) => {
                cursor.set_position(start);
                Err(e)
            },
        }
    }
}

/// A record on disk: the body in its envelope. This is what `encode_directly` returns.
pub open spec fn record<T: HeaderCoding>(model: T::V) -> Seq<u8> {
    envelope(T::spec_identifier(), T::spec_length_rule(), T::body(model))
}

/// What the bytes `rest` hold at their start, read as a record of type `T`: the record and
/// the number of bytes that it takes. This is what `decode_directly` goes by.
pub open spec fn parse_record<T: HeaderCoding>(rest: Seq<u8>) -> Result<(T::V, nat), ZffError> {
    match parse_validated(rest, T::spec_identifier(), T::spec_length_rule()) {
        Err(e) => Err(e),
        Ok((body, used)) => match T::parse_body(body) {
            Err(e) => Err(e),
            Ok(model) => Ok((model, used)),
        },
    }
}

/// Decoding what was encoded gives the record back, for every type of record and every
/// record of it whose fields are within their domains, whatever bytes follow the record.
pub proof fn lemma_record_round_trip<T: HeaderCoding>(model: T::V, suffix: Seq<u8>)
    requires
        T::well_formed(model),
        T::encodable(model),
    ensures
        parse_record::<T>(record::<T>(model) + suffix) == Ok::<(T::V, nat), ZffError>(
            (model, record::<T>(model).len()),
        ),
        record::<T>(model).len() == 12 + T::body(model).len(),
{
    T::lemma_body_len(model);
    T::lemma_body_round_trip(model);
    lemma_envelope_round_trip(T::spec_identifier(), T::spec_length_rule(), T::body(model), suffix);
}

/// Bytes that start with another identifier than that of `T` are rejected as such, whatever
/// else they hold.
pub proof fn lemma_record_identifier_rejected<T: HeaderCoding>(rest: Seq<u8>)
    requires
        rest.len() >= 4,
        be_value(rest.subrange(0, 4)) != T::spec_identifier(),
    ensures
        parse_record::<T>(rest) == Err::<(T::V, nat), ZffError>(
            ZffError::HeaderDecodeMismatchIdentifier,
        ),
{
}

} // verus!
