//! The values of the `fred` client that carry payloads to and from the backend.

use vstd::prelude::*;

use crate::buffer::bytes_content;
use crate::codec::{decoding, encoding, DecodeError, TileId};

verus! {

#[verifier::external_type_specification]
#[verifier::external_body]
pub struct ExRedisValue(fred::types::RedisValue);

#[verifier::external_type_specification]
#[verifier::external_body]
pub struct ExRedisKey(fred::types::RedisKey);

/// The bytes that a value carries, if it carries bytes at all.
pub uninterp spec fn value_payload(v: fred::types::RedisValue) -> Option<Seq<u8>>;

/// The bytes of a key.
pub uninterp spec fn key_content(k: fred::types::RedisKey) -> Seq<u8>;

/// Relies on `RedisValue`'s `From<Bytes>`: the value is the `Bytes` variant
/// holding the buffer, so it carries the buffer's bytes.
#[verifier::external_body]
fn value_from_bytes(b: bytes::Bytes) -> (r: fred::types::RedisValue)
    ensures
        value_payload(r) == Some(bytes_content(b)),
{
    fred::types::RedisValue::from(b)
}

/// Relies on `RedisValue::as_bytes`: the bytes that the value carries, if it
/// carries any (string and byte values do, and so does the queued marker).
#[verifier::external_body]
fn value_as_bytes(v: &fred::types::RedisValue) -> (r: Option<&[u8]>)
    ensures
        r is Some <==> value_payload(*v) is Some,
        r is Some ==> r->Some_0@ == value_payload(*v)->Some_0,
{
    v.as_bytes()
}

/// Relies on `RedisKey`'s `From<Bytes>`: the key holds the buffer's bytes.
#[verifier::external_body]
fn key_from_bytes(b: bytes::Bytes) -> (r: fred::types::RedisKey)
    ensures
        key_content(r) == bytes_content(b),
{
    fred::types::RedisKey::from(b)
}

/// What reading an identifier from a backend value yields: the decoding of
/// its bytes, or a malformed-payload error when it carries no bytes.
pub open spec fn value_decoding(v: fred::types::RedisValue) -> Result<TileId, DecodeError> {
    match value_payload(v) {
        Some(p) => decoding(p),
        None => Err(DecodeError::MalformedPayload),
    }
}

impl TileId {
    /// Reads an identifier from a value delivered by the backend.
    pub fn from_value(value: &fred::types::RedisValue) -> (r: Result<TileId, DecodeError>)
        ensures
            r == value_decoding(*value),
    {
        match value_as_bytes(value) {
            Some(payload) => TileId::decode(payload),
            None => Err(DecodeError::MalformedPayload),
        }
    }

    /// The backend value that carries this identifier's encoding.
    pub fn to_value(&self) -> (r: fred::types::RedisValue)
        ensures
            value_payload(r) == Some(encoding(*self)),
            value_decoding(r) == Ok::<TileId, DecodeError>(*self),
    {
        proof {
            crate::codec::lemma_round_trip(*self);
        }
        value_from_bytes(self.to_bytes())
    }

    /// The backend key whose bytes are this identifier's encoding.
    pub fn to_key(&self) -> (r: fred::types::RedisKey)
        ensures
            key_content(r) == encoding(*self),
    {
        key_from_bytes(self.to_bytes())
    }
}

impl From<TileId> for fred::types::RedisValue {
    fn from(value: TileId) -> (r: fred::types::RedisValue)
        ensures
            value_payload(r) == Some(encoding(value)),
            value_decoding(r) == Ok::<TileId, DecodeError>(value),
    {
        value.to_value()
    }
}

// A backend value is not determined by its bytes alone, so no spec-level
// value is given here; the impl's own `ensures` states what `from` produces.
impl vstd::std_specs::convert::FromSpecImpl<TileId> for fred::types::RedisValue {
    open spec fn obeys_from_spec() -> bool {
        false
    }

    open spec fn from_spec(value: TileId) -> fred::types::RedisValue {
        arbitrary()
    }
}

impl From<TileId> for fred::types::RedisKey {
    fn from(value: TileId) -> (r: fred::types::RedisKey)
        ensures
            key_content(r) == encoding(value),
    {
        value.to_key()
    }
}

// As for values, the impl's own `ensures` states the bytes of the key.
impl vstd::std_specs::convert::FromSpecImpl<TileId> for fred::types::RedisKey {
    open spec fn obeys_from_spec() -> bool {
        false
    }

    open spec fn from_spec(value: TileId) -> fred::types::RedisKey {
        arbitrary()
    }
}

} // verus!
