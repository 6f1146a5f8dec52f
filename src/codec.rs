//! Twelve-byte big-endian encoding of a tile coordinate `(z, x, y)`.

use vstd::prelude::*;
use vstd::slice::slice_subrange;

use crate::buffer::{
    buffer_freeze, buffer_put_u32, buffer_with_capacity, bytes_as_slice, bytes_content,
    bytes_mut_content,
};

verus! {

/// The length of an encoded tile identifier, in bytes.
pub const ENCODED_LEN: usize = 12;

/// A tile address in a quadtree-style tiling: zoom level, column and row.
#[derive(PartialEq, Eq, Structural, Hash, Debug, Clone, Copy)]
pub struct TileId {
    pub z: u32,
    pub x: u32,
    pub y: u32,
}

/// Why a byte sequence is not an encoded tile identifier.
#[derive(PartialEq, Eq, Structural, Debug, Clone, Copy)]
pub enum DecodeError {
    /// The input does not hold exactly the number of bytes required.
    InvalidLength,
    /// The backend delivered a value that carries no bytes.
    MalformedPayload,
}

/// The four big-endian bytes of `n`, most significant first.
pub open spec fn be_bytes(n: u32) -> Seq<u8> {
    seq![(n >> 24u32) as u8, (n >> 16u32) as u8, (n >> 8u32) as u8, n as u8]
}

/// The number whose big-endian bytes are `s[0..4]`.
pub open spec fn be_value(s: Seq<u8>) -> u32
    recommends
        s.len() == 4,
{
    ((s[0] as u32) << 24u32) | ((s[1] as u32) << 16u32) | ((s[2] as u32) << 8u32) | (s[3] as u32)
}

/// The canonical encoding of `t`: `z`, then `x`, then `y`, four big-endian bytes each.
pub open spec fn encoding(t: TileId) -> Seq<u8> {
    be_bytes(t.z) + be_bytes(t.x) + be_bytes(t.y)
}

/// What decoding `s` yields: a length check, then three big-endian fields in order.
pub open spec fn decoding(s: Seq<u8>) -> Result<TileId, DecodeError> {
    if s.len() != 12 {
        Err(DecodeError::InvalidLength)
    } else {
        Ok(TileId {
            z: be_value(s.subrange(0, 4)),
            x: be_value(s.subrange(4, 8)),
            y: be_value(s.subrange(8, 12)),
        })
    }
}

/// Reading back the big-endian bytes of a number gives the number.
pub proof fn lemma_be_value_of_bytes(n: u32)
    ensures
        be_value(be_bytes(n)) == n,
{
    let b0 = (n >> 24u32) as u8;
    let b1 = (n >> 16u32) as u8;
    let b2 = (n >> 8u32) as u8;
    let b3 = n as u8;
    assert(((b0 as u32) << 24u32) | ((b1 as u32) << 16u32) | ((b2 as u32) << 8u32) | (b3 as u32)
        == n) by (bit_vector)
        requires
            b0 == (n >> 24u32) as u8,
            b1 == (n >> 16u32) as u8,
            b2 == (n >> 8u32) as u8,
            b3 == n as u8,
    ;
}

/// Writing out the number that four bytes stand for gives the same four bytes.
pub proof fn lemma_be_bytes_of_value(s: Seq<u8>)
    requires
        s.len() == 4,
    ensures
        be_bytes(be_value(s)) == s,
{
    let (b0, b1, b2, b3) = (s[0], s[1], s[2], s[3]);
    let n = be_value(s);
    assert(n == ((b0 as u32) << 24u32) | ((b1 as u32) << 16u32) | ((b2 as u32) << 8u32) | (
    b3 as u32));
    assert((n >> 24u32) as u8 == b0 && (n >> 16u32) as u8 == b1 && (n >> 8u32) as u8 == b2 && n as u8
        == b3) by (bit_vector)
        requires
            n == ((b0 as u32) << 24u32) | ((b1 as u32) << 16u32) | ((b2 as u32) << 8u32) | (
            b3 as u32),
    ;
    assert(be_bytes(n) =~= s);
}

/// Every identifier encodes to exactly twelve bytes.
pub proof fn lemma_encoding_len(t: TileId)
    ensures
        encoding(t).len() == 12,
{
}

/// Decoding the encoding of any identifier gives that identifier back.
pub proof fn lemma_round_trip(t: TileId)
    ensures
        decoding(encoding(t)) == Ok::<TileId, DecodeError>(t),
{
    let s = encoding(t);
    assert(s.subrange(0, 4) =~= be_bytes(t.z));
    assert(s.subrange(4, 8) =~= be_bytes(t.x));
    assert(s.subrange(8, 12) =~= be_bytes(t.y));
    lemma_be_value_of_bytes(t.z);
    lemma_be_value_of_bytes(t.x);
    lemma_be_value_of_bytes(t.y);
}

/// Two identifiers have the same encoding only when they are equal.
pub proof fn lemma_encoding_injective(a: TileId, b: TileId)
    ensures
        encoding(a) == encoding(b) <==> a == b,
{
    lemma_round_trip(a);
    lemma_round_trip(b);
}

/// Any twelve bytes decode, and the identifier they give encodes to the same bytes.
pub proof fn lemma_decode_then_encode(s: Seq<u8>)
    requires
        s.len() == 12,
    ensures
        decoding(s) is Ok,
        encoding(decoding(s)->Ok_0) == s,
{
    lemma_be_bytes_of_value(s.subrange(0, 4));
    lemma_be_bytes_of_value(s.subrange(4, 8));
    lemma_be_bytes_of_value(s.subrange(8, 12));
    assert(encoding(decoding(s)->Ok_0) =~= s);
}

/// A byte sequence of any length other than twelve is refused for its length.
pub proof fn lemma_wrong_length_rejected(s: Seq<u8>)
    requires
        s.len() != 12,
    ensures
        decoding(s) == Err::<TileId, DecodeError>(DecodeError::InvalidLength),
{
}

/// Reads one big-endian field from exactly four bytes.
///
/// Any four bytes form a field; fewer or more are refused.
pub fn bytes_to_u32(bytes: &[u8]) -> (r: Result<u32, DecodeError>)
    ensures
        bytes@.len() == 4 ==> r == Ok::<u32, DecodeError>(be_value(bytes@)),
        bytes@.len() != 4 ==> r == Err::<u32, DecodeError>(DecodeError::InvalidLength),
{
    if bytes.len() != 4 {
        return Err(DecodeError::InvalidLength);
    }
    let n: u32 = ((bytes[0] as u32) << 24u32) | ((bytes[1] as u32) << 16u32) | ((bytes[2] as u32)
        << 8u32) | (bytes[3] as u32);
    Ok(n)
}

/// Reads the bytes `bytes[start..start + 4]` as one big-endian field.
fn field_at(bytes: &[u8], start: usize) -> (r: Result<u32, DecodeError>)
    requires
        start + 4 <= bytes@.len(),
    ensures
        r == Ok::<u32, DecodeError>(be_value(bytes@.subrange(start as int, start + 4))),
{
    let len = bytes.len();
    assert(start + 4 <= len);
    let field = slice_subrange(bytes, start, start + 4);
    bytes_to_u32(field)
}

impl TileId {
    /// Decodes a tile identifier from its twelve-byte form.
    pub fn decode(bytes: &[u8]) -> (r: Result<TileId, DecodeError>)
        ensures
            r == decoding(bytes@),
    {
        if bytes.len() != ENCODED_LEN {
            return Err(DecodeError::InvalidLength);
        }
        let z = field_at(bytes, 0)?;
        let x = field_at(bytes, 4)?;
        let y = field_at(bytes, 8)?;
        Ok(TileId { z, x, y })
    }

    /// Encodes this identifier as its twelve bytes: `z`, `x`, `y`, big-endian each.
    pub fn to_bytes(&self) -> (r: bytes::Bytes)
        ensures
            bytes_content(r) == encoding(*self),
    {
        let mut buf = buffer_with_capacity(ENCODED_LEN);
        buffer_put_u32(&mut buf, self.z);
        buffer_put_u32(&mut buf, self.x);
        buffer_put_u32(&mut buf, self.y);
        assert(bytes_mut_content(buf) =~= encoding(*self));
        buffer_freeze(buf)
    }

    /// Decodes a tile identifier from a byte buffer.
    pub fn from_bytes(value: &bytes::Bytes) -> (r: Result<TileId, DecodeError>)
        ensures
            r == decoding(bytes_content(*value)),
    {
        TileId::decode(bytes_as_slice(value))
    }
}

impl From<TileId> for bytes::Bytes {
    fn from(value: TileId) -> (r: bytes::Bytes)
        ensures
            bytes_content(r) == encoding(value),
    {
        value.to_bytes()
    }
}

// A buffer is not determined by its bytes alone, so no spec-level buffer is
// given here; the impl's own `ensures` states the bytes that `from` produces.
impl vstd::std_specs::convert::FromSpecImpl<TileId> for bytes::Bytes {
    open spec fn obeys_from_spec() -> bool {
        false
    }

    open spec fn from_spec(value: TileId) -> bytes::Bytes {
        arbitrary()
    }
}

impl TryFrom<bytes::Bytes> for TileId {
    type Error = DecodeError;

    fn try_from(value: bytes::Bytes) -> (r: Result<TileId, DecodeError>) {
        TileId::from_bytes(&value)
    }
}

impl vstd::std_specs::convert::TryFromSpecImpl<bytes::Bytes> for TileId {
    open spec fn obeys_try_from_spec() -> bool {
        true
    }

    open spec fn try_from_spec(value: bytes::Bytes) -> Result<TileId, DecodeError> {
        decoding(bytes_content(value))
    }
}

} // verus!
