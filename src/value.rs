//! Typed values: a tag plus the canonical bytes for that tag.

use vstd::bytes::{
    lemma_auto_spec_u64_to_from_le_bytes, spec_u64_from_le_bytes, spec_u64_to_le_bytes,
    u64_from_le_bytes, u64_to_le_bytes,
};
use vstd::prelude::*;
use vstd::utf8::{decode_utf8, encode_utf8, encode_utf8_decode_utf8, encode_utf8_valid_utf8, valid_utf8};

verus! {

/// The logical type of a stored value.
#[derive(Clone, Copy, Debug, PartialEq, Eq, Structural)]
pub enum DataType {
    String,
    Int,
    Float,
    Bool,
}

/// A stored value: its tag and the canonical encoding of the value under it.
///
/// Integers and floats are both eight bytes in little-endian order, so the
/// tag, not the bytes, says which of the two a value is.
#[derive(Clone, Debug)]
pub struct DbValue {
    pub typetag: DataType,
    pub data: Vec<u8>,
}

impl View for DbValue {
    type V = (DataType, Seq<u8>);

    open spec fn view(&self) -> (DataType, Seq<u8>) {
        (self.typetag, self.data@)
    }
}

/// Why a value that carries the right tag could still not be decoded.
#[derive(Clone, Copy, Debug, PartialEq, Eq, Structural)]
pub enum DecodeError {
    /// The payload of a string value is not valid UTF-8.
    MalformedUtf8,
}

/// The encoding of a text: its UTF-8 bytes.
pub open spec fn string_bytes(s: Seq<char>) -> Seq<u8> {
    encode_utf8(s)
}

/// The encoding of a 64-bit integer: its two's-complement bits, little-endian.
pub open spec fn int_bytes(i: i64) -> Seq<u8> {
    spec_u64_to_le_bytes(i as u64)
}

/// The encoding of a float given by its IEEE-754 bit pattern.
pub open spec fn float_bytes(bits: u64) -> Seq<u8> {
    spec_u64_to_le_bytes(bits)
}

/// The encoding of a boolean: one byte, 1 for true and 0 for false.
pub open spec fn bool_bytes(b: bool) -> Seq<u8> {
    if b {
        seq![1u8]
    } else {
        seq![0u8]
    }
}

/// What the string accessor yields: nothing under another tag, else the text
/// or the report that the bytes are not UTF-8.
pub open spec fn decode_string(v: (DataType, Seq<u8>)) -> Option<
    Result<Seq<char>, DecodeError>,
> {
    if v.0 != DataType::String {
        None
    } else if valid_utf8(v.1) {
        Some(Ok(decode_utf8(v.1)))
    } else {
        Some(Err(DecodeError::MalformedUtf8))
    }
}

/// What the integer accessor yields: a value only for the integer tag with
/// an eight-byte payload.
pub open spec fn decode_int(v: (DataType, Seq<u8>)) -> Option<i64> {
    if v.0 == DataType::Int && v.1.len() == 8 {
        Some(spec_u64_from_le_bytes(v.1) as i64)
    } else {
        None
    }
}

/// What the float accessor yields, as an IEEE-754 bit pattern: a value only
/// for the float tag with an eight-byte payload.
pub open spec fn decode_float_bits(v: (DataType, Seq<u8>)) -> Option<u64> {
    if v.0 == DataType::Float && v.1.len() == 8 {
        Some(spec_u64_from_le_bytes(v.1))
    } else {
        None
    }
}

/// What the boolean accessor yields: a value only for the boolean tag with a
/// non-empty payload, true when its first byte is not zero.
pub open spec fn decode_bool(v: (DataType, Seq<u8>)) -> Option<bool> {
    if v.0 == DataType::Bool && v.1.len() > 0 {
        Some(v.1[0] != 0)
    } else {
        None
    }
}

/// Round trip: a value decoded under the tag it was built with gives back
/// exactly what it was built from, for each of the four tags.
pub proof fn lemma_round_trip(v: (DataType, Seq<u8>), s: Seq<char>, i: i64, bits: u64, b: bool)
    ensures
        v.0 == DataType::String && v.1 == string_bytes(s) ==> decode_string(v) == Some(
            Ok::<Seq<char>, DecodeError>(s),
        ),
        v.0 == DataType::Int && v.1 == int_bytes(i) ==> decode_int(v) == Some(i),
        v.0 == DataType::Float && v.1 == float_bytes(bits) ==> decode_float_bits(v)
            == Some(bits),
        v.0 == DataType::Bool && v.1 == bool_bytes(b) ==> decode_bool(v) == Some(b),
{
    lemma_auto_spec_u64_to_from_le_bytes();
    assert((i as u64) as i64 == i) by (bit_vector);
    encode_utf8_valid_utf8(s);
    encode_utf8_decode_utf8(s);
}

/// Tag isolation: every accessor but the one of a value's own tag yields no
/// value.
pub proof fn lemma_tag_isolation(v: (DataType, Seq<u8>))
    ensures
        v.0 != DataType::String ==> decode_string(v) is None,
        v.0 != DataType::Int ==> decode_int(v) is None,
        v.0 != DataType::Float ==> decode_float_bits(v) is None,
        v.0 != DataType::Bool ==> decode_bool(v) is None,
{
}

/// Copies a byte slice into a fresh vector.
fn bytes_to_vec(b: &[u8]) -> (r: Vec<u8>)
    ensures
        r@ == b@,
{
    let mut r: Vec<u8> = Vec::new();
    let mut i: usize = 0;
    while i < b.len()
        invariant
            i <= b@.len(),
            r@ == b@.subrange(0, i as int),
        decreases b@.len() - i,
    {
        r.push(b[i]);
        i = i + 1;
    }
    assert(r@ =~= b@);
    r
}

/// Relies on String::from_utf8: it succeeds exactly on valid UTF-8, and then
/// holds the characters that the bytes encode.
#[verifier::external_body]
fn utf8_to_string(b: Vec<u8>) -> (r: Option<String>)
    ensures
        r is Some <==> valid_utf8(b@),
        r matches Some(s) ==> s@ == decode_utf8(b@),
{
    String::from_utf8(b).ok()
}

impl DbValue {
    /// A string value holding the UTF-8 bytes of `s`.
    pub fn from_str(s: &str) -> (r: DbValue)
        ensures
            r.typetag == DataType::String,
            r.data@ == string_bytes(s@),
    {
        DbValue { typetag: DataType::String, data: bytes_to_vec(s.as_bytes()) }
    }

    /// An integer value holding the eight bytes of `i`.
    pub fn from_i64(i: i64) -> (r: DbValue)
        ensures
            r.typetag == DataType::Int,
            r.data@ == int_bytes(i),
    {
        DbValue { typetag: DataType::Int, data: u64_to_le_bytes(i as u64) }
    }

    /// A float value holding the eight bytes of the IEEE-754 bit pattern `bits`.
    pub fn from_float_bits(bits: u64) -> (r: DbValue)
        ensures
            r.typetag == DataType::Float,
            r.data@ == float_bytes(bits),
    {
        DbValue { typetag: DataType::Float, data: u64_to_le_bytes(bits) }
    }

    /// A boolean value holding one byte.
    pub fn from_bool(b: bool) -> (r: DbValue)
        ensures
            r.typetag == DataType::Bool,
            r.data@ == bool_bytes(b),
    {
        let byte: u8 = if b {
            1
        } else {
            0
        };
        DbValue { typetag: DataType::Bool, data: vec![byte] }
    }

    /// The text of a string value; `None` under any other tag.
    pub fn as_string(&self) -> (r: Option<Result<String, DecodeError>>)
        ensures
            r is None <==> decode_string(self@) is None,
            r matches Some(Ok(s)) ==> decode_string(self@) == Some(
                Ok::<Seq<char>, DecodeError>(s@),
            ),
            r matches Some(Err(e)) ==> decode_string(self@) == Some(
                Err::<Seq<char>, DecodeError>(e),
            ),
    {
        if self.typetag == DataType::String {
            match utf8_to_string(self.data.clone()) {
                Some(s) => Some(Ok(s)),
                None => Some(Err(DecodeError::MalformedUtf8)),
            }
        } else {
            None
        }
    }

    /// The integer held by an integer value; `None` under any other tag.
    pub fn as_int(&self) -> (r: Option<i64>)
        ensures
            r == decode_int(self@),
    {
        if self.typetag == DataType::Int && self.data.len() == 8 {
            Some(u64_from_le_bytes(self.data.as_slice()) as i64)
        } else {
            None
        }
    }

    /// The IEEE-754 bit pattern held by a float value; `None` under any other tag.
    pub fn as_float_bits(&self) -> (r: Option<u64>)
        ensures
            r == decode_float_bits(self@),
    {
        if self.typetag == DataType::Float && self.data.len() == 8 {
            Some(u64_from_le_bytes(self.data.as_slice()))
        } else {
            None
        }
    }

    /// The boolean held by a boolean value; `None` under any other tag.
    pub fn as_bool(&self) -> (r: Option<bool>)
        ensures
            r == decode_bool(self@),
    {
        if self.typetag == DataType::Bool && self.data.len() > 0 {
            Some(self.data[0] != 0)
        } else {
            None
        }
    }
}

} // verus!
