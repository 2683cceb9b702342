//! The wire encoding of the remote chain's messages: fields in the order of their numbers,
//! each a key, and for strings, bytes and embedded messages a length before the content.
//! A field that holds the default of its type (the empty string, no bytes, zero) is left out.

use vstd::prelude::*;
use vstd::utf8::encode_utf8;

verus! {

/// The wire type of a field that is one variable-length integer.
pub const WIRE_VARINT: u32 = 0;

/// The wire type of a field that is a length and then as many bytes.
pub const WIRE_LENGTH_DELIMITED: u32 = 2;

/// The greatest field number.
pub const MAX_TAG: u32 = 0x1FFF_FFFF;

/// A number in base 128, the lowest digit first, each byte but the last with its top bit set.
pub open spec fn varint(value: nat) -> Seq<u8>
    decreases value,
{
    if value < 0x80 {
        seq![value as u8]
    } else {
        seq![(value % 0x80 + 0x80) as u8] + varint(value / 0x80)
    }
}

/// The key of a field: its number and its wire type in one variable-length integer.
pub open spec fn field_key(tag: u32, wire_type: u32) -> Seq<u8> {
    varint((tag * 8 + wire_type) as nat)
}

/// A field that is a length and then as many bytes.
pub open spec fn length_delimited(tag: u32, content: Seq<u8>) -> Seq<u8> {
    field_key(tag, WIRE_LENGTH_DELIMITED) + varint(content.len()) + content
}

/// A string field: left out where the string is empty.
pub open spec fn string_field(tag: u32, value: Seq<char>) -> Seq<u8> {
    if value.len() == 0 {
        Seq::empty()
    } else {
        length_delimited(tag, encode_utf8(value))
    }
}

/// A bytes field: left out where there are no bytes.
pub open spec fn bytes_field(tag: u32, value: Seq<u8>) -> Seq<u8> {
    if value.len() == 0 {
        Seq::empty()
    } else {
        length_delimited(tag, value)
    }
}

/// An unsigned integer field: left out where the number is zero.
pub open spec fn uint64_field(tag: u32, value: u64) -> Seq<u8> {
    if value == 0 {
        Seq::empty()
    } else {
        field_key(tag, WIRE_VARINT) + varint(value as nat)
    }
}

/// An embedded message field: left out where there is no message, present even where the
/// message is empty.
pub open spec fn message_field(tag: u32, encoded: Option<Seq<u8>>) -> Seq<u8> {
    match encoded {
        Some(content) => length_delimited(tag, content),
        None => Seq::empty(),
    }
}

/// The decimal digit `d`.
pub open spec fn digit(d: nat) -> char {
    if d == 0 {
        '0'
    } else if d == 1 {
        '1'
    } else if d == 2 {
        '2'
    } else if d == 3 {
        '3'
    } else if d == 4 {
        '4'
    } else if d == 5 {
        '5'
    } else if d == 6 {
        '6'
    } else if d == 7 {
        '7'
    } else if d == 8 {
        '8'
    } else {
        '9'
    }
}

/// A number in decimal digits, without sign and without leading zeros.
pub open spec fn decimal(value: nat) -> Seq<char>
    decreases value,
{
    if value < 10 {
        seq![digit(value)]
    } else {
        decimal(value / 10).push(digit(value % 10))
    }
}

/// Appends a string field to `buf` with `prost::encoding::string::encode`, which writes the
/// key of a length-delimited field numbered `tag`, the length of the string's UTF-8 bytes as
/// a variable-length integer, and the bytes; it writes the field for an empty string too.
/// Field numbers outside the protocol's range are left out, as the function asserts the range.
#[verifier::external_body]
pub(crate) fn encode_string(tag: u32, value: &String, buf: &mut Vec<u8>)
    requires
        1 <= tag <= MAX_TAG,
    ensures
        final(buf)@ == old(buf)@ + length_delimited(tag, encode_utf8(value@)),
{
    prost::encoding::string::encode(tag, value, buf)
}

/// Appends a bytes field to `buf` with `prost::encoding::bytes::encode`, which writes the key
/// of a length-delimited field numbered `tag`, the number of bytes as a variable-length
/// integer, and the bytes; it writes the field for no bytes too. Field numbers outside the
/// protocol's range are left out, as the function asserts the range.
#[verifier::external_body]
pub(crate) fn encode_bytes(tag: u32, value: &Vec<u8>, buf: &mut Vec<u8>)
    requires
        1 <= tag <= MAX_TAG,
    ensures
        final(buf)@ == old(buf)@ + length_delimited(tag, value@),
{
    prost::encoding::bytes::encode(tag, value, buf)
}

/// Appends an unsigned integer field to `buf` with `prost::encoding::uint64::encode`, which
/// writes the key of a variable-length integer field numbered `tag` and the number; it writes
/// the field for zero too. Field numbers outside the protocol's range are left out, as the
/// function asserts the range.
#[verifier::external_body]
pub(crate) fn encode_uint64(tag: u32, value: u64, buf: &mut Vec<u8>)
    requires
        1 <= tag <= MAX_TAG,
    ensures
        final(buf)@ == old(buf)@ + field_key(tag, WIRE_VARINT) + varint(value as nat),
{
    prost::encoding::uint64::encode(tag, &value, buf)
}

/// Encodes `prost_types::Any` with `prost::Message::encode_to_vec`: the type's name as string
/// field 1, the value as bytes field 2, each left out where it is empty.
#[verifier::external_body]
pub(crate) fn encode_any(type_url: &String, value: &Vec<u8>) -> (r: Vec<u8>)
    ensures
        r@ == string_field(1, type_url@) + bytes_field(2, value@),
{
    let any = prost_types::Any { type_url: type_url.clone(), value: value.clone() };
    prost::Message::encode_to_vec(&any)
}

/// Writes a token quantity as `cosmwasm_std::Uint128` displays it: in decimal digits, without
/// sign and without leading zeros.
#[verifier::external_body]
pub(crate) fn decimal_string(value: u128) -> (r: String)
    ensures
        r@ == decimal(value as nat),
{
    cosmwasm_std::Uint128::new(value).to_string()
}

/// Appends a string field, left out where the string is empty.
pub fn put_string(tag: u32, value: &String, buf: &mut Vec<u8>)
    requires
        1 <= tag <= MAX_TAG,
    ensures
        final(buf)@ == old(buf)@ + string_field(tag, value@),
{
    if !value.as_str().is_empty() {
        encode_string(tag, value, buf);
    } else {
        assert(buf@ =~= old(buf)@ + Seq::<u8>::empty());
    }
}

/// Appends an unsigned integer field, left out where the number is zero.
pub fn put_uint64(tag: u32, value: u64, buf: &mut Vec<u8>)
    requires
        1 <= tag <= MAX_TAG,
    ensures
        final(buf)@ == old(buf)@ + uint64_field(tag, value),
{
    if value != 0 {
        encode_uint64(tag, value, buf);
        assert(buf@ =~= old(buf)@ + uint64_field(tag, value));
    } else {
        assert(buf@ =~= old(buf)@ + Seq::<u8>::empty());
    }
}

/// Appends an embedded message field, left out where there is no message.
pub fn put_message(tag: u32, encoded: &Option<Vec<u8>>, buf: &mut Vec<u8>)
    requires
        1 <= tag <= MAX_TAG,
    ensures
        final(buf)@ == old(buf)@ + message_field(
            tag,
            match encoded {
                Some(content) => Some(content@),
                None => None,
            },
        ),
{
    match encoded {
        Some(content) => {
            encode_bytes(tag, content, buf);
        },
        None => {
            assert(buf@ =~= old(buf)@ + Seq::<u8>::empty());
        },
    }
}

} // verus!
