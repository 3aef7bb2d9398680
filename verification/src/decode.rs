//! From the wire to the domain: one attribute-value pair becomes one typed
//! attribute, or a typed error.

use crate::address::{Ipv4Address, Ipv6Address};
use crate::attribute::{construct, result_view, Attribute, AttributeView, Payload, Value};
use crate::dictionary::{lookup, lookup_by_code};
use crate::error::ConversionError;
use crate::wire::{be_u32, read_be_u32, AttributeType, RawAvp, RawAvpView, MAX_VALUE_LEN};
use vstd::prelude::*;
use vstd::utf8::{decode_utf8, valid_utf8};

verus! {

/// Reads text from bytes with `String::from_utf8`: the text that the bytes
/// encode where they are well-formed UTF-8, `None` where they are not.
#[verifier::external_body]
fn text_from_utf8(bytes: Vec<u8>) -> (r: Option<String>)
    ensures
        r is Some <==> valid_utf8(bytes@),
        r matches Some(text) ==> text@ == decode_utf8(bytes@),
{
    String::from_utf8(bytes).ok()
}

/// What the bytes of a value mean under wire type `t`.
///
/// - Text (`String`, `Ipv6Prefix`): at most 253 bytes of well-formed UTF-8.
///   The length is judged first.
/// - A number (`Integer`, `Date`): exactly four bytes, most significant
///   first.
/// - An IPv4 address: exactly four bytes. An IPv6 address: exactly sixteen.
pub open spec fn decode_payload_spec(t: AttributeType, bytes: Seq<u8>) -> Result<
    Value,
    ConversionError,
> {
    match t {
        AttributeType::String | AttributeType::Ipv6Prefix => {
            if bytes.len() > 253 {
                Err(ConversionError::ValueLengthInvalid)
            } else if !valid_utf8(bytes) {
                Err(ConversionError::InvalidUtf8)
            } else {
                Ok(Value::Text(decode_utf8(bytes)))
            }
        },
        AttributeType::Integer | AttributeType::Date => {
            if bytes.len() != 4 {
                Err(ConversionError::ValueLengthInvalid)
            } else {
                Ok(Value::Integer(be_u32(bytes)))
            }
        },
        AttributeType::IpAddress => {
            if bytes.len() != 4 {
                Err(ConversionError::ValueLengthInvalid)
            } else {
                Ok(Value::Ipv4(bytes))
            }
        },
        AttributeType::Ipv6Addr => {
            if bytes.len() != 16 {
                Err(ConversionError::ValueLengthInvalid)
            } else {
                Ok(Value::Ipv6(bytes))
            }
        },
    }
}

/// What an attribute-value pair decodes to.
///
/// The code must be in the dictionary (`UnknownAttribute`), the declared
/// type must be the dictionary's (`TypeMismatch`), the bytes must be a value
/// of that type (`ValueLengthInvalid`, `InvalidUtf8`), and the number of an
/// enumerated attribute must be a symbol's code (`EnumValueOutOfRange`).
/// The first of these that fails decides the error.
pub open spec fn decode_spec(avp: RawAvpView) -> Result<AttributeView, ConversionError> {
    match lookup(avp.code) {
        None => Err(ConversionError::UnknownAttribute),
        Some(entry) => {
            if avp.declared_type != entry.wire_type {
                Err(ConversionError::TypeMismatch)
            } else {
                match decode_payload_spec(entry.wire_type, avp.payload) {
                    Err(e) => Err(e),
                    Ok(value) => construct(entry.kind, value),
                }
            }
        },
    }
}

/// Whether a value of wire type `t` may be `len` bytes long.
pub open spec fn length_fits(t: AttributeType, len: nat) -> bool {
    match t {
        AttributeType::String | AttributeType::Ipv6Prefix => len <= 253,
        AttributeType::Integer | AttributeType::Date | AttributeType::IpAddress => len == 4,
        AttributeType::Ipv6Addr => len == 16,
    }
}

/// Reads the bytes of a value under wire type `t`.
pub fn decode_payload(t: AttributeType, bytes: Vec<u8>) -> (r: Result<Payload, ConversionError>)
    ensures
        result_view(r) == decode_payload_spec(t, bytes@),
{
    match t {
        AttributeType::String | AttributeType::Ipv6Prefix => {
            if bytes.len() > MAX_VALUE_LEN {
                return Err(ConversionError::ValueLengthInvalid);
            }
            match text_from_utf8(bytes) {
                Some(text) => Ok(Payload::Text(text)),
                None => Err(ConversionError::InvalidUtf8),
            }
        },
        AttributeType::Integer | AttributeType::Date => {
            match read_be_u32(bytes.as_slice()) {
                Some(n) => Ok(Payload::Integer(n)),
                None => Err(ConversionError::ValueLengthInvalid),
            }
        },
        AttributeType::IpAddress => {
            match Ipv4Address::from_bytes(bytes.as_slice()) {
                Some(address) => Ok(Payload::Ipv4(address)),
                None => Err(ConversionError::ValueLengthInvalid),
            }
        },
        AttributeType::Ipv6Addr => {
            match Ipv6Address::from_bytes(bytes.as_slice()) {
                Some(address) => Ok(Payload::Ipv6(address)),
                None => Err(ConversionError::ValueLengthInvalid),
            }
        },
    }
}

/// Decodes one attribute-value pair.
///
/// The result is the attribute that [`decode_spec`] names, or the error that
/// it names. In particular a code that the dictionary does not have gives
/// `UnknownAttribute`; a declared type other than the dictionary's gives
/// `TypeMismatch`, whatever the bytes are; and with the right type, a value
/// of a length that the type does not have gives `ValueLengthInvalid`.
pub fn decode(avp: RawAvp) -> (r: Result<Attribute, ConversionError>)
    ensures
        result_view(r) == decode_spec(avp@),
        lookup(avp@.code) is None ==> r == Err::<Attribute, ConversionError>(
            ConversionError::UnknownAttribute,
        ),
        lookup(avp@.code) matches Some(entry) && entry.wire_type != avp@.declared_type ==> r
            == Err::<Attribute, ConversionError>(ConversionError::TypeMismatch),
        lookup(avp@.code) matches Some(entry) && entry.wire_type == avp@.declared_type
            && !length_fits(entry.wire_type, avp@.payload.len()) ==> r == Err::<
            Attribute,
            ConversionError,
        >(ConversionError::ValueLengthInvalid),
        r matches Ok(attribute) ==> attribute@.wf() && attribute@.kind.spec_code() == avp@.code
            && attribute@.kind.spec_wire_type() == avp@.declared_type,
{
    let RawAvp { code, declared_type, payload } = avp;
    let entry = match lookup_by_code(code) {
        Some(entry) => entry,
        None => {
            return Err(ConversionError::UnknownAttribute);
        },
    };
    if declared_type != entry.wire_type {
        return Err(ConversionError::TypeMismatch);
    }
    match decode_payload(entry.wire_type, payload) {
        Ok(value) => Attribute::new(entry.kind, value),
        Err(e) => Err(e),
    }
}

} // verus!
