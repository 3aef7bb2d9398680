//! From the domain to the wire: one typed attribute becomes one
//! attribute-value pair.

use crate::attribute::{result_view, Attribute, AttributeView, Payload, Value};
use crate::dictionary::lookup_by_variant;
use crate::error::ConversionError;
use crate::wire::{be_bytes, write_be_u32, RawAvp, RawAvpView, MAX_VALUE_LEN};
use vstd::prelude::*;
use vstd::string::StrSliceExecFns;
use vstd::utf8::encode_utf8;

verus! {

/// The bytes that carry a value.
///
/// Text is its UTF-8 encoding, which must not be longer than 253 bytes. A
/// number is four bytes, most significant first. An address is its octets.
pub open spec fn encode_payload_spec(value: Value) -> Result<Seq<u8>, ConversionError> {
    match value {
        Value::Text(text) => {
            if encode_utf8(text).len() > 253 {
                Err(ConversionError::ValueLengthInvalid)
            } else {
                Ok(encode_utf8(text))
            }
        },
        Value::Integer(n) => Ok(be_bytes(n)),
        Value::Ipv4(octets) => Ok(octets),
        Value::Ipv6(octets) => Ok(octets),
    }
}

/// What an attribute encodes to: the code and the wire type of its line in
/// the dictionary, and the bytes of its value.
pub open spec fn encode_spec(attribute: AttributeView) -> Result<RawAvpView, ConversionError> {
    match encode_payload_spec(attribute.value) {
        Err(e) => Err(e),
        Ok(payload) => Ok(
            RawAvpView {
                code: attribute.kind.spec_code(),
                declared_type: attribute.kind.spec_wire_type(),
                payload,
            },
        ),
    }
}

/// A result with its bytes seen as a sequence.
pub open spec fn bytes_view(r: Result<Vec<u8>, ConversionError>) -> Result<
    Seq<u8>,
    ConversionError,
> {
    match r {
        Ok(bytes) => Ok(bytes@),
        Err(e) => Err(e),
    }
}

/// Writes a value as the bytes that carry it.
pub fn encode_payload(payload: Payload) -> (r: Result<Vec<u8>, ConversionError>)
    ensures
        bytes_view(r) == encode_payload_spec(payload@),
{
    match payload {
        Payload::Text(text) => {
            let bytes = text.as_str().as_bytes_vec();
            if bytes.len() > MAX_VALUE_LEN {
                Err(ConversionError::ValueLengthInvalid)
            } else {
                Ok(bytes)
            }
        },
        Payload::Integer(n) => Ok(write_be_u32(n)),
        Payload::Ipv4(address) => Ok(address.to_vec()),
        Payload::Ipv6(address) => Ok(address.to_vec()),
    }
}

/// Encodes one attribute.
///
/// The only failure is text whose UTF-8 encoding is longer than 253 bytes,
/// which gives `ValueLengthInvalid`; every other attribute encodes.
pub fn encode(attribute: Attribute) -> (r: Result<RawAvp, ConversionError>)
    ensures
        result_view(r) == encode_spec(attribute@),
        r is Err <==> (attribute@.value matches Value::Text(text) && encode_utf8(text).len()
            > 253),
        r matches Err(e) ==> e == ConversionError::ValueLengthInvalid,
{
    let entry = lookup_by_variant(attribute.kind());
    match encode_payload(attribute.into_payload()) {
        Ok(payload) => Ok(RawAvp { code: entry.code, declared_type: entry.wire_type, payload }),
        Err(e) => Err(e),
    }
}

} // verus!
