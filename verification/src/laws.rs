//! What holds of encoding and decoding together.

use crate::attribute::{Attribute, AttributeView, Value};
use crate::decode::{decode_payload_spec, decode_spec, length_fits};
use crate::dictionary::{lookup, AttributeKind};
use crate::encode::{encode_payload_spec, encode_spec};
use crate::error::ConversionError;
use crate::sequence::{all_encode, encoded, failures, successes};
use crate::wire::{lemma_be_bytes_round_trip, lemma_be_value_round_trip, RawAvpView};
use vstd::prelude::*;
use vstd::utf8::{
    decode_utf8_encode_utf8, encode_utf8_decode_utf8, encode_utf8_valid_utf8,
};

verus! {

/// Reading the bytes that a value was written as gives the value back, under
/// every wire type that carries values of its shape.
pub proof fn lemma_payload_round_trip(value: Value, kind: AttributeKind)
    requires
        (AttributeView { kind, value }).wf(),
    ensures
        encode_payload_spec(value) matches Ok(bytes) ==> decode_payload_spec(
            kind.spec_wire_type(),
            bytes,
        ) == Ok::<Value, ConversionError>(value),
{
    match value {
        Value::Text(text) => {
            encode_utf8_valid_utf8(text);
            encode_utf8_decode_utf8(text);
        },
        Value::Integer(n) => {
            lemma_be_value_round_trip(n);
        },
        Value::Ipv4(_) => {},
        Value::Ipv6(_) => {},
    }
}

/// Round trip, on mathematical values: an attribute that encodes decodes
/// from its pair to itself.
pub proof fn lemma_round_trip_view(attribute: AttributeView)
    requires
        attribute.wf(),
    ensures
        encode_spec(attribute) matches Ok(avp) ==> decode_spec(avp) == Ok::<
            AttributeView,
            ConversionError,
        >(attribute),
{
    AttributeKind::lemma_from_code_of_code(attribute.kind);
    lemma_payload_round_trip(attribute.value, attribute.kind);
}

/// Round trip: for every attribute that encodes, decoding what it encodes to
/// gives the attribute back.
pub proof fn lemma_round_trip(attribute: Attribute)
    ensures
        encode_spec(attribute@) matches Ok(avp) ==> decode_spec(avp) == Ok::<
            AttributeView,
            ConversionError,
        >(attribute@),
{
    attribute.lemma_view_wf();
    lemma_round_trip_view(attribute@);
}

/// The other way round: a pair that decodes is what its attribute encodes
/// to, byte for byte.
pub proof fn lemma_decode_then_encode(avp: RawAvpView)
    ensures
        decode_spec(avp) matches Ok(attribute) ==> attribute.wf() && encode_spec(attribute) == Ok::<
            RawAvpView,
            ConversionError,
        >(avp),
{
    if let Ok(attribute) = decode_spec(avp) {
        AttributeKind::lemma_code_of_from_code(avp.code);
        match attribute.value {
            Value::Text(_) => {
                decode_utf8_encode_utf8(avp.payload);
            },
            Value::Integer(_) => {
                lemma_be_bytes_round_trip(avp.payload);
            },
            Value::Ipv4(_) => {},
            Value::Ipv6(_) => {},
        }
    }
}

/// Type safety: a pair whose declared type is not the one that the
/// dictionary has for its code never decodes; the error is `TypeMismatch`.
pub proof fn lemma_type_safety(avp: RawAvpView)
    requires
        lookup(avp.code) matches Some(entry) && entry.wire_type != avp.declared_type,
    ensures
        decode_spec(avp) == Err::<AttributeView, ConversionError>(ConversionError::TypeMismatch),
{
}

/// Length validation: with the right declared type, a value whose length
/// the type does not have never decodes; the error is `ValueLengthInvalid`.
/// So it is for a number of three or five bytes, and for text of 254 bytes
/// or more.
pub proof fn lemma_length_validation(avp: RawAvpView)
    requires
        lookup(avp.code) matches Some(entry) && entry.wire_type == avp.declared_type
            && !length_fits(entry.wire_type, avp.payload.len()),
    ensures
        decode_spec(avp) == Err::<AttributeView, ConversionError>(
            ConversionError::ValueLengthInvalid,
        ),
{
}

/// A code that the dictionary does not have never decodes; the error is
/// `UnknownAttribute`.
pub proof fn lemma_unknown_code(avp: RawAvpView)
    requires
        forall|kind: AttributeKind| kind.spec_code() != avp.code,
    ensures
        decode_spec(avp) == Err::<AttributeView, ConversionError>(
            ConversionError::UnknownAttribute,
        ),
{
    AttributeKind::lemma_code_of_from_code(avp.code);
    if let Some(kind) = AttributeKind::spec_from_code(avp.code) {
        assert(kind.spec_code() == avp.code);
    }
}

/// Round trip of sequences: where every attribute encodes, decoding the
/// pairs gives no failure and the attributes back, in their order.
pub proof fn lemma_sequence_round_trip(attributes: Seq<AttributeView>)
    requires
        forall|i: int| 0 <= i < attributes.len() ==> (#[trigger] attributes[i]).wf(),
        all_encode(attributes),
    ensures
        failures(encoded(attributes)).len() == 0,
        successes(encoded(attributes)) == attributes,
    decreases attributes.len(),
{
    let avps = encoded(attributes);
    if attributes.len() == 0 {
        assert(successes(avps) =~= attributes);
    } else {
        let before = attributes.drop_last();
        assert forall|i: int| 0 <= i < before.len() implies (#[trigger] before[i]).wf()
            && encode_spec(before[i]) is Ok by {
            assert(before[i] == attributes[i]);
        }
        lemma_sequence_round_trip(before);
        assert(avps.drop_last() =~= encoded(before));
        lemma_round_trip_view(attributes.last());
        assert(successes(avps) =~= attributes);
    }
}

} // verus!
