//! A codec between typed RADIUS attributes and the attribute-value pairs
//! that carry them on the wire.
//!
//! [`decode`] turns one [`RawAvp`] into one [`Attribute`]; [`encode`] goes
//! back. Both go by a fixed [dictionary](crate::dictionary) that gives each
//! attribute its numeric code and the wire type of its value. Nothing here
//! does I/O or keeps state: every function is a function of its arguments.
//!
//! Every conversion states what it returns over a mathematical model of its
//! arguments ([`AttributeView`], [`RawAvpView`]); [`laws`] holds what is
//! proved of the two directions together, the round trip above all.
//!
//! - [`wire`]: the wire type tag, the raw pair, big-endian numbers
//! - [`values`]: the closed value sets of the enumerated attributes
//! - [`address`]: IPv4 and IPv6 addresses
//! - [`dictionary`]: codes, wire types, lookup in both directions
//! - [`attribute`]: the attributes and their values
//! - [`decode`], [`encode`]: one pair at a time
//! - [`sequence`]: whole sequences, in order
//! - [`error`]: the ways to fail

pub mod address;
pub mod attribute;
pub mod decode;
pub mod dictionary;
pub mod encode;
pub mod error;
pub mod laws;
pub mod sequence;
pub mod values;
pub mod wire;

pub use address::{Ipv4Address, Ipv6Address};
pub use attribute::{Attribute, AttributeView, Payload, Value};
pub use decode::{decode, decode_payload};
pub use dictionary::{
    entries, lookup_by_code, lookup_by_variant, AttributeKind, DictionaryEntry,
};
pub use encode::{encode, encode_payload};
pub use error::ConversionError;
pub use sequence::{
    decode_collect, decode_fail_fast, decode_sequence, encode_sequence, DecodeMode, DecodedSequence,
};
pub use values::{
    AccountTerminationCause, Authentic, CompressionType, LoginService, NasPortType,
    ProhibitProtocol, Protocol, RoutingValue, ServiceType, StatusType, TerminationAction,
};
pub use wire::{AttributeType, RawAvp, RawAvpView};
