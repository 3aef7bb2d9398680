//! The wire-level unit: an attribute-value pair as it is split out of a
//! packet body, its type tag, and the big-endian integer layout.

use vstd::prelude::*;

verus! {

/// Longest value that one attribute-value pair can carry, in bytes.
pub const MAX_VALUE_LEN: usize = 253;

/// Length of an integer, date or IPv4 value, in bytes.
pub const INTEGER_LEN: usize = 4;

/// Length of an IPv6 value, in bytes.
pub const IPV6_LEN: usize = 16;

/// The tag that says how the bytes of a value are to be read.
#[derive(Debug, Clone, Copy, PartialEq, Eq, Hash, Structural)]
pub enum AttributeType {
    /// UTF-8 text of at most [`MAX_VALUE_LEN`] bytes.
    String,
    /// A 32-bit unsigned integer, most significant byte first.
    Integer,
    /// An IPv4 address, four bytes in network order.
    IpAddress,
    /// Seconds since the epoch, laid out as an [`AttributeType::Integer`].
    Date,
    /// An IPv6 address, sixteen bytes in network order.
    Ipv6Addr,
    /// An IPv6 prefix, carried through as text without looking inside.
    Ipv6Prefix,
}

impl AttributeType {
    /// The number that stands for a tag.
    pub open spec fn spec_to_u32(self) -> u32 {
        match self {
            AttributeType::String => 0,
            AttributeType::Integer => 1,
            AttributeType::IpAddress => 2,
            AttributeType::Date => 3,
            AttributeType::Ipv6Addr => 4,
            AttributeType::Ipv6Prefix => 5,
        }
    }

    /// The tag that a number stands for, if it stands for one.
    pub open spec fn spec_from_u32(n: u32) -> Option<AttributeType> {
        if n == 0 {
            Some(AttributeType::String)
        } else if n == 1 {
            Some(AttributeType::Integer)
        } else if n == 2 {
            Some(AttributeType::IpAddress)
        } else if n == 3 {
            Some(AttributeType::Date)
        } else if n == 4 {
            Some(AttributeType::Ipv6Addr)
        } else if n == 5 {
            Some(AttributeType::Ipv6Prefix)
        } else {
            None
        }
    }

    /// The number that stands for this tag.
    #[verifier::when_used_as_spec(spec_to_u32)]
    pub fn to_u32(self) -> (r: u32)
        ensures
            r == self.spec_to_u32(),
    {
        match self {
            AttributeType::String => 0,
            AttributeType::Integer => 1,
            AttributeType::IpAddress => 2,
            AttributeType::Date => 3,
            AttributeType::Ipv6Addr => 4,
            AttributeType::Ipv6Prefix => 5,
        }
    }

    /// The tag that `n` stands for; `None` for every other number.
    pub fn from_u32(n: u32) -> (r: Option<AttributeType>)
        ensures
            r == AttributeType::spec_from_u32(n),
            r matches Some(t) ==> t.spec_to_u32() == n,
            r is None ==> forall|t: AttributeType| t.spec_to_u32() != n,
    {
        if n == 0 {
            Some(AttributeType::String)
        } else if n == 1 {
            Some(AttributeType::Integer)
        } else if n == 2 {
            Some(AttributeType::IpAddress)
        } else if n == 3 {
            Some(AttributeType::Date)
        } else if n == 4 {
            Some(AttributeType::Ipv6Addr)
        } else if n == 5 {
            Some(AttributeType::Ipv6Prefix)
        } else {
            None
        }
    }

    /// The tag that a signed number stands for; `None` for a negative number
    /// and for every number that is no tag.
    pub fn from_i32(n: i32) -> (r: Option<AttributeType>)
        ensures
            n < 0 ==> r is None,
            n >= 0 ==> r == AttributeType::spec_from_u32(n as u32),
    {
        if n < 0 {
            None
        } else {
            AttributeType::from_u32(n as u32)
        }
    }

    /// Whether a value of this type is text.
    pub open spec fn is_text(self) -> bool {
        self is String || self is Ipv6Prefix
    }

    /// Whether a value of this type is a 32-bit number.
    pub open spec fn is_number(self) -> bool {
        self is Integer || self is Date
    }

    /// Every tag is found again from its number.
    pub proof fn lemma_from_to(t: AttributeType)
        ensures
            AttributeType::spec_from_u32(t.spec_to_u32()) == Some(t),
    {
    }

    /// A number stands for a tag only if it is that tag's number.
    pub proof fn lemma_to_from(n: u32)
        ensures
            match AttributeType::spec_from_u32(n) {
                Some(t) => t.spec_to_u32() == n,
                None => forall|t: AttributeType| t.spec_to_u32() != n,
            },
    {
    }
}

/// The number that four bytes spell, most significant byte first.
pub open spec fn be_u32(bytes: Seq<u8>) -> u32
    recommends
        bytes.len() == 4,
{
    (bytes[0] * 0x100_0000 + bytes[1] * 0x1_0000 + bytes[2] * 0x100 + bytes[3]) as u32
}

/// The four bytes that spell a number, most significant byte first.
pub open spec fn be_bytes(n: u32) -> Seq<u8> {
    seq![
        (n / 0x100_0000) as u8,
        (n / 0x1_0000 % 0x100) as u8,
        (n / 0x100 % 0x100) as u8,
        (n % 0x100) as u8,
    ]
}

/// Spelling a number and reading it back gives the number.
pub proof fn lemma_be_value_round_trip(n: u32)
    ensures
        be_bytes(n).len() == 4,
        be_u32(be_bytes(n)) == n,
{
    let d0: u32 = n / 0x100_0000;
    let d1: u32 = n / 0x1_0000 % 0x100;
    let d2: u32 = n / 0x100 % 0x100;
    let d3: u32 = n % 0x100;
    assert(d0 < 0x100 && d1 < 0x100 && d2 < 0x100 && d3 < 0x100 && d0 * 0x100_0000 + d1 * 0x1_0000
        + d2 * 0x100 + d3 == n) by (bit_vector)
        requires
            d0 == n / 0x100_0000,
            d1 == n / 0x1_0000 % 0x100,
            d2 == n / 0x100 % 0x100,
            d3 == n % 0x100,
    ;
}

/// Reading four bytes and spelling the number gives the bytes.
pub proof fn lemma_be_bytes_round_trip(bytes: Seq<u8>)
    requires
        bytes.len() == 4,
    ensures
        be_bytes(be_u32(bytes)) == bytes,
{
    let d0: u32 = bytes[0] as u32;
    let d1: u32 = bytes[1] as u32;
    let d2: u32 = bytes[2] as u32;
    let d3: u32 = bytes[3] as u32;
    let n: u32 = be_u32(bytes);
    assert(n == d0 * 0x100_0000 + d1 * 0x1_0000 + d2 * 0x100 + d3);
    assert(n / 0x100_0000 == d0 && n / 0x1_0000 % 0x100 == d1 && n / 0x100 % 0x100 == d2 && n
        % 0x100 == d3) by (bit_vector)
        requires
            d0 < 0x100 && d1 < 0x100 && d2 < 0x100 && d3 < 0x100,
            n == d0 * 0x100_0000 + d1 * 0x1_0000 + d2 * 0x100 + d3,
    ;
    assert(be_bytes(n) =~= bytes);
}

/// Reads a big-endian 32-bit number from exactly four bytes.
pub fn read_be_u32(bytes: &[u8]) -> (r: Option<u32>)
    ensures
        bytes@.len() == 4 ==> r == Some(be_u32(bytes@)),
        bytes@.len() != 4 ==> r is None,
{
    if bytes.len() != INTEGER_LEN {
        return None;
    }
    let b0: u32 = bytes[0] as u32;
    let b1: u32 = bytes[1] as u32;
    let b2: u32 = bytes[2] as u32;
    let b3: u32 = bytes[3] as u32;
    Some(b0 * 0x100_0000 + b1 * 0x1_0000 + b2 * 0x100 + b3)
}

/// Writes a 32-bit number as four bytes, most significant byte first.
pub fn write_be_u32(n: u32) -> (r: Vec<u8>)
    ensures
        r@ == be_bytes(n),
{
    let mut out: Vec<u8> = Vec::new();
    out.push((n / 0x100_0000) as u8);
    out.push((n / 0x1_0000 % 0x100) as u8);
    out.push((n / 0x100 % 0x100) as u8);
    out.push((n % 0x100) as u8);
    assert(out@ =~= be_bytes(n));
    out
}

/// One attribute-value pair as the transport hands it over: the attribute's
/// code, the type that the sender declared, and the bytes of the value.
#[derive(Debug, Clone, PartialEq, Eq)]
pub struct RawAvp {
    /// The attribute's numeric code.
    pub code: u32,
    /// The wire type that the value is declared to have.
    pub declared_type: AttributeType,
    /// The bytes of the value, without the two header bytes.
    pub payload: Vec<u8>,
}

/// What a [`RawAvp`] holds, as mathematical values.
pub struct RawAvpView {
    pub code: u32,
    pub declared_type: AttributeType,
    pub payload: Seq<u8>,
}

impl View for RawAvp {
    type V = RawAvpView;

    open spec fn view(&self) -> RawAvpView {
        RawAvpView { code: self.code, declared_type: self.declared_type, payload: self.payload@ }
    }
}

impl RawAvp {
    /// Puts the three parts together.
    pub fn new(code: u32, declared_type: AttributeType, payload: Vec<u8>) -> (r: RawAvp)
        ensures
            r@ == (RawAvpView { code, declared_type, payload: payload@ }),
    {
        RawAvp { code, declared_type, payload }
    }
}

} // verus!
