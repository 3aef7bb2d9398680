//! Internet addresses as the attributes carry them: a fixed number of octets
//! in network order.

use crate::wire::{be_bytes, be_u32, IPV6_LEN};
use vstd::prelude::*;

verus! {

/// An IPv4 address: four octets, the first being the most significant.
#[derive(Debug, Clone, Copy, PartialEq, Eq, Hash)]
pub struct Ipv4Address {
    pub octets: [u8; 4],
}

impl View for Ipv4Address {
    type V = Seq<u8>;

    open spec fn view(&self) -> Seq<u8> {
        self.octets@
    }
}

impl Ipv4Address {
    /// The address `a.b.c.d`.
    pub fn new(a: u8, b: u8, c: u8, d: u8) -> (r: Ipv4Address)
        ensures
            r@ == seq![a, b, c, d],
    {
        let r = Ipv4Address { octets: [a, b, c, d] };
        assert(r@ =~= seq![a, b, c, d]);
        r
    }

    /// The address that `bytes` spell, which must be exactly four.
    pub fn from_bytes(bytes: &[u8]) -> (r: Option<Ipv4Address>)
        ensures
            bytes@.len() == 4 ==> (r matches Some(a) && a@ == bytes@),
            bytes@.len() != 4 ==> r is None,
    {
        if bytes.len() != 4 {
            return None;
        }
        let r = Ipv4Address { octets: [bytes[0], bytes[1], bytes[2], bytes[3]] };
        assert(r@ =~= bytes@);
        Some(r)
    }

    /// The four octets, in network order.
    pub fn to_vec(&self) -> (r: Vec<u8>)
        ensures
            r@ == self@,
            r@.len() == 4,
    {
        let mut out: Vec<u8> = Vec::new();
        out.push(self.octets[0]);
        out.push(self.octets[1]);
        out.push(self.octets[2]);
        out.push(self.octets[3]);
        assert(out@ =~= self@);
        out
    }

    /// The address as one number, the first octet being the most
    /// significant.
    pub fn to_u32(&self) -> (r: u32)
        ensures
            r == be_u32(self@),
    {
        let b0: u32 = self.octets[0] as u32;
        let b1: u32 = self.octets[1] as u32;
        let b2: u32 = self.octets[2] as u32;
        let b3: u32 = self.octets[3] as u32;
        b0 * 0x100_0000 + b1 * 0x1_0000 + b2 * 0x100 + b3
    }

    /// The address whose octets spell `n`, most significant first.
    pub fn from_u32(n: u32) -> (r: Ipv4Address)
        ensures
            r@ == be_bytes(n),
    {
        let r = Ipv4Address {
            octets: [
                (n / 0x100_0000) as u8,
                (n / 0x1_0000 % 0x100) as u8,
                (n / 0x100 % 0x100) as u8,
                (n % 0x100) as u8,
            ],
        };
        assert(r@ =~= be_bytes(n));
        r
    }

    /// An address always has four octets.
    pub proof fn lemma_len(self)
        ensures
            self@.len() == 4,
    {
    }

    /// Two addresses with the same octets are the same address.
    pub proof fn lemma_view_injective(self, other: Ipv4Address)
        requires
            self@ == other@,
        ensures
            self == other,
    {
        assert(self.octets =~= other.octets);
    }
}

/// An IPv6 address: sixteen octets in network order.
#[derive(Debug, Clone, Copy, PartialEq, Eq, Hash)]
pub struct Ipv6Address {
    pub octets: [u8; 16],
}

impl View for Ipv6Address {
    type V = Seq<u8>;

    open spec fn view(&self) -> Seq<u8> {
        self.octets@
    }
}

impl Ipv6Address {
    /// The address with the given octets.
    pub fn new(octets: [u8; 16]) -> (r: Ipv6Address)
        ensures
            r@ == octets@,
    {
        Ipv6Address { octets }
    }

    /// The address that `bytes` spell, which must be exactly sixteen.
    pub fn from_bytes(bytes: &[u8]) -> (r: Option<Ipv6Address>)
        ensures
            bytes@.len() == 16 ==> (r matches Some(a) && a@ == bytes@),
            bytes@.len() != 16 ==> r is None,
    {
        if bytes.len() != IPV6_LEN {
            return None;
        }
        let mut octets: [u8; 16] = [0u8; 16];
        let mut i: usize = 0;
        while i < IPV6_LEN
            invariant
                i <= 16,
                bytes@.len() == 16,
                forall|j: int| 0 <= j < i ==> octets@[j] == bytes@[j],
            decreases 16 - i,
        {
            octets[i] = bytes[i];
            i = i + 1;
        }
        let r = Ipv6Address { octets };
        assert(r@ =~= bytes@);
        Some(r)
    }

    /// The sixteen octets, in network order.
    pub fn to_vec(&self) -> (r: Vec<u8>)
        ensures
            r@ == self@,
            r@.len() == 16,
    {
        let mut out: Vec<u8> = Vec::new();
        let mut i: usize = 0;
        while i < IPV6_LEN
            invariant
                i <= 16,
                out@ == self@.subrange(0, i as int),
            decreases 16 - i,
        {
            out.push(self.octets[i]);
            i = i + 1;
        }
        assert(out@ =~= self@);
        out
    }

    /// An address always has sixteen octets.
    pub proof fn lemma_len(self)
        ensures
            self@.len() == 16,
    {
    }

    /// Two addresses with the same octets are the same address.
    pub proof fn lemma_view_injective(self, other: Ipv6Address)
        requires
            self@ == other@,
        ensures
            self == other,
    {
        assert(self.octets =~= other.octets);
    }
}

} // verus!
