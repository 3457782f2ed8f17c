//! Plain-value models of the two address kinds the scanner works with:
//! IPv4 protocol addresses and 6-byte hardware (MAC) addresses.

use vstd::prelude::*;

verus! {

/// An IPv4 address, held as its four dotted-quad octets.
#[derive(Clone, Copy, PartialEq, Eq, Structural, Debug)]
pub struct Ipv4Addr {
    pub o0: u8,
    pub o1: u8,
    pub o2: u8,
    pub o3: u8,
}

impl Ipv4Addr {
    /// The octets in network (big-endian) order, as they appear on the wire.
    pub open spec fn octets(self) -> Seq<u8> {
        seq![self.o0, self.o1, self.o2, self.o3]
    }

    pub fn new(o0: u8, o1: u8, o2: u8, o3: u8) -> (r: Self)
        ensures
            r == (Ipv4Addr { o0, o1, o2, o3 }),
    {
        Ipv4Addr { o0, o1, o2, o3 }
    }
}

/// The address whose octets are the first four bytes of `s`.
pub open spec fn ip_from_octets(s: Seq<u8>) -> Ipv4Addr {
    Ipv4Addr { o0: s[0], o1: s[1], o2: s[2], o3: s[3] }
}

/// The address whose bytes are the first six bytes of `s`.
pub open spec fn mac_from_bytes(s: Seq<u8>) -> MacAddr {
    MacAddr { b0: s[0], b1: s[1], b2: s[2], b3: s[3], b4: s[4], b5: s[5] }
}

/// A 6-byte hardware (MAC) address.
#[derive(Clone, Copy, PartialEq, Eq, Structural, Debug)]
pub struct MacAddr {
    pub b0: u8,
    pub b1: u8,
    pub b2: u8,
    pub b3: u8,
    pub b4: u8,
    pub b5: u8,
}

impl MacAddr {
    /// The bytes in the order they appear on the wire.
    pub open spec fn bytes(self) -> Seq<u8> {
        seq![self.b0, self.b1, self.b2, self.b3, self.b4, self.b5]
    }

    pub fn new(b0: u8, b1: u8, b2: u8, b3: u8, b4: u8, b5: u8) -> (r: Self)
        ensures
            r == (MacAddr { b0, b1, b2, b3, b4, b5 }),
    {
        MacAddr { b0, b1, b2, b3, b4, b5 }
    }

    /// The all-ones address that every station on the link receives.
    pub fn broadcast() -> (r: Self)
        ensures
            r == (MacAddr { b0: 0xff, b1: 0xff, b2: 0xff, b3: 0xff, b4: 0xff, b5: 0xff }),
    {
        MacAddr { b0: 0xff, b1: 0xff, b2: 0xff, b3: 0xff, b4: 0xff, b5: 0xff }
    }

    /// The all-zero placeholder used for a request's unknown target.
    pub fn zero() -> (r: Self)
        ensures
            r == (MacAddr { b0: 0, b1: 0, b2: 0, b3: 0, b4: 0, b5: 0 }),
    {
        MacAddr { b0: 0, b1: 0, b2: 0, b3: 0, b4: 0, b5: 0 }
    }
}

} // verus!
