use vstd::prelude::*;

verus! {

/// How many bits an AS number takes on the wire.
#[derive(Debug, Clone, Copy, PartialEq, Eq, Structural)]
pub enum AsnLength {
    Bits16,
    Bits32,
}

/// An autonomous-system number with the width it is written in.
#[derive(Debug, Clone, Copy, PartialEq, Eq, Structural)]
pub struct Asn {
    pub asn: u32,
    pub len: AsnLength,
}

/// An IP address as a number: its octets read as one big-endian integer,
/// four octets for version 4 and sixteen for version 6.
#[derive(Debug, Clone, Copy, PartialEq, Eq, Structural)]
pub enum IpAddress {
    V4(u32),
    V6(u128),
}

/// Address family identifier.
#[derive(Debug, Clone, Copy, PartialEq, Eq, Structural)]
pub enum Afi {
    Ipv4,
    Ipv6,
}

/// Subsequent address family identifier.
#[derive(Debug, Clone, Copy, PartialEq, Eq, Structural)]
pub enum Safi {
    Unicast,
    Multicast,
    UnicastMulticast,
}

/// The next hop of a multi-protocol reachability attribute.
#[derive(Debug, Clone, Copy, PartialEq, Eq, Structural)]
pub enum NextHopAddress {
    Ipv4(u32),
    Ipv6(u128),
    Ipv6LinkLocal(u128, u128),
}

/// An address with the number of its leading bits that name the network.
#[derive(Debug, Clone, Copy, PartialEq, Eq, Structural)]
pub struct IpNetwork {
    pub addr: IpAddress,
    pub prefix: u8,
}

/// A network with the path identifier that add-path records carry.
#[derive(Debug, Clone, Copy, PartialEq, Eq, Structural)]
pub struct NetworkPrefix {
    pub prefix: IpNetwork,
    pub path_id: u32,
}

impl Asn {
    /// The AS number `asn`, written in 32 bits.
    pub fn new(asn: u32) -> (r: Asn)
        ensures
            r == (Asn { asn, len: AsnLength::Bits32 }),
    {
        Asn { asn, len: AsnLength::Bits32 }
    }
}

impl IpAddress {
    /// Whether the address is one of version 4.
    pub open spec fn spec_is_ipv4(&self) -> bool {
        self is V4
    }

    /// Whether the address is one of version 4.
    #[verifier::when_used_as_spec(spec_is_ipv4)]
    pub fn is_ipv4(&self) -> (r: bool)
        ensures
            r == self.spec_is_ipv4(),
    {
        match self {
            IpAddress::V4(_) => true,
            IpAddress::V6(_) => false,
        }
    }

    /// The address of the family of `self` whose octets are all zero.
    pub open spec fn spec_unspecified(&self) -> IpAddress {
        if self is V4 {
            IpAddress::V4(0)
        } else {
            IpAddress::V6(0)
        }
    }

    /// The address of the family of `self` whose octets are all zero.
    #[verifier::when_used_as_spec(spec_unspecified)]
    pub fn unspecified(&self) -> (r: IpAddress)
        ensures
            r == self.spec_unspecified(),
    {
        match self {
            IpAddress::V4(_) => IpAddress::V4(0),
            IpAddress::V6(_) => IpAddress::V6(0),
        }
    }
}

impl Afi {
    /// The number of the family on the wire.
    pub open spec fn code(self) -> u16 {
        match self {
            Afi::Ipv4 => 1,
            Afi::Ipv6 => 2,
        }
    }

    /// The number of the family on the wire.
    pub fn to_u16(&self) -> (r: u16)
        ensures
            r == self.code(),
    {
        match self {
            Afi::Ipv4 => 1,
            Afi::Ipv6 => 2,
        }
    }
}

impl Safi {
    /// The number of the sub-family on the wire.
    pub open spec fn code(self) -> u8 {
        match self {
            Safi::Unicast => 1,
            Safi::Multicast => 2,
            Safi::UnicastMulticast => 3,
        }
    }

    /// The number of the sub-family on the wire.
    pub fn to_u8(&self) -> (r: u8)
        ensures
            r == self.code(),
    {
        match self {
            Safi::Unicast => 1,
            Safi::Multicast => 2,
            Safi::UnicastMulticast => 3,
        }
    }
}

impl IpNetwork {
    /// The longest prefix that the address family allows: 32 or 128 bits.
    pub open spec fn max_prefix(self) -> u8 {
        if self.addr is V4 {
            32
        } else {
            128
        }
    }

    /// Whether the address is one of version 4.
    pub open spec fn spec_is_ipv4(&self) -> bool {
        self.addr is V4
    }

    /// Whether the address is one of version 4.
    #[verifier::when_used_as_spec(spec_is_ipv4)]
    pub fn is_ipv4(&self) -> (r: bool)
        ensures
            r == self.spec_is_ipv4(),
    {
        self.addr.is_ipv4()
    }
}

} // verus!
