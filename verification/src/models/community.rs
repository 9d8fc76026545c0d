use vstd::prelude::*;
use crate::models::network::Asn;

verus! {

/// A community of four octets.
#[derive(Debug, Clone, Copy, PartialEq, Eq, Structural)]
pub enum Community {
    NoExport,
    NoAdvertise,
    NoExportSubConfed,
    Custom(Asn, u16),
}

/// A large community: three numbers of four octets each.
#[derive(Debug, Clone, Copy, PartialEq, Eq)]
pub struct LargeCommunity {
    pub global_administrator: u32,
    pub local_data: [u32; 2],
}

/// An extended community administered by an AS of two octets.
#[derive(Debug, Clone, Copy, PartialEq, Eq)]
pub struct TwoOctetAsSpecific {
    pub ec_type: u8,
    pub ec_subtype: u8,
    pub global_administrator: Asn,
    pub local_administrator: [u8; 4],
}

/// An extended community administered by an AS of four octets.
#[derive(Debug, Clone, Copy, PartialEq, Eq)]
pub struct FourOctetAsSpecific {
    pub ec_type: u8,
    pub ec_subtype: u8,
    pub global_administrator: Asn,
    pub local_administrator: [u8; 2],
}

/// An extended community administered by an IPv4 address, held as a number.
#[derive(Debug, Clone, Copy, PartialEq, Eq)]
pub struct Ipv4AddressSpecific {
    pub ec_type: u8,
    pub ec_subtype: u8,
    pub global_administrator: u32,
    pub local_administrator: [u8; 2],
}

/// An extended community whose value has no structure.
#[derive(Debug, Clone, Copy, PartialEq, Eq)]
pub struct Opaque {
    pub ec_type: u8,
    pub ec_subtype: u8,
    pub value: [u8; 6],
}

/// An extended community administered by an IPv6 address, held as a number.
#[derive(Debug, Clone, Copy, PartialEq, Eq)]
pub struct Ipv6AddressSpecific {
    pub ec_type: u8,
    pub ec_subtype: u8,
    pub global_administrator: u128,
    pub local_administrator: [u8; 2],
}

/// An extended community, by the structure of its value.
#[derive(Debug, Clone, Copy, PartialEq, Eq)]
pub enum ExtendedCommunity {
    TransitiveTwoOctetAsSpecific(TwoOctetAsSpecific),
    TransitiveIpv4AddressSpecific(Ipv4AddressSpecific),
    TransitiveFourOctetAsSpecific(FourOctetAsSpecific),
    TransitiveOpaque(Opaque),
    NonTransitiveTwoOctetAsSpecific(TwoOctetAsSpecific),
    NonTransitiveIpv4AddressSpecific(Ipv4AddressSpecific),
    NonTransitiveFourOctetAsSpecific(FourOctetAsSpecific),
    NonTransitiveOpaque(Opaque),
    Ipv6AddressSpecific(Ipv6AddressSpecific),
    Raw([u8; 8]),
}

/// A community of any of the three kinds.
#[derive(Debug, Clone, Copy, PartialEq, Eq)]
pub enum MetaCommunity {
    Community(Community),
    ExtendedCommunity(ExtendedCommunity),
    LargeCommunity(LargeCommunity),
}

impl LargeCommunity {
    /// The large community of the three numbers.
    pub fn new(global_administrator: u32, local_data: [u32; 2]) -> (r: LargeCommunity)
        ensures
            r == (LargeCommunity { global_administrator, local_data }),
    {
        LargeCommunity { global_administrator, local_data }
    }
}

} // verus!
