use vstd::prelude::*;
use crate::models::community::{Community, ExtendedCommunity, LargeCommunity};
use crate::models::network::{Afi, Asn, IpAddress, NetworkPrefix, NextHopAddress, Safi};

verus! {

/// The bit of an attribute's flag octet that says its length takes two
/// octets.
pub const EXTENDED_LENGTH_BIT: u8 = 0x10;

/// The flag octet of a transitive attribute with no other bit set.
pub const TRANSITIVE_FLAG: u8 = 0x40;

/// The type of a path attribute.
#[allow(non_camel_case_types)]
#[derive(Debug, Clone, Copy, PartialEq, Eq, Structural)]
pub enum AttrType {
    RESERVED,
    ORIGIN,
    AS_PATH,
    NEXT_HOP,
    MULTI_EXIT_DISCRIMINATOR,
    LOCAL_PREFERENCE,
    ATOMIC_AGGREGATE,
    AGGREGATOR,
    COMMUNITIES,
    ORIGINATOR_ID,
    CLUSTER_LIST,
    CLUSTER_ID,
    MP_REACHABLE_NLRI,
    MP_UNREACHABLE_NLRI,
    EXTENDED_COMMUNITIES,
    AS4_PATH,
    AS4_AGGREGATOR,
    PMSI_TUNNEL,
    TUNNEL_ENCAPSULATION,
    TRAFFIC_ENGINEERING,
    IPV6_ADDRESS_SPECIFIC_EXTENDED_COMMUNITIES,
    AIGP,
    PE_DISTINGUISHER_LABELS,
    BGP_LS_ATTRIBUTE,
    LARGE_COMMUNITIES,
    BGPSEC_PATH,
    SFP_ATTRIBUTE,
    BFD_DISCRIMINATOR,
    BGP_PREFIX_SID,
    ATTR_SET,
    DEVELOPMENT,
}

/// How a route came into BGP.
#[allow(non_camel_case_types)]
#[derive(Debug, Clone, Copy, PartialEq, Eq, Structural)]
pub enum Origin {
    IGP,
    EGP,
    INCOMPLETE,
}

/// Whether a route is an atomic aggregate (`AG`) or not (`NAG`).
#[allow(non_camel_case_types)]
#[derive(Debug, Clone, Copy, PartialEq, Eq, Structural)]
pub enum AtomicAggregate {
    NAG,
    AG,
}

/// One segment of an AS path.
#[derive(Debug, Clone, PartialEq, Eq)]
pub enum AsPathSegment {
    AsSequence(Vec<Asn>),
    AsSet(Vec<Asn>),
    ConfedSequence(Vec<Asn>),
    ConfedSet(Vec<Asn>),
}

/// An AS path: its segments in order.
#[derive(Debug, Clone, PartialEq, Eq)]
pub struct AsPath {
    pub segments: Vec<AsPathSegment>,
}

/// The body of a multi-protocol reachability or unreachability attribute.
#[derive(Debug, Clone, PartialEq, Eq)]
pub struct Nlri {
    pub afi: Afi,
    pub safi: Safi,
    pub next_hop: Option<NextHopAddress>,
    pub prefixes: Vec<NetworkPrefix>,
}

/// The value of a path attribute.
#[derive(Debug, Clone, PartialEq, Eq)]
pub enum AttributeValue {
    Origin(Origin),
    AsPath(AsPath),
    As4Path(AsPath),
    NextHop(IpAddress),
    MultiExitDiscriminator(u32),
    LocalPreference(u32),
    AtomicAggregate(AtomicAggregate),
    Aggregator(Asn, IpAddress),
    Communities(Vec<Community>),
    ExtendedCommunities(Vec<ExtendedCommunity>),
    LargeCommunities(Vec<LargeCommunity>),
    OriginatorId(IpAddress),
    Clusters(Vec<IpAddress>),
    MpReachNlri(Nlri),
    MpUnreachNlri(Nlri),
    Development(Vec<u8>),
}

/// A path attribute: its type, its value, and its flag octet.
#[derive(Debug, Clone, PartialEq, Eq)]
pub struct Attribute {
    pub attr_type: AttrType,
    pub value: AttributeValue,
    pub flag: u8,
}

/// The kind of an AS path segment.
pub enum SegmentKind {
    AsSequence,
    AsSet,
    ConfedSequence,
    ConfedSet,
}

/// An AS path segment as a value of mathematics.
pub struct AsPathSegmentView {
    pub kind: SegmentKind,
    pub asns: Seq<Asn>,
}

/// A multi-protocol body as a value of mathematics.
pub struct NlriView {
    pub afi: Afi,
    pub safi: Safi,
    pub next_hop: Option<NextHopAddress>,
    pub prefixes: Seq<NetworkPrefix>,
}

/// An attribute value as a value of mathematics.
pub enum AttributeValueView {
    Origin(Origin),
    AsPath(Seq<AsPathSegmentView>),
    As4Path(Seq<AsPathSegmentView>),
    NextHop(IpAddress),
    MultiExitDiscriminator(u32),
    LocalPreference(u32),
    AtomicAggregate(AtomicAggregate),
    Aggregator(Asn, IpAddress),
    Communities(Seq<Community>),
    ExtendedCommunities(Seq<ExtendedCommunity>),
    LargeCommunities(Seq<LargeCommunity>),
    OriginatorId(IpAddress),
    Clusters(Seq<IpAddress>),
    MpReachNlri(NlriView),
    MpUnreachNlri(NlriView),
    Development(Seq<u8>),
}

/// An attribute as a value of mathematics.
pub struct AttributeView {
    pub attr_type: AttrType,
    pub value: AttributeValueView,
    pub flag: u8,
}

impl AttrType {
    /// The number of the attribute type on the wire.
    pub open spec fn code(self) -> u8 {
        match self {
            AttrType::RESERVED => 0,
            AttrType::ORIGIN => 1,
            AttrType::AS_PATH => 2,
            AttrType::NEXT_HOP => 3,
            AttrType::MULTI_EXIT_DISCRIMINATOR => 4,
            AttrType::LOCAL_PREFERENCE => 5,
            AttrType::ATOMIC_AGGREGATE => 6,
            AttrType::AGGREGATOR => 7,
            AttrType::COMMUNITIES => 8,
            AttrType::ORIGINATOR_ID => 9,
            AttrType::CLUSTER_LIST => 10,
            AttrType::CLUSTER_ID => 13,
            AttrType::MP_REACHABLE_NLRI => 14,
            AttrType::MP_UNREACHABLE_NLRI => 15,
            AttrType::EXTENDED_COMMUNITIES => 16,
            AttrType::AS4_PATH => 17,
            AttrType::AS4_AGGREGATOR => 18,
            AttrType::PMSI_TUNNEL => 22,
            AttrType::TUNNEL_ENCAPSULATION => 23,
            AttrType::TRAFFIC_ENGINEERING => 24,
            AttrType::IPV6_ADDRESS_SPECIFIC_EXTENDED_COMMUNITIES => 25,
            AttrType::AIGP => 26,
            AttrType::PE_DISTINGUISHER_LABELS => 27,
            AttrType::BGP_LS_ATTRIBUTE => 29,
            AttrType::LARGE_COMMUNITIES => 32,
            AttrType::BGPSEC_PATH => 33,
            AttrType::SFP_ATTRIBUTE => 37,
            AttrType::BFD_DISCRIMINATOR => 38,
            AttrType::BGP_PREFIX_SID => 40,
            AttrType::ATTR_SET => 128,
            AttrType::DEVELOPMENT => 255,
        }
    }

    /// The number of the type on the wire.
    pub fn to_u8(&self) -> (r: u8)
        ensures
            r == self.code(),
    {
        match self {
            AttrType::RESERVED => 0,
            AttrType::ORIGIN => 1,
            AttrType::AS_PATH => 2,
            AttrType::NEXT_HOP => 3,
            AttrType::MULTI_EXIT_DISCRIMINATOR => 4,
            AttrType::LOCAL_PREFERENCE => 5,
            AttrType::ATOMIC_AGGREGATE => 6,
            AttrType::AGGREGATOR => 7,
            AttrType::COMMUNITIES => 8,
            AttrType::ORIGINATOR_ID => 9,
            AttrType::CLUSTER_LIST => 10,
            AttrType::CLUSTER_ID => 13,
            AttrType::MP_REACHABLE_NLRI => 14,
            AttrType::MP_UNREACHABLE_NLRI => 15,
            AttrType::EXTENDED_COMMUNITIES => 16,
            AttrType::AS4_PATH => 17,
            AttrType::AS4_AGGREGATOR => 18,
            AttrType::PMSI_TUNNEL => 22,
            AttrType::TUNNEL_ENCAPSULATION => 23,
            AttrType::TRAFFIC_ENGINEERING => 24,
            AttrType::IPV6_ADDRESS_SPECIFIC_EXTENDED_COMMUNITIES => 25,
            AttrType::AIGP => 26,
            AttrType::PE_DISTINGUISHER_LABELS => 27,
            AttrType::BGP_LS_ATTRIBUTE => 29,
            AttrType::LARGE_COMMUNITIES => 32,
            AttrType::BGPSEC_PATH => 33,
            AttrType::SFP_ATTRIBUTE => 37,
            AttrType::BFD_DISCRIMINATOR => 38,
            AttrType::BGP_PREFIX_SID => 40,
            AttrType::ATTR_SET => 128,
            AttrType::DEVELOPMENT => 255,
        }
    }
}

impl Origin {
    /// The number of the origin on the wire.
    pub open spec fn code(self) -> u8 {
        match self {
            Origin::IGP => 0,
            Origin::EGP => 1,
            Origin::INCOMPLETE => 2,
        }
    }

    /// The number of the type on the wire.
    pub fn to_u8(&self) -> (r: u8)
        ensures
            r == self.code(),
    {
        match self {
            Origin::IGP => 0,
            Origin::EGP => 1,
            Origin::INCOMPLETE => 2,
        }
    }
}

impl SegmentKind {
    /// The number of the segment type on the wire.
    pub open spec fn code(self) -> u8 {
        match self {
            SegmentKind::AsSet => 1,
            SegmentKind::AsSequence => 2,
            SegmentKind::ConfedSequence => 3,
            SegmentKind::ConfedSet => 4,
        }
    }
}

impl View for AsPathSegment {
    type V = AsPathSegmentView;

    open spec fn view(&self) -> AsPathSegmentView {
        match self {
            AsPathSegment::AsSequence(v) => AsPathSegmentView {
                kind: SegmentKind::AsSequence,
                asns: v@,
            },
            AsPathSegment::AsSet(v) => AsPathSegmentView { kind: SegmentKind::AsSet, asns: v@ },
            AsPathSegment::ConfedSequence(v) => AsPathSegmentView {
                kind: SegmentKind::ConfedSequence,
                asns: v@,
            },
            AsPathSegment::ConfedSet(v) => AsPathSegmentView {
                kind: SegmentKind::ConfedSet,
                asns: v@,
            },
        }
    }
}

impl View for AsPath {
    type V = Seq<AsPathSegmentView>;

    open spec fn view(&self) -> Seq<AsPathSegmentView> {
        segment_views(self.segments@)
    }
}

impl View for Nlri {
    type V = NlriView;

    open spec fn view(&self) -> NlriView {
        NlriView {
            afi: self.afi,
            safi: self.safi,
            next_hop: self.next_hop,
            prefixes: self.prefixes@,
        }
    }
}

impl View for AttributeValue {
    type V = AttributeValueView;

    open spec fn view(&self) -> AttributeValueView {
        match self {
            AttributeValue::Origin(v) => AttributeValueView::Origin(*v),
            AttributeValue::AsPath(v) => AttributeValueView::AsPath(v@),
            AttributeValue::As4Path(v) => AttributeValueView::As4Path(v@),
            AttributeValue::NextHop(v) => AttributeValueView::NextHop(*v),
            AttributeValue::MultiExitDiscriminator(v) => AttributeValueView::MultiExitDiscriminator(
                *v,
            ),
            AttributeValue::LocalPreference(v) => AttributeValueView::LocalPreference(*v),
            AttributeValue::AtomicAggregate(v) => AttributeValueView::AtomicAggregate(*v),
            AttributeValue::Aggregator(asn, ip) => AttributeValueView::Aggregator(*asn, *ip),
            AttributeValue::Communities(v) => AttributeValueView::Communities(v@),
            AttributeValue::ExtendedCommunities(v) => AttributeValueView::ExtendedCommunities(v@),
            AttributeValue::LargeCommunities(v) => AttributeValueView::LargeCommunities(v@),
            AttributeValue::OriginatorId(v) => AttributeValueView::OriginatorId(*v),
            AttributeValue::Clusters(v) => AttributeValueView::Clusters(v@),
            AttributeValue::MpReachNlri(v) => AttributeValueView::MpReachNlri(v@),
            AttributeValue::MpUnreachNlri(v) => AttributeValueView::MpUnreachNlri(v@),
            AttributeValue::Development(v) => AttributeValueView::Development(v@),
        }
    }
}

impl View for Attribute {
    type V = AttributeView;

    open spec fn view(&self) -> AttributeView {
        AttributeView { attr_type: self.attr_type, value: self.value@, flag: self.flag }
    }
}

/// The views of a list of path segments, in order.
pub open spec fn segment_views(segments: Seq<AsPathSegment>) -> Seq<AsPathSegmentView> {
    segments.map_values(|s: AsPathSegment| s@)
}

/// The views of a list of attributes, in order.
pub open spec fn attribute_views(attrs: Seq<Attribute>) -> Seq<AttributeView> {
    attrs.map_values(|a: Attribute| a@)
}

impl AsPath {
    /// A path of no segments.
    pub fn new() -> (r: AsPath)
        ensures
            r@ == Seq::<AsPathSegmentView>::empty(),
    {
        let r = AsPath { segments: Vec::new() };
        assert(r@ =~= Seq::<AsPathSegmentView>::empty());
        r
    }

    /// The path of the given segments.
    pub fn from_segments(segments: Vec<AsPathSegment>) -> (r: AsPath)
        ensures
            r.segments == segments,
    {
        AsPath { segments }
    }

    /// Puts a segment at the end of the path.
    pub fn add_segment(&mut self, segment: AsPathSegment)
        ensures
            final(self)@ == old(self)@.push(segment@),
    {
        self.segments.push(segment);
        assert(self@ =~= old(self)@.push(segment@));
    }
}

} // verus!
