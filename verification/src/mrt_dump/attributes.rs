use vstd::prelude::*;
use crate::models::attributes::{
    attribute_views, AsPath, AsPathSegment, AsPathSegmentView, AtomicAggregate, Attribute,
    AttributeValue, AttributeValueView, AttributeView, Nlri, NlriView, EXTENDED_LENGTH_BIT,
};
use crate::models::community::{Community, ExtendedCommunity, LargeCommunity};
use crate::models::network::{Asn, IpAddress, NetworkPrefix, NextHopAddress};
use crate::mrt_dump::encoding::{
    bytes_of, cat, join, lemma_join_all, lemma_join_err, lemma_join_step, put_bytes, Encoded,
};
use crate::mrt_dump::error::DumpError;
use crate::mrt_dump::utils::{asn_bytes, be128, be16, be32, ip_bytes, nlri_bytes, WriteUtils};

verus! {

/// The well-known community that forbids export.
pub const COMMUNITY_NO_EXPORT: u32 = 0xFFFFFF01;

/// The well-known community that forbids advertisement.
pub const COMMUNITY_NO_ADVERTISE: u32 = 0xFFFFFF02;

/// The well-known community that forbids export out of a confederation.
pub const COMMUNITY_NO_EXPORT_SUBCONFED: u32 = 0xFFFFFF03;

/// The encodings of the AS numbers of a list, one by one.
pub open spec fn asn_parts(asns: Seq<Asn>) -> Seq<Encoded> {
    Seq::new(asns.len(), |i: int| Ok(asn_bytes(asns[i])))
}

/// A path segment: its type, the count of its AS numbers in one octet, and
/// the numbers. More than 255 numbers cannot be counted and are malformed.
pub open spec fn segment_bytes(seg: AsPathSegmentView) -> Encoded {
    if seg.asns.len() > 255 {
        Err(DumpError::MalformedInput)
    } else {
        cat(Ok(seq![seg.kind.code(), seg.asns.len() as u8]), join(asn_parts(seg.asns)))
    }
}

/// The encodings of the segments of a path, one by one.
pub open spec fn segment_parts(segs: Seq<AsPathSegmentView>) -> Seq<Encoded> {
    Seq::new(segs.len(), |i: int| segment_bytes(segs[i]))
}

/// A community in four octets: a well-known constant, or the low sixteen
/// bits of the AS number followed by the value.
pub open spec fn community_bytes(c: Community) -> Seq<u8> {
    match c {
        Community::NoExport => be32(COMMUNITY_NO_EXPORT),
        Community::NoAdvertise => be32(COMMUNITY_NO_ADVERTISE),
        Community::NoExportSubConfed => be32(COMMUNITY_NO_EXPORT_SUBCONFED),
        Community::Custom(asn, value) => be16((asn.asn % 0x1_0000) as u16) + be16(value),
    }
}

/// The encodings of the communities of a list, one by one.
pub open spec fn community_parts(cs: Seq<Community>) -> Seq<Encoded> {
    Seq::new(cs.len(), |i: int| Ok(community_bytes(cs[i])))
}

/// An extended community: type, subtype and a value of six octets; with an
/// IPv6 administrator a value of eighteen; a raw one as its eight octets.
pub open spec fn extended_community_bytes(c: ExtendedCommunity) -> Seq<u8> {
    match c {
        ExtendedCommunity::TransitiveTwoOctetAsSpecific(e)
        | ExtendedCommunity::NonTransitiveTwoOctetAsSpecific(e) => seq![e.ec_type, e.ec_subtype]
            + be16((e.global_administrator.asn % 0x1_0000) as u16) + e.local_administrator@,
        ExtendedCommunity::TransitiveFourOctetAsSpecific(e)
        | ExtendedCommunity::NonTransitiveFourOctetAsSpecific(e) => seq![e.ec_type, e.ec_subtype]
            + be32(e.global_administrator.asn) + e.local_administrator@,
        ExtendedCommunity::TransitiveIpv4AddressSpecific(e)
        | ExtendedCommunity::NonTransitiveIpv4AddressSpecific(e) => seq![e.ec_type, e.ec_subtype]
            + be32(e.global_administrator) + e.local_administrator@,
        ExtendedCommunity::TransitiveOpaque(e) | ExtendedCommunity::NonTransitiveOpaque(e) => seq![
            e.ec_type,
            e.ec_subtype,
        ] + e.value@,
        ExtendedCommunity::Ipv6AddressSpecific(e) => seq![e.ec_type, e.ec_subtype] + be128(
            e.global_administrator,
        ) + e.local_administrator@,
        ExtendedCommunity::Raw(raw) => raw@,
    }
}

/// The encodings of the extended communities of a list, one by one.
pub open spec fn extended_community_parts(cs: Seq<ExtendedCommunity>) -> Seq<Encoded> {
    Seq::new(cs.len(), |i: int| Ok(extended_community_bytes(cs[i])))
}

/// A large community: three numbers of four octets.
pub open spec fn large_community_bytes(c: LargeCommunity) -> Seq<u8> {
    be32(c.global_administrator) + be32(c.local_data[0]) + be32(c.local_data[1])
}

/// The encodings of the large communities of a list, one by one.
pub open spec fn large_community_parts(cs: Seq<LargeCommunity>) -> Seq<Encoded> {
    Seq::new(cs.len(), |i: int| Ok(large_community_bytes(cs[i])))
}

/// The encodings of the addresses of a list, one by one.
pub open spec fn address_parts(ips: Seq<IpAddress>) -> Seq<Encoded> {
    Seq::new(ips.len(), |i: int| Ok(ip_bytes(ips[i])))
}

/// The encodings of the prefixes of a list, one by one.
pub open spec fn prefix_parts(prefixes: Seq<NetworkPrefix>, add_path: bool) -> Seq<Encoded> {
    Seq::new(prefixes.len(), |i: int| nlri_bytes(prefixes[i], add_path))
}

/// The next hop of a reachability attribute: its length in one octet, then
/// its addresses. The length is 0, 4, 16 or 32.
pub open spec fn next_hop_bytes(next_hop: Option<NextHopAddress>) -> Seq<u8> {
    match next_hop {
        None => seq![0u8],
        Some(NextHopAddress::Ipv4(a)) => seq![4u8] + be32(a),
        Some(NextHopAddress::Ipv6(a)) => seq![16u8] + be128(a),
        Some(NextHopAddress::Ipv6LinkLocal(a, b)) => seq![32u8] + be128(a) + be128(b),
    }
}

/// The address family where `write_afi` asks for it, the sub-family where
/// `write_safi` does.
pub open spec fn family_bytes(nlri: NlriView, write_afi: bool, write_safi: bool) -> Seq<u8> {
    (if write_afi {
        be16(nlri.afi.code())
    } else {
        Seq::<u8>::empty()
    }) + (if write_safi {
        seq![nlri.safi.code()]
    } else {
        Seq::<u8>::empty()
    })
}

/// The body of a reachability attribute: family, next hop, and where
/// `write_prefixes` asks for them a reserved octet of zero and the prefixes.
pub open spec fn mp_reach_bytes(
    nlri: NlriView,
    add_path: bool,
    write_afi: bool,
    write_safi: bool,
    write_prefixes: bool,
) -> Encoded {
    cat(
        Ok(family_bytes(nlri, write_afi, write_safi) + next_hop_bytes(nlri.next_hop)),
        if write_prefixes {
            cat(Ok(seq![0u8]), join(prefix_parts(nlri.prefixes, add_path)))
        } else {
            Ok(Seq::<u8>::empty())
        },
    )
}

/// The body of an unreachability attribute: family, and where
/// `write_prefixes` asks for them the withdrawn prefixes.
pub open spec fn mp_unreach_bytes(
    nlri: NlriView,
    add_path: bool,
    write_afi: bool,
    write_safi: bool,
    write_prefixes: bool,
) -> Encoded {
    cat(
        Ok(family_bytes(nlri, write_afi, write_safi)),
        if write_prefixes {
            join(prefix_parts(nlri.prefixes, add_path))
        } else {
            Ok(Seq::<u8>::empty())
        },
    )
}

/// The body of an attribute, by the kind of its value.
pub open spec fn value_bytes(
    value: AttributeValueView,
    add_path: bool,
    write_afi: bool,
    write_safi: bool,
    write_prefixes: bool,
) -> Encoded {
    match value {
        AttributeValueView::Origin(o) => Ok(seq![o.code()]),
        AttributeValueView::AsPath(segs) => join(segment_parts(segs)),
        AttributeValueView::As4Path(segs) => join(segment_parts(segs)),
        AttributeValueView::NextHop(ip) => Ok(ip_bytes(ip)),
        AttributeValueView::MultiExitDiscriminator(v) => Ok(be32(v)),
        AttributeValueView::LocalPreference(v) => Ok(be32(v)),
        AttributeValueView::AtomicAggregate(_) => Ok(Seq::<u8>::empty()),
        AttributeValueView::Aggregator(asn, ip) => Ok(asn_bytes(asn) + ip_bytes(ip)),
        AttributeValueView::Communities(cs) => join(community_parts(cs)),
        AttributeValueView::ExtendedCommunities(cs) => join(extended_community_parts(cs)),
        AttributeValueView::LargeCommunities(cs) => join(large_community_parts(cs)),
        AttributeValueView::OriginatorId(ip) => Ok(ip_bytes(ip)),
        AttributeValueView::Clusters(ips) => join(address_parts(ips)),
        AttributeValueView::MpReachNlri(nlri) => mp_reach_bytes(
            nlri,
            add_path,
            write_afi,
            write_safi,
            write_prefixes,
        ),
        AttributeValueView::MpUnreachNlri(nlri) => mp_unreach_bytes(
            nlri,
            add_path,
            write_afi,
            write_safi,
            write_prefixes,
        ),
        AttributeValueView::Development(bytes) => Ok(bytes),
    }
}

/// Whether the flag octet asks for a length of two octets.
pub open spec fn extended_length(flag: u8) -> bool {
    flag & EXTENDED_LENGTH_BIT != 0
}

/// A body behind its header: flag, type, and the length of the body in one
/// octet, or in two where the flag asks for it. A body that the length
/// field cannot count is too large.
pub open spec fn framed_attribute(flag: u8, code: u8, body: Seq<u8>) -> Encoded {
    if extended_length(flag) {
        if body.len() > 0xFFFF {
            Err(DumpError::ValueTooLarge)
        } else {
            Ok(seq![flag, code] + be16(body.len() as u16) + body)
        }
    } else {
        if body.len() > 0xFF {
            Err(DumpError::ValueTooLarge)
        } else {
            Ok(seq![flag, code, body.len() as u8] + body)
        }
    }
}

/// The length of a body is written in two octets exactly where the flag
/// asks for it, else in one; and the body is refused exactly where the
/// length field cannot count it. So a body of 255 octets fits either field,
/// and one of 256 octets needs the flag.
pub proof fn lemma_attribute_length_field(flag: u8, code: u8, body: Seq<u8>)
    ensures
        match framed_attribute(flag, code, body) {
            Ok(bytes) => if extended_length(flag) {
                &&& body.len() <= 0xFFFF
                &&& bytes.len() == 4 + body.len()
                &&& bytes.subrange(0, 2) == seq![flag, code]
                &&& bytes.subrange(2, 4) == be16(body.len() as u16)
                &&& bytes.subrange(4, bytes.len() as int) == body
            } else {
                &&& body.len() <= 0xFF
                &&& bytes.len() == 3 + body.len()
                &&& bytes.subrange(0, 3) == seq![flag, code, body.len() as u8]
                &&& bytes.subrange(3, bytes.len() as int) == body
            },
            Err(e) => {
                &&& e == DumpError::ValueTooLarge
                &&& body.len() > if extended_length(flag) {
                    0xFFFFint
                } else {
                    0xFFint
                }
            },
        },
{
    match framed_attribute(flag, code, body) {
        Ok(bytes) => {
            if extended_length(flag) {
                assert(bytes.subrange(0, 2) =~= seq![flag, code]);
                assert(bytes.subrange(2, 4) =~= be16(body.len() as u16));
                assert(bytes.subrange(4, bytes.len() as int) =~= body);
            } else {
                assert(bytes.subrange(0, 3) =~= seq![flag, code, body.len() as u8]);
                assert(bytes.subrange(3, bytes.len() as int) =~= body);
            }
        },
        Err(e) => {},
    }
}

/// The wire form of an attribute. An attribute that says "not an atomic
/// aggregate" is not written at all: the absence of the attribute says so.
pub open spec fn attribute_bytes(
    attr: AttributeView,
    add_path: bool,
    write_afi: bool,
    write_safi: bool,
    write_prefixes: bool,
) -> Encoded {
    if attr.value == AttributeValueView::AtomicAggregate(AtomicAggregate::NAG) {
        Ok(Seq::<u8>::empty())
    } else {
        match value_bytes(attr.value, add_path, write_afi, write_safi, write_prefixes) {
            Err(e) => Err(e),
            Ok(body) => framed_attribute(attr.flag, attr.attr_type.code(), body),
        }
    }
}

/// The encodings of the attributes of a list, one by one.
pub open spec fn attribute_parts(
    attrs: Seq<AttributeView>,
    add_path: bool,
    write_afi: bool,
    write_safi: bool,
    write_prefixes: bool,
) -> Seq<Encoded> {
    Seq::new(
        attrs.len(),
        |i: int| attribute_bytes(attrs[i], add_path, write_afi, write_safi, write_prefixes),
    )
}

/// Encoding of a path attribute, for the three places where one is written.
pub trait MrtAttrDump {
    /// The bytes that `to_bytes` owes, or the error.
    spec fn encoding(
        &self,
        add_path: bool,
        write_afi: bool,
        write_safi: bool,
        write_prefixes: bool,
    ) -> Encoded;

    /// The attribute on the wire. `add_path` puts a path identifier before
    /// each prefix; the other three say whether a multi-protocol attribute
    /// carries its family, its sub-family and its prefixes.
    fn to_bytes(
        &self,
        add_path: bool,
        write_afi: bool,
        write_safi: bool,
        write_prefixes: bool,
    ) -> (r: Result<Vec<u8>, DumpError>)
        ensures
            bytes_of(r) == self.encoding(add_path, write_afi, write_safi, write_prefixes),
    ;
}

/// The AS numbers of a list, appended to `buf`.
fn write_asns(buf: &mut Vec<u8>, asns: &Vec<Asn>)
    ensures
        Ok::<Seq<u8>, DumpError>(final(buf)@) == cat(Ok(old(buf)@), join(asn_parts(asns@))),
{
    let ghost parts = asn_parts(asns@);
    let ghost head = buf@;
    let mut i: usize = 0;
    while i < asns.len()
        invariant
            i <= asns@.len(),
            parts == asn_parts(asns@),
            Ok::<Seq<u8>, DumpError>(buf@) == cat(Ok(head), join(parts.take(i as int))),
        decreases asns@.len() - i,
    {
        let _ = buf.write_asn(&asns[i]);
        proof {
            lemma_join_step(parts, i as int);
            assert(buf@ =~= head + (join(parts.take(i as int))->Ok_0 + asn_bytes(asns@[i as int])));
        }
        i = i + 1;
    }
    proof {
        lemma_join_all(parts);
    }
}

/// A path segment on the wire.
fn encode_segment(seg: &AsPathSegment) -> (r: Result<Vec<u8>, DumpError>)
    ensures
        bytes_of(r) == segment_bytes(seg@),
{
    let (code, asns): (u8, &Vec<Asn>) = match seg {
        AsPathSegment::AsSet(v) => (1, v),
        AsPathSegment::AsSequence(v) => (2, v),
        AsPathSegment::ConfedSequence(v) => (3, v),
        AsPathSegment::ConfedSet(v) => (4, v),
    };
    if asns.len() > 255 {
        return Err(DumpError::MalformedInput);
    }
    let mut buf: Vec<u8> = Vec::new();
    buf.push(code);
    buf.push(asns.len() as u8);
    assert(buf@ =~= seq![seg@.kind.code(), seg@.asns.len() as u8]);
    write_asns(&mut buf, asns);
    Ok(buf)
}

/// The segments of a path on the wire, in order.
fn encode_path(path: &AsPath) -> (r: Result<Vec<u8>, DumpError>)
    ensures
        bytes_of(r) == join(segment_parts(path@)),
{
    let ghost parts = segment_parts(path@);
    let mut buf: Vec<u8> = Vec::new();
    let mut i: usize = 0;
    while i < path.segments.len()
        invariant
            i <= path.segments@.len(),
            parts == segment_parts(path@),
            parts.len() == path.segments@.len(),
            Ok::<Seq<u8>, DumpError>(buf@) == join(parts.take(i as int)),
        decreases path.segments@.len() - i,
    {
        proof {
            lemma_join_step(parts, i as int);
            assert(parts[i as int] == segment_bytes(path.segments@[i as int]@));
        }
        match encode_segment(&path.segments[i]) {
            Err(e) => {
                proof {
                    lemma_join_err(parts, i + 1);
                }
                return Err(e);
            },
            Ok(bytes) => {
                put_bytes(&mut buf, bytes.as_slice());
            },
        }
        i = i + 1;
    }
    proof {
        lemma_join_all(parts);
    }
    Ok(buf)
}

/// A community, appended to `buf`.
fn write_community(buf: &mut Vec<u8>, c: &Community)
    ensures
        final(buf)@ == old(buf)@ + community_bytes(*c),
{
    match c {
        Community::NoExport => {
            let _ = buf.write_32b(COMMUNITY_NO_EXPORT);
        },
        Community::NoAdvertise => {
            let _ = buf.write_32b(COMMUNITY_NO_ADVERTISE);
        },
        Community::NoExportSubConfed => {
            let _ = buf.write_32b(COMMUNITY_NO_EXPORT_SUBCONFED);
        },
        Community::Custom(asn, value) => {
            let _ = buf.write_16b((asn.asn % 0x1_0000) as u16);
            let _ = buf.write_16b(*value);
            assert(buf@ =~= old(buf)@ + community_bytes(*c));
        },
    }
}

/// The communities of a list on the wire, in order.
fn encode_communities(cs: &Vec<Community>) -> (r: Vec<u8>)
    ensures
        Ok::<Seq<u8>, DumpError>(r@) == join(community_parts(cs@)),
{
    let ghost parts = community_parts(cs@);
    let mut buf: Vec<u8> = Vec::new();
    let mut i: usize = 0;
    while i < cs.len()
        invariant
            i <= cs@.len(),
            parts == community_parts(cs@),
            Ok::<Seq<u8>, DumpError>(buf@) == join(parts.take(i as int)),
        decreases cs@.len() - i,
    {
        proof {
            lemma_join_step(parts, i as int);
        }
        write_community(&mut buf, &cs[i]);
        i = i + 1;
    }
    proof {
        lemma_join_all(parts);
    }
    buf
}

/// An extended community, appended to `buf`.
fn write_extended_community(buf: &mut Vec<u8>, c: &ExtendedCommunity)
    ensures
        final(buf)@ == old(buf)@ + extended_community_bytes(*c),
{
    match c {
        ExtendedCommunity::TransitiveTwoOctetAsSpecific(e)
        | ExtendedCommunity::NonTransitiveTwoOctetAsSpecific(e) => {
            buf.push(e.ec_type);
            buf.push(e.ec_subtype);
            let _ = buf.write_16b((e.global_administrator.asn % 0x1_0000) as u16);
            put_bytes(buf, e.local_administrator.as_slice());
        },
        ExtendedCommunity::TransitiveFourOctetAsSpecific(e)
        | ExtendedCommunity::NonTransitiveFourOctetAsSpecific(e) => {
            buf.push(e.ec_type);
            buf.push(e.ec_subtype);
            let _ = buf.write_32b(e.global_administrator.asn);
            put_bytes(buf, e.local_administrator.as_slice());
        },
        ExtendedCommunity::TransitiveIpv4AddressSpecific(e)
        | ExtendedCommunity::NonTransitiveIpv4AddressSpecific(e) => {
            buf.push(e.ec_type);
            buf.push(e.ec_subtype);
            let _ = buf.write_32b(e.global_administrator);
            put_bytes(buf, e.local_administrator.as_slice());
        },
        ExtendedCommunity::TransitiveOpaque(e) | ExtendedCommunity::NonTransitiveOpaque(e) => {
            buf.push(e.ec_type);
            buf.push(e.ec_subtype);
            put_bytes(buf, e.value.as_slice());
        },
        ExtendedCommunity::Ipv6AddressSpecific(e) => {
            buf.push(e.ec_type);
            buf.push(e.ec_subtype);
            let _ = buf.write_ip(&IpAddress::V6(e.global_administrator));
            put_bytes(buf, e.local_administrator.as_slice());
        },
        ExtendedCommunity::Raw(raw) => {
            put_bytes(buf, raw.as_slice());
        },
    }
    assert(buf@ =~= old(buf)@ + extended_community_bytes(*c));
}

/// The extended communities of a list on the wire, in order.
fn encode_extended_communities(cs: &Vec<ExtendedCommunity>) -> (r: Vec<u8>)
    ensures
        Ok::<Seq<u8>, DumpError>(r@) == join(extended_community_parts(cs@)),
{
    let ghost parts = extended_community_parts(cs@);
    let mut buf: Vec<u8> = Vec::new();
    let mut i: usize = 0;
    while i < cs.len()
        invariant
            i <= cs@.len(),
            parts == extended_community_parts(cs@),
            Ok::<Seq<u8>, DumpError>(buf@) == join(parts.take(i as int)),
        decreases cs@.len() - i,
    {
        proof {
            lemma_join_step(parts, i as int);
        }
        write_extended_community(&mut buf, &cs[i]);
        i = i + 1;
    }
    proof {
        lemma_join_all(parts);
    }
    buf
}

/// The large communities of a list on the wire, in order.
fn encode_large_communities(cs: &Vec<LargeCommunity>) -> (r: Vec<u8>)
    ensures
        Ok::<Seq<u8>, DumpError>(r@) == join(large_community_parts(cs@)),
{
    let ghost parts = large_community_parts(cs@);
    let mut buf: Vec<u8> = Vec::new();
    let mut i: usize = 0;
    while i < cs.len()
        invariant
            i <= cs@.len(),
            parts == large_community_parts(cs@),
            Ok::<Seq<u8>, DumpError>(buf@) == join(parts.take(i as int)),
        decreases cs@.len() - i,
    {
        proof {
            lemma_join_step(parts, i as int);
        }
        let ghost before = buf@;
        let c = &cs[i];
        let _ = buf.write_32b(c.global_administrator);
        let _ = buf.write_32b(c.local_data[0]);
        let _ = buf.write_32b(c.local_data[1]);
        assert(buf@ =~= before + large_community_bytes(*c));
        i = i + 1;
    }
    proof {
        lemma_join_all(parts);
    }
    buf
}

/// The addresses of a list on the wire, in order.
fn encode_addresses(ips: &Vec<IpAddress>) -> (r: Vec<u8>)
    ensures
        Ok::<Seq<u8>, DumpError>(r@) == join(address_parts(ips@)),
{
    let ghost parts = address_parts(ips@);
    let mut buf: Vec<u8> = Vec::new();
    let mut i: usize = 0;
    while i < ips.len()
        invariant
            i <= ips@.len(),
            parts == address_parts(ips@),
            Ok::<Seq<u8>, DumpError>(buf@) == join(parts.take(i as int)),
        decreases ips@.len() - i,
    {
        proof {
            lemma_join_step(parts, i as int);
        }
        let _ = buf.write_ip(&ips[i]);
        i = i + 1;
    }
    proof {
        lemma_join_all(parts);
    }
    buf
}

/// The prefixes of a list on the wire, in order.
pub fn encode_prefixes(prefixes: &Vec<NetworkPrefix>, add_path: bool) -> (r: Result<
    Vec<u8>,
    DumpError,
>)
    ensures
        bytes_of(r) == join(prefix_parts(prefixes@, add_path)),
{
    let ghost parts = prefix_parts(prefixes@, add_path);
    let mut buf: Vec<u8> = Vec::new();
    let mut i: usize = 0;
    while i < prefixes.len()
        invariant
            i <= prefixes@.len(),
            parts == prefix_parts(prefixes@, add_path),
            Ok::<Seq<u8>, DumpError>(buf@) == join(parts.take(i as int)),
        decreases prefixes@.len() - i,
    {
        proof {
            lemma_join_step(parts, i as int);
        }
        match buf.write_nlri(&prefixes[i], add_path) {
            Err(e) => {
                proof {
                    lemma_join_err(parts, i + 1);
                }
                return Err(e);
            },
            Ok(_) => {},
        }
        i = i + 1;
    }
    proof {
        lemma_join_all(parts);
    }
    Ok(buf)
}

/// The family and sub-family of a multi-protocol body, as far as asked for,
/// appended to `buf`.
fn write_family(buf: &mut Vec<u8>, nlri: &Nlri, write_afi: bool, write_safi: bool)
    ensures
        final(buf)@ == old(buf)@ + family_bytes(nlri@, write_afi, write_safi),
{
    if write_afi {
        let _ = buf.write_16b(nlri.afi.to_u16());
    }
    if write_safi {
        buf.push(nlri.safi.to_u8());
    }
    assert(buf@ =~= old(buf)@ + family_bytes(nlri@, write_afi, write_safi));
}

/// The next hop of a reachability attribute, appended to `buf`.
fn write_next_hop(buf: &mut Vec<u8>, next_hop: &Option<NextHopAddress>)
    ensures
        final(buf)@ == old(buf)@ + next_hop_bytes(*next_hop),
{
    match next_hop {
        None => {
            buf.push(0);
        },
        Some(NextHopAddress::Ipv4(a)) => {
            buf.push(4);
            let _ = buf.write_ip(&IpAddress::V4(*a));
        },
        Some(NextHopAddress::Ipv6(a)) => {
            buf.push(16);
            let _ = buf.write_ip(&IpAddress::V6(*a));
        },
        Some(NextHopAddress::Ipv6LinkLocal(a, b)) => {
            buf.push(32);
            let _ = buf.write_ip(&IpAddress::V6(*a));
            let _ = buf.write_ip(&IpAddress::V6(*b));
        },
    }
    assert(buf@ =~= old(buf)@ + next_hop_bytes(*next_hop));
}

/// The body of a reachability attribute.
fn encode_mp_reach(
    nlri: &Nlri,
    add_path: bool,
    write_afi: bool,
    write_safi: bool,
    write_prefixes: bool,
) -> (r: Result<Vec<u8>, DumpError>)
    ensures
        bytes_of(r) == mp_reach_bytes(nlri@, add_path, write_afi, write_safi, write_prefixes),
{
    let mut buf: Vec<u8> = Vec::new();
    write_family(&mut buf, nlri, write_afi, write_safi);
    write_next_hop(&mut buf, &nlri.next_hop);
    assert(buf@ =~= family_bytes(nlri@, write_afi, write_safi) + next_hop_bytes(nlri.next_hop));
    if write_prefixes {
        let ghost head = buf@;
        buf.push(0);
        match encode_prefixes(&nlri.prefixes, add_path) {
            Err(e) => {
                return Err(e);
            },
            Ok(bytes) => {
                put_bytes(&mut buf, bytes.as_slice());
                assert(buf@ =~= head + (seq![0u8] + bytes@));
            },
        }
    } else {
        assert(buf@ =~= buf@ + Seq::<u8>::empty());
    }
    Ok(buf)
}

/// The body of an unreachability attribute.
fn encode_mp_unreach(
    nlri: &Nlri,
    add_path: bool,
    write_afi: bool,
    write_safi: bool,
    write_prefixes: bool,
) -> (r: Result<Vec<u8>, DumpError>)
    ensures
        bytes_of(r) == mp_unreach_bytes(nlri@, add_path, write_afi, write_safi, write_prefixes),
{
    let mut buf: Vec<u8> = Vec::new();
    write_family(&mut buf, nlri, write_afi, write_safi);
    assert(buf@ =~= family_bytes(nlri@, write_afi, write_safi));
    if write_prefixes {
        match encode_prefixes(&nlri.prefixes, add_path) {
            Err(e) => {
                return Err(e);
            },
            Ok(bytes) => {
                put_bytes(&mut buf, bytes.as_slice());
            },
        }
    } else {
        assert(buf@ =~= buf@ + Seq::<u8>::empty());
    }
    Ok(buf)
}

/// The body of an attribute.
fn encode_value(
    value: &AttributeValue,
    add_path: bool,
    write_afi: bool,
    write_safi: bool,
    write_prefixes: bool,
) -> (r: Result<Vec<u8>, DumpError>)
    ensures
        bytes_of(r) == value_bytes(value@, add_path, write_afi, write_safi, write_prefixes),
{
    let mut buf: Vec<u8> = Vec::new();
    match value {
        AttributeValue::Origin(v) => {
            buf.push(v.to_u8());
            assert(buf@ =~= seq![v.code()]);
        },
        AttributeValue::AsPath(v) => {
            return encode_path(v);
        },
        AttributeValue::As4Path(v) => {
            return encode_path(v);
        },
        AttributeValue::NextHop(v) => {
            let _ = buf.write_ip(v);
            assert(buf@ =~= ip_bytes(*v));
        },
        AttributeValue::MultiExitDiscriminator(v) => {
            let _ = buf.write_32b(*v);
            assert(buf@ =~= be32(*v));
        },
        AttributeValue::LocalPreference(v) => {
            let _ = buf.write_32b(*v);
            assert(buf@ =~= be32(*v));
        },
        AttributeValue::AtomicAggregate(_) => {},
        AttributeValue::Aggregator(asn, ip) => {
            let _ = buf.write_asn(asn);
            let _ = buf.write_ip(ip);
            assert(buf@ =~= asn_bytes(*asn) + ip_bytes(*ip));
        },
        AttributeValue::Communities(v) => {
            return Ok(encode_communities(v));
        },
        AttributeValue::ExtendedCommunities(v) => {
            return Ok(encode_extended_communities(v));
        },
        AttributeValue::LargeCommunities(v) => {
            return Ok(encode_large_communities(v));
        },
        AttributeValue::OriginatorId(v) => {
            let _ = buf.write_ip(v);
            assert(buf@ =~= ip_bytes(*v));
        },
        AttributeValue::Clusters(v) => {
            return Ok(encode_addresses(v));
        },
        AttributeValue::MpReachNlri(v) => {
            return encode_mp_reach(v, add_path, write_afi, write_safi, write_prefixes);
        },
        AttributeValue::MpUnreachNlri(v) => {
            return encode_mp_unreach(v, add_path, write_afi, write_safi, write_prefixes);
        },
        AttributeValue::Development(v) => {
            put_bytes(&mut buf, v.as_slice());
            assert(buf@ =~= v@);
        },
    }
    Ok(buf)
}

/// A body behind its header of flag, type and length.
fn frame_attribute(flag: u8, code: u8, body: &Vec<u8>) -> (r: Result<Vec<u8>, DumpError>)
    ensures
        bytes_of(r) == framed_attribute(flag, code, body@),
{
    let mut buf: Vec<u8> = Vec::new();
    buf.push(flag);
    buf.push(code);
    if flag & EXTENDED_LENGTH_BIT != 0 {
        if body.len() > 0xFFFF {
            return Err(DumpError::ValueTooLarge);
        }
        let _ = buf.write_16b(body.len() as u16);
    } else {
        if body.len() > 0xFF {
            return Err(DumpError::ValueTooLarge);
        }
        buf.push(body.len() as u8);
    }
    put_bytes(&mut buf, body.as_slice());
    assert(buf@ =~= framed_attribute(flag, code, body@)->Ok_0);
    Ok(buf)
}

impl MrtAttrDump for Attribute {
    open spec fn encoding(
        &self,
        add_path: bool,
        write_afi: bool,
        write_safi: bool,
        write_prefixes: bool,
    ) -> Encoded {
        attribute_bytes(self@, add_path, write_afi, write_safi, write_prefixes)
    }

    fn to_bytes(
        &self,
        add_path: bool,
        write_afi: bool,
        write_safi: bool,
        write_prefixes: bool,
    ) -> (r: Result<Vec<u8>, DumpError>) {
        if let AttributeValue::AtomicAggregate(AtomicAggregate::NAG) = &self.value {
            return Ok(Vec::new());
        }
        match encode_value(&self.value, add_path, write_afi, write_safi, write_prefixes) {
            Err(e) => Err(e),
            Ok(body) => frame_attribute(self.flag, self.attr_type.to_u8(), &body),
        }
    }
}

/// The attributes of a list on the wire, in order.
pub fn encode_attributes(
    attrs: &Vec<Attribute>,
    add_path: bool,
    write_afi: bool,
    write_safi: bool,
    write_prefixes: bool,
) -> (r: Result<Vec<u8>, DumpError>)
    ensures
        bytes_of(r) == join(
            attribute_parts(
                attribute_views(attrs@),
                add_path,
                write_afi,
                write_safi,
                write_prefixes,
            ),
        ),
{
    let ghost parts = attribute_parts(
        attribute_views(attrs@),
        add_path,
        write_afi,
        write_safi,
        write_prefixes,
    );
    let mut buf: Vec<u8> = Vec::new();
    let mut i: usize = 0;
    while i < attrs.len()
        invariant
            i <= attrs@.len(),
            parts == attribute_parts(
                attribute_views(attrs@),
                add_path,
                write_afi,
                write_safi,
                write_prefixes,
            ),
            parts.len() == attrs@.len(),
            Ok::<Seq<u8>, DumpError>(buf@) == join(parts.take(i as int)),
        decreases attrs@.len() - i,
    {
        proof {
            lemma_join_step(parts, i as int);
            assert(parts[i as int] == attribute_bytes(
                attrs@[i as int]@,
                add_path,
                write_afi,
                write_safi,
                write_prefixes,
            ));
        }
        match attrs[i].to_bytes(add_path, write_afi, write_safi, write_prefixes) {
            Err(e) => {
                proof {
                    lemma_join_err(parts, i + 1);
                }
                return Err(e);
            },
            Ok(bytes) => {
                put_bytes(&mut buf, bytes.as_slice());
            },
        }
        i = i + 1;
    }
    proof {
        lemma_join_all(parts);
    }
    Ok(buf)
}

} // verus!
