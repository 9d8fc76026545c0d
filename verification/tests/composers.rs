use bgpkit_parser::models::{ElemType as ParsedElemType, Origin as ParsedOrigin};
use bgpkit_parser::parser::mrt::mrt_record::parse_mrt_record;
use bgpkit_parser::{BgpElem as ParsedElem, Elementor};
use bgpkit_parser_dump::models::attributes::{
    AsPath, AsPathSegment, AtomicAggregate, AttrType, AttributeValue, Origin,
};
use bgpkit_parser_dump::models::community::{
    Community, ExtendedCommunity, LargeCommunity, MetaCommunity,
};
use bgpkit_parser_dump::models::elem::{BgpElem, ElemType};
use bgpkit_parser_dump::models::network::{Asn, AsnLength, IpAddress, IpNetwork, NetworkPrefix};
use bgpkit_parser_dump::{
    elem_to_attributes, ipv4_to_u32, BgpUpdatesComposer, ComposeError, DumpError, MrtCompose,
    TableDumpComposer,
};

fn v4(a: u8, b: u8, c: u8, d: u8) -> IpAddress {
    IpAddress::V4(ipv4_to_u32(&[a, b, c, d]))
}

fn prefix4(a: u8, b: u8, c: u8, d: u8, bits: u8) -> NetworkPrefix {
    NetworkPrefix { prefix: IpNetwork { addr: v4(a, b, c, d), prefix: bits }, path_id: 0 }
}

/// The element of the tests: 10.2.2.0/24 as 1.2.3.4 announced it at 12.1 s.
fn sample_elem() -> BgpElem {
    let aspath = AsPath {
        segments: vec![AsPathSegment::AsSequence(
            [1, 2, 3, 5].iter().map(|i| Asn::new(*i)).collect(),
        )],
    };
    BgpElem {
        timestamp: 12,
        microseconds: 100000,
        elem_type: ElemType::ANNOUNCE,
        peer_ip: v4(1, 2, 3, 4),
        peer_asn: Asn { asn: 100, len: AsnLength::Bits32 },
        prefix: prefix4(10, 2, 2, 0, 24),
        next_hop: Some(v4(4, 3, 2, 1)),
        as_path: Some(aspath),
        origin_asns: None,
        origin: Some(Origin::EGP),
        local_pref: Some(250),
        med: Some(251),
        communities: None,
        atomic: Some(AtomicAggregate::AG),
        aggr_asn: Some(Asn::new(123)),
        aggr_ip: Some(v4(4, 3, 2, 2)),
    }
}

/// An element with nothing but what every element has.
fn bare_elem(peer: IpAddress, prefix: NetworkPrefix) -> BgpElem {
    BgpElem {
        timestamp: 1000,
        microseconds: 0,
        elem_type: ElemType::ANNOUNCE,
        peer_ip: peer,
        peer_asn: Asn::new(65000),
        prefix,
        next_hop: None,
        as_path: None,
        origin_asns: None,
        origin: None,
        local_pref: None,
        med: None,
        communities: None,
        atomic: None,
        aggr_asn: None,
        aggr_ip: None,
    }
}

/// The attributes of `sample_elem` on the wire: 53 octets.
fn sample_attributes() -> Vec<u8> {
    vec![
        0x40, 3, 4, 4, 3, 2, 1, // next hop
        0x40, 7, 8, 0, 0, 0, 123, 4, 3, 2, 2, // aggregator
        0x40, 17, 18, 2, 4, 0, 0, 0, 1, 0, 0, 0, 2, 0, 0, 0, 3, 0, 0, 0, 5, // path
        0x40, 6, 0, // atomic aggregate
        0x40, 4, 4, 0, 0, 0, 251, // multi-exit discriminator
        0x40, 1, 1, 1, // origin
    ]
}

/// The record that stands for `sample_elem` in a stream of updates.
fn sample_update_record() -> Vec<u8> {
    let mut want: Vec<u8> = vec![
        0, 0, 0, 12, 0, 17, 0, 4, 0, 0, 0, 104, 0, 1, 0x86, 0xA0, // header
        0, 0, 0, 100, 0, 0, 0, 0, 0, 0, 0, 1, 1, 2, 3, 4, 0, 0, 0, 0, // peer and local side
    ];
    want.extend(vec![0xFF; 16]);
    want.extend(vec![0, 80, 2, 0, 0, 0, 53]);
    want.extend(sample_attributes());
    want.extend(vec![24, 10, 2, 2]);
    want
}

fn parse_elems(bytes: &[u8]) -> Vec<ParsedElem> {
    let mut input = bytes;
    let mut elementor = Elementor::new();
    let mut elems = Vec::new();
    while !input.is_empty() {
        let record = parse_mrt_record(&mut input).unwrap();
        elems.extend(elementor.record_to_elems(record));
    }
    elems
}

fn assert_is_sample(elem: &ParsedElem, peer: &str) {
    assert_eq!(elem.elem_type, ParsedElemType::ANNOUNCE);
    assert_eq!(elem.peer_ip.to_string(), peer);
    assert_eq!(elem.peer_asn.to_u32(), 100);
    assert_eq!(elem.prefix.to_string(), "10.2.2.0/24");
    assert_eq!(elem.next_hop.unwrap().to_string(), "4.3.2.1");
    assert_eq!(elem.as_path.as_ref().unwrap().to_string(), "1 2 3 5");
    assert_eq!(elem.origin, Some(ParsedOrigin::EGP));
    assert_eq!(elem.med, Some(251));
    assert!(elem.atomic);
    assert_eq!(elem.aggr_asn.unwrap().to_u32(), 123);
    assert_eq!(elem.aggr_ip.unwrap().to_string(), "4.3.2.2");
}

#[test]
fn composer_test_compose() {
    let elem = sample_elem();

    let mut composer = BgpUpdatesComposer::new();
    composer.add_elem(&elem).unwrap();

    let bytes = composer.export_bytes().unwrap();
    assert_eq!(bytes, sample_update_record());

    let record = parse_mrt_record(&mut bytes.as_slice()).unwrap();
    assert_eq!(record.common_header.timestamp, 12);
    assert_eq!(record.common_header.microsecond_timestamp, Some(100000));
    assert_eq!(record.common_header.entry_subtype, 4);
    assert_eq!(record.common_header.length as usize, bytes.len() - 16);
}

#[test]
fn updates_composer_test_compose() {
    let elem = sample_elem();

    let mut composer = BgpUpdatesComposer::new();
    composer.add_elem(&elem).unwrap();

    let bytes = composer.export_bytes().unwrap();

    let elems = parse_elems(&bytes);
    assert_eq!(elems.len(), 1);
    assert_is_sample(&elems[0], "1.2.3.4");
    assert_eq!(elems[0].timestamp, 12.1);
}

#[test]
fn test_compose_rib() {
    let elem = sample_elem();
    let mut elem2 = sample_elem();
    elem2.peer_ip = v4(1, 2, 3, 1);

    let mut composer = TableDumpComposer::new();
    composer.add_elem(&elem).unwrap();
    composer.add_elem(&elem2).unwrap();

    let bytes = composer.export_bytes().unwrap();

    let mut want: Vec<u8> = vec![
        0, 0, 0, 12, 0, 13, 0, 1, 0, 0, 0, 34, // header of the peer table
        0, 0, 0, 0, 0, 0, 0, 2, // collector, view name, peer count
        2, 0, 0, 0, 0, 1, 2, 3, 4, 0, 0, 0, 100, // peer 0
        2, 0, 0, 0, 0, 1, 2, 3, 1, 0, 0, 0, 100, // peer 1
        0, 0, 0, 12, 0, 13, 0, 2, 0, 0, 0, 132, // header of the routes
        0, 0, 0, 0, 24, 10, 2, 2, 0, 2, // sequence number, prefix, entry count
    ];
    want.extend(vec![0, 0, 0, 0, 0, 0, 0, 53]);
    want.extend(sample_attributes());
    want.extend(vec![0, 1, 0, 0, 0, 0, 0, 53]);
    want.extend(sample_attributes());
    assert_eq!(bytes, want);

    let elems = parse_elems(&bytes);
    assert_eq!(elems.len(), 2);
    assert_is_sample(&elems[0], "1.2.3.4");
    assert_is_sample(&elems[1], "1.2.3.1");
}

/// A stream of updates made here stands for an archive of updates: every
/// record of it must read back as what was written.
#[test]
fn test_updates() {
    let mut composer = BgpUpdatesComposer::new();
    let mut announced = sample_elem();
    announced.communities = Some(vec![
        MetaCommunity::Community(Community::Custom(Asn::new(100), 200)),
        MetaCommunity::LargeCommunity(LargeCommunity::new(1, [2, 3])),
        MetaCommunity::Community(Community::NoExport),
    ]);
    let mut withdrawn = bare_elem(v4(1, 2, 3, 4), prefix4(192, 168, 0, 0, 16));
    withdrawn.elem_type = ElemType::WITHDRAW;
    composer.add_elem(&announced).unwrap();
    composer.add_elem(&withdrawn).unwrap();
    composer.add_elem(&sample_elem()).unwrap();
    let bytes = composer.export_bytes().unwrap();

    let mut input = bytes.as_slice();
    let mut count = 0;
    let mut elementor = Elementor::new();
    let mut elems = Vec::new();
    while !input.is_empty() {
        let before = input.len();
        let record = parse_mrt_record(&mut input).unwrap();
        // the reader takes the microseconds out of the length that it found
        assert_eq!(record.common_header.length as usize + 16, before - input.len());
        count += 1;
        elems.extend(elementor.record_to_elems(record));
    }
    assert_eq!(count, 3);
    assert_eq!(elems.len(), 3);
    assert_is_sample(&elems[0], "1.2.3.4");
    let communities: Vec<String> =
        elems[0].communities.as_ref().unwrap().iter().map(|c| c.to_string()).collect();
    assert_eq!(communities, vec!["100:200", "no-export", "1:2:3"]);
    assert_eq!(elems[1].elem_type, ParsedElemType::WITHDRAW);
    assert_eq!(elems[1].prefix.to_string(), "192.168.0.0/16");
    assert_is_sample(&elems[2], "1.2.3.4");
}

/// A table dump made here stands for an archive of one: every record of it
/// must read back as what was written.
#[test]
fn test_rib_v2() {
    let mut composer = TableDumpComposer::new();
    let v6_peer = IpAddress::V6(0x2001_0db8_0000_0000_0000_0000_0000_0001);
    let v6_prefix = NetworkPrefix {
        prefix: IpNetwork {
            addr: IpAddress::V6(0x2001_0db8_00aa_0000_0000_0000_0000_0000),
            prefix: 48,
        },
        path_id: 0,
    };
    composer.add_elem(&bare_elem(v6_peer, v6_prefix)).unwrap();
    composer.add_elem(&sample_elem()).unwrap();
    composer.add_elem(&bare_elem(v4(9, 9, 9, 9), prefix4(10, 2, 2, 0, 24))).unwrap();
    let bytes = composer.export_bytes().unwrap();

    let mut input = bytes.as_slice();
    let mut subtypes = Vec::new();
    let mut elementor = Elementor::new();
    let mut elems = Vec::new();
    while !input.is_empty() {
        let before = input.len();
        let record = parse_mrt_record(&mut input).unwrap();
        assert_eq!(record.common_header.length as usize + 12, before - input.len());
        assert_eq!(record.common_header.timestamp, 1000);
        subtypes.push(record.common_header.entry_subtype);
        elems.extend(elementor.record_to_elems(record));
    }
    assert_eq!(subtypes, vec![1, 2, 4]);
    assert_eq!(elems.len(), 3);
    assert_is_sample(&elems[0], "1.2.3.4");
    assert_eq!(elems[1].peer_ip.to_string(), "9.9.9.9");
    assert_eq!(elems[1].prefix.to_string(), "10.2.2.0/24");
    assert_eq!(elems[2].peer_ip.to_string(), "2001:db8::1");
    assert_eq!(elems[2].prefix.to_string(), "2001:db8:aa::/48");
    assert_eq!(elems[2].peer_asn.to_u32(), 65000);
}

#[test]
fn test_filtered_updates() {
    let mut elems = Vec::new();
    let mut i: u32 = 0;
    while i < 118 {
        let mut elem = sample_elem();
        elem.timestamp = 1638679800 + i;
        elem.prefix = prefix4(10, (i / 256) as u8, (i % 256) as u8, 0, 24);
        if i % 5 == 0 {
            elem = bare_elem(v4(1, 2, 3, 4), elem.prefix);
            elem.elem_type = ElemType::WITHDRAW;
        }
        elems.push(elem);
        i += 1;
    }

    let mut composer = BgpUpdatesComposer::new();
    for elem in &elems {
        composer.add_elem(elem).unwrap();
    }

    let bytes = composer.export_bytes().unwrap();

    let elem_count = parse_elems(&bytes).len();
    assert_eq!(elem_count, 118);
}

#[test]
fn test_filtered_rib() {
    let mut elems = Vec::new();
    let mut i: u32 = 0;
    while i < 2507 {
        let mut elem = sample_elem();
        // 23 peers, and prefixes that come in no order and come again
        elem.peer_ip = v4(10, 0, 0, (i % 23) as u8);
        let net = (i * 7919) % 1000;
        elem.prefix = prefix4(100, (net / 256) as u8, (net % 256) as u8, 0, 24);
        elems.push(elem);
        i += 1;
    }

    let mut composer = TableDumpComposer::new();
    for elem in &elems {
        composer.add_elem(elem).unwrap();
    }

    let bytes = composer.export_bytes().unwrap();

    let parsed = parse_elems(&bytes);
    assert_eq!(parsed.len(), 2507);
    let mut i = 1;
    while i < parsed.len() {
        assert!(parsed[i - 1].prefix.prefix <= parsed[i].prefix.prefix);
        i += 1;
    }
}

#[test]
fn add_elems_takes_a_list() {
    let elems = vec![sample_elem(), sample_elem()];
    let mut composer = BgpUpdatesComposer::new();
    assert_eq!(composer.add_elems(&elems), Ok(()));
    let mut want = sample_update_record();
    want.extend(sample_update_record());
    assert_eq!(composer.export_bytes().unwrap(), want);

    let mut one_by_one = TableDumpComposer::new();
    one_by_one.add_elem(&elems[0]).unwrap();
    one_by_one.add_elem(&elems[1]).unwrap();
    let mut at_once = TableDumpComposer::new();
    assert_eq!(at_once.add_elems(&elems), Ok(()));
    assert_eq!(at_once.export_bytes(), one_by_one.export_bytes());
}

#[test]
fn add_elems_stops_at_the_first_element_that_is_refused() {
    let mut broken = sample_elem();
    broken.aggr_ip = None;
    let elems = vec![sample_elem(), broken, sample_elem()];
    let mut composer = BgpUpdatesComposer::new();
    assert_eq!(
        composer.add_elems(&elems),
        Err(ComposeError::DumpError(DumpError::MalformedInput))
    );
    assert_eq!(composer.export_bytes().unwrap(), sample_update_record());
}

#[test]
fn empty_updates_composer_exports_nothing() {
    let mut composer = BgpUpdatesComposer::new();
    assert_eq!(composer.export_bytes().unwrap(), Vec::<u8>::new());
}

#[test]
fn empty_rib_composer_exports_a_table_of_no_peers() {
    let mut composer = TableDumpComposer::new();
    let bytes = composer.export_bytes().unwrap();
    assert_eq!(bytes, vec![0, 0, 0, 0, 0, 13, 0, 1, 0, 0, 0, 8, 0, 0, 0, 0, 0, 0, 0, 0]);
    assert_eq!(parse_elems(&bytes).len(), 0);
}

#[test]
fn export_leaves_the_composer_as_it_was() {
    let mut composer = TableDumpComposer::new();
    composer.add_elem(&sample_elem()).unwrap();
    let first = composer.export_bytes().unwrap();
    assert_eq!(composer.export_bytes().unwrap(), first);
    composer.add_elem(&bare_elem(v4(5, 5, 5, 5), prefix4(11, 0, 0, 0, 8))).unwrap();
    let second = composer.export_bytes().unwrap();
    assert!(second.len() > first.len());
    assert_eq!(parse_elems(&second).len(), 2);
}

#[test]
fn withdrawal_goes_into_the_withdrawn_prefixes() {
    let mut elem = bare_elem(v4(1, 2, 3, 4), prefix4(10, 2, 2, 0, 24));
    elem.elem_type = ElemType::WITHDRAW;
    elem.peer_asn = Asn { asn: 100, len: AsnLength::Bits32 };
    let mut composer = BgpUpdatesComposer::new();
    composer.add_elem(&elem).unwrap();
    let mut want: Vec<u8> = vec![
        0, 0, 3, 232, 0, 17, 0, 4, 0, 0, 0, 51, 0, 0, 0, 0, // header
        0, 0, 0, 100, 0, 0, 0, 0, 0, 0, 0, 1, 1, 2, 3, 4, 0, 0, 0, 0, // peer and local side
    ];
    want.extend(vec![0xFF; 16]);
    want.extend(vec![0, 27, 2, 0, 4, 24, 10, 2, 2, 0, 0]);
    assert_eq!(composer.export_bytes().unwrap(), want);
}

#[test]
fn update_for_an_ipv6_peer_and_prefix() {
    let peer = IpAddress::V6(0x2001_0db8_0000_0000_0000_0000_0000_0001);
    let prefix = NetworkPrefix {
        prefix: IpNetwork { addr: IpAddress::V6(0x2001_0db8_0000_0000_0000_0000_0000_0000), prefix: 32 },
        path_id: 0,
    };
    let mut elem = bare_elem(peer, prefix);
    elem.peer_asn = Asn { asn: 7, len: AsnLength::Bits16 };
    let mut composer = BgpUpdatesComposer::new();
    composer.add_elem(&elem).unwrap();
    let bytes = composer.export_bytes().unwrap();
    // the local AS number takes the width of the peer's; the local address
    // is the zero address of the peer's family
    let mut want: Vec<u8> = vec![0, 0, 3, 232, 0, 17, 0, 4, 0, 0, 0, 72, 0, 0, 0, 0];
    want.extend(vec![0, 7, 0, 0, 0, 0, 0, 2]);
    want.extend(vec![0x20, 0x01, 0x0d, 0xb8, 0, 0, 0, 0, 0, 0, 0, 0, 0, 0, 0, 1]);
    want.extend(vec![0; 16]);
    want.extend(vec![0xFF; 16]);
    want.extend(vec![0, 28, 2, 0, 0, 0, 0, 32, 0x20, 0x01, 0x0d, 0xb8]);
    assert_eq!(bytes, want);
}

#[test]
fn attributes_come_in_the_fixed_order() {
    let mut elem = sample_elem();
    elem.communities = Some(vec![
        MetaCommunity::LargeCommunity(LargeCommunity::new(1, [2, 3])),
        MetaCommunity::Community(Community::NoAdvertise),
        MetaCommunity::ExtendedCommunity(ExtendedCommunity::Raw([1, 2, 3, 4, 5, 6, 7, 8])),
        MetaCommunity::Community(Community::NoExport),
    ]);
    let attrs = elem_to_attributes(&elem).unwrap();
    let types: Vec<AttrType> = attrs.iter().map(|a| a.attr_type).collect();
    assert_eq!(
        types,
        vec![
            AttrType::NEXT_HOP,
            AttrType::COMMUNITIES,
            AttrType::EXTENDED_COMMUNITIES,
            AttrType::LARGE_COMMUNITIES,
            AttrType::AGGREGATOR,
            AttrType::AS4_PATH,
            AttrType::ATOMIC_AGGREGATE,
            AttrType::MULTI_EXIT_DISCRIMINATOR,
            AttrType::ORIGIN,
        ]
    );
    assert!(attrs.iter().all(|a| a.flag == 0x40));
    assert_eq!(
        attrs[1].value,
        AttributeValue::Communities(vec![Community::NoAdvertise, Community::NoExport])
    );
    assert_eq!(
        attrs[2].value,
        AttributeValue::ExtendedCommunities(vec![ExtendedCommunity::Raw([1, 2, 3, 4, 5, 6, 7, 8])])
    );
    assert_eq!(
        attrs[3].value,
        AttributeValue::LargeCommunities(vec![LargeCommunity::new(1, [2, 3])])
    );
    assert_eq!(attrs[5].value, AttributeValue::As4Path(elem.as_path.clone().unwrap()));
}

#[test]
fn an_empty_kind_of_community_gets_no_attribute() {
    let mut elem = bare_elem(v4(1, 1, 1, 1), prefix4(10, 0, 0, 0, 8));
    elem.communities = Some(vec![MetaCommunity::LargeCommunity(LargeCommunity::new(1, [2, 3]))]);
    let attrs = elem_to_attributes(&elem).unwrap();
    assert_eq!(attrs.len(), 1);
    assert_eq!(attrs[0].attr_type, AttrType::LARGE_COMMUNITIES);
    elem.communities = Some(vec![]);
    assert_eq!(elem_to_attributes(&elem).unwrap().len(), 0);
}

#[test]
fn no_atomic_aggregate_attribute_without_the_mark() {
    let mut elem = sample_elem();
    elem.atomic = Some(AtomicAggregate::NAG);
    let attrs = elem_to_attributes(&elem).unwrap();
    assert!(attrs.iter().all(|a| a.attr_type != AttrType::ATOMIC_AGGREGATE));
    assert_eq!(attrs.len(), 5);
    elem.atomic = None;
    let attrs = elem_to_attributes(&elem).unwrap();
    assert!(attrs.iter().all(|a| a.attr_type != AttrType::ATOMIC_AGGREGATE));

    let mut composer = BgpUpdatesComposer::new();
    elem.atomic = Some(AtomicAggregate::NAG);
    composer.add_elem(&elem).unwrap();
    let parsed = parse_elems(&composer.export_bytes().unwrap());
    assert!(!parsed[0].atomic);
}

#[test]
fn local_preference_is_not_written() {
    let mut elem = bare_elem(v4(1, 1, 1, 1), prefix4(10, 0, 0, 0, 8));
    elem.local_pref = Some(250);
    assert_eq!(elem_to_attributes(&elem).unwrap().len(), 0);
}

#[test]
fn aggregator_needs_its_address() {
    let mut elem = sample_elem();
    elem.aggr_ip = None;
    assert_eq!(
        elem_to_attributes(&elem),
        Err(ComposeError::DumpError(DumpError::MalformedInput))
    );
    let mut updates = BgpUpdatesComposer::new();
    assert_eq!(
        updates.add_elem(&elem),
        Err(ComposeError::DumpError(DumpError::MalformedInput))
    );
    assert_eq!(updates.export_bytes().unwrap(), Vec::<u8>::new());
    let mut rib = TableDumpComposer::new();
    let empty = rib.export_bytes().unwrap();
    assert_eq!(rib.add_elem(&elem), Err(ComposeError::DumpError(DumpError::MalformedInput)));
    assert_eq!(rib.export_bytes().unwrap(), empty);
}

#[test]
fn aggregator_address_alone_gets_no_attribute() {
    let mut elem = bare_elem(v4(1, 1, 1, 1), prefix4(10, 0, 0, 0, 8));
    elem.aggr_ip = Some(v4(4, 3, 2, 2));
    assert_eq!(elem_to_attributes(&elem).unwrap().len(), 0);
}

#[test]
fn peers_get_their_index_when_first_seen() {
    let mut composer = TableDumpComposer::new();
    let peers = [v4(9, 0, 0, 1), v4(3, 0, 0, 1), v4(9, 0, 0, 1), v4(5, 0, 0, 1), v4(3, 0, 0, 1)];
    let mut i = 0;
    while i < peers.len() {
        composer.add_elem(&bare_elem(peers[i], prefix4(10, 0, 0, 0, 8))).unwrap();
        i += 1;
    }
    let bytes = composer.export_bytes().unwrap();
    // the table: three peers, in the order in which they were first seen
    assert_eq!(&bytes[12..20], &[0, 0, 0, 0, 0, 0, 0, 3]);
    assert_eq!(&bytes[20..33], &[2, 0, 0, 0, 0, 9, 0, 0, 1, 0, 0, 0xFD, 0xE8]);
    assert_eq!(&bytes[33..46], &[2, 0, 0, 0, 0, 3, 0, 0, 1, 0, 0, 0xFD, 0xE8]);
    assert_eq!(&bytes[46..59], &[2, 0, 0, 0, 0, 5, 0, 0, 1, 0, 0, 0xFD, 0xE8]);
    // the routes: five entries, each with the index of its peer
    let rib = &bytes[59 + 12..];
    assert_eq!(&rib[..8], &[0, 0, 0, 0, 8, 10, 0, 5]);
    let indices: Vec<u8> = (0..5).map(|k| rib[8 + k * 8 + 1]).collect();
    assert_eq!(indices, vec![0, 1, 0, 2, 1]);
    let parsed = parse_elems(&bytes);
    let seen: Vec<String> = parsed.iter().map(|e| e.peer_ip.to_string()).collect();
    assert_eq!(seen, vec!["9.0.0.1", "3.0.0.1", "9.0.0.1", "5.0.0.1", "3.0.0.1"]);
}

#[test]
fn the_peer_of_a_table_is_written_with_32_bits_of_as_number() {
    let mut elem = bare_elem(IpAddress::V6(5), prefix4(10, 0, 0, 0, 8));
    elem.peer_asn = Asn { asn: 7, len: AsnLength::Bits16 };
    let mut composer = TableDumpComposer::new();
    composer.add_elem(&elem).unwrap();
    let bytes = composer.export_bytes().unwrap();
    let mut want: Vec<u8> = vec![0, 0, 3, 232, 0, 13, 0, 1, 0, 0, 0, 33, 0, 0, 0, 0, 0, 0, 0, 1];
    want.extend(vec![3, 0, 0, 0, 0]);
    want.extend(vec![0, 0, 0, 0, 0, 0, 0, 0, 0, 0, 0, 0, 0, 0, 0, 5]);
    want.extend(vec![0, 0, 0, 7]);
    assert_eq!(&bytes[..want.len()], &want[..]);
}

#[test]
fn prefixes_come_out_in_rising_order() {
    let mut composer = TableDumpComposer::new();
    let v6 = NetworkPrefix {
        prefix: IpNetwork { addr: IpAddress::V6(1 << 120), prefix: 8 },
        path_id: 0,
    };
    let peer = v4(1, 1, 1, 1);
    composer.add_elem(&bare_elem(peer, v6)).unwrap();
    composer.add_elem(&bare_elem(peer, prefix4(10, 0, 0, 0, 16))).unwrap();
    composer.add_elem(&bare_elem(peer, prefix4(200, 0, 0, 0, 8))).unwrap();
    composer.add_elem(&bare_elem(peer, prefix4(10, 0, 0, 0, 8))).unwrap();
    composer.add_elem(&bare_elem(peer, prefix4(9, 255, 0, 0, 16))).unwrap();
    composer.add_elem(&bare_elem(peer, prefix4(10, 0, 0, 0, 8))).unwrap();
    let parsed = parse_elems(&composer.export_bytes().unwrap());
    let prefixes: Vec<String> = parsed.iter().map(|e| e.prefix.to_string()).collect();
    assert_eq!(
        prefixes,
        vec!["9.255.0.0/16", "10.0.0.0/8", "10.0.0.0/8", "10.0.0.0/16", "200.0.0.0/8", "100::/8"]
    );
}

#[test]
fn the_first_element_gives_its_time_to_the_dump() {
    let mut composer = TableDumpComposer::new();
    let mut first = bare_elem(v4(1, 1, 1, 1), prefix4(10, 0, 0, 0, 8));
    first.timestamp = 0;
    let mut second = bare_elem(v4(2, 2, 2, 2), prefix4(11, 0, 0, 0, 8));
    second.timestamp = 77;
    composer.add_elem(&first).unwrap();
    composer.add_elem(&second).unwrap();
    let bytes = composer.export_bytes().unwrap();
    let mut input = bytes.as_slice();
    while !input.is_empty() {
        let record = parse_mrt_record(&mut input).unwrap();
        assert_eq!(record.common_header.timestamp, 0);
    }
}

#[test]
fn a_table_takes_65535_peers_and_no_more() {
    let mut composer = TableDumpComposer::new();
    let prefix = prefix4(10, 0, 0, 0, 8);
    let mut i: u32 = 0;
    while i < 65535 {
        composer.add_elem(&bare_elem(IpAddress::V4(i), prefix)).unwrap();
        i += 1;
    }
    assert_eq!(
        composer.add_elem(&bare_elem(IpAddress::V4(65535), prefix)),
        Err(ComposeError::DumpError(DumpError::ValueTooLarge))
    );
    // a peer that is in the table is still taken; the prefix then has more
    // routes than a record can count
    assert_eq!(composer.add_elem(&bare_elem(IpAddress::V4(3), prefix4(11, 0, 0, 0, 8))), Ok(()));
    assert_eq!(composer.add_elem(&bare_elem(IpAddress::V4(4), prefix)), Ok(()));
    assert_eq!(
        composer.export_bytes(),
        Err(ComposeError::DumpError(DumpError::ValueTooLarge))
    );
}

#[test]
fn an_element_that_cannot_be_written_fails_the_export() {
    let mut elem = bare_elem(v4(1, 1, 1, 1), prefix4(10, 0, 0, 0, 33));
    elem.elem_type = ElemType::ANNOUNCE;
    let mut composer = BgpUpdatesComposer::new();
    composer.add_elem(&elem).unwrap();
    assert_eq!(
        composer.export_bytes(),
        Err(ComposeError::DumpError(DumpError::MalformedInput))
    );
    assert_eq!(ComposeError::DumpError(DumpError::MalformedInput).message(), "malformed input");
}
