use std::collections::HashMap;

use bgpkit_parser::models::{
    Bgp4MpEnum, BgpMessage as ParsedBgpMessage, MrtMessage as ParsedMessage,
    TableDumpV2Message as ParsedTableDump,
};
use bgpkit_parser::parser::mrt::mrt_header::parse_common_header;
use bgpkit_parser::parser::mrt::mrt_record::parse_mrt_record;
use bgpkit_parser_dump::models::attributes::{
    AttrType, Attribute, AttributeValue, Nlri, Origin,
};
use bgpkit_parser_dump::models::bgp::{
    BgpKeepAliveMessage, BgpMessage, BgpMessageType, BgpNotificationMessage, BgpOpenMessage,
    BgpUpdateMessage, OptParam,
};
use bgpkit_parser_dump::models::mrt::{
    Bgp4Mp, Bgp4MpMessage, Bgp4MpStateChange, Bgp4MpType, BgpState, CommonHeader, EntryType,
    MrtMessage, MrtRecord, Peer, PeerIndexTable, RibAfiEntries, RibEntry, RibGenericEntries,
    TableDumpMessage, TableDumpV2Message, TableDumpV2Type,
};
use bgpkit_parser_dump::models::network::{
    Afi, Asn, AsnLength, IpAddress, IpNetwork, NetworkPrefix, NextHopAddress, Safi,
};
use bgpkit_parser_dump::{DumpError, MrtDump};

fn prefix4(addr: u32, bits: u8, path_id: u32) -> NetworkPrefix {
    NetworkPrefix { prefix: IpNetwork { addr: IpAddress::V4(addr), prefix: bits }, path_id }
}

fn origin_igp() -> Attribute {
    Attribute { attr_type: AttrType::ORIGIN, value: AttributeValue::Origin(Origin::IGP), flag: 0x40 }
}

fn with_marker(rest: Vec<u8>) -> Vec<u8> {
    let mut bytes = vec![0xFF; 16];
    bytes.extend(rest);
    bytes
}

#[test]
fn test_common_header() {
    // test MRT header
    let header1 = CommonHeader {
        timestamp: 1,
        microsecond_timestamp: Some(100),
        entry_type: EntryType::BGP4MP_ET,
        entry_subtype: 15,
        length: 20,
    };

    // turn it to raw bytes in MRT format
    let bytes = header1.to_bytes(20).unwrap();

    // parse it back
    let header2 = parse_common_header(&mut bytes.as_slice()).unwrap();

    // test equality!
    assert_eq!(header1.timestamp, header2.timestamp);
    assert_eq!(header1.microsecond_timestamp, header2.microsecond_timestamp);
    assert_eq!(header1.entry_type.to_u16(), header2.entry_type as u16);
    assert_eq!(header1.entry_subtype, header2.entry_subtype);
    assert_eq!(header1.length, header2.length);
}

#[test]
fn common_header_bytes_with_microseconds() {
    let header = CommonHeader {
        timestamp: 1,
        microsecond_timestamp: Some(100),
        entry_type: EntryType::BGP4MP_ET,
        entry_subtype: 15,
        length: 0,
    };
    assert_eq!(
        header.to_bytes(20).unwrap(),
        vec![0, 0, 0, 1, 0, 17, 0, 15, 0, 0, 0, 24, 0, 0, 0, 100]
    );
}

#[test]
fn common_header_bytes_without_microseconds() {
    let header = CommonHeader {
        timestamp: 0x01020304,
        microsecond_timestamp: None,
        entry_type: EntryType::TABLE_DUMP_V2,
        entry_subtype: 2,
        length: 0,
    };
    assert_eq!(header.to_bytes(300).unwrap(), vec![1, 2, 3, 4, 0, 13, 0, 2, 0, 0, 1, 44]);
}

#[test]
fn common_header_refuses_type_and_microseconds_that_disagree() {
    let missing = CommonHeader {
        timestamp: 1,
        microsecond_timestamp: None,
        entry_type: EntryType::BGP4MP_ET,
        entry_subtype: 4,
        length: 0,
    };
    assert_eq!(missing.to_bytes(0), Err(DumpError::MalformedInput));
    let unasked = CommonHeader {
        timestamp: 1,
        microsecond_timestamp: Some(5),
        entry_type: EntryType::BGP4MP,
        entry_subtype: 4,
        length: 0,
    };
    assert_eq!(unasked.to_bytes(0), Err(DumpError::MalformedInput));
}

#[test]
fn entry_types_with_microseconds() {
    assert!(EntryType::BGP4MP_ET.is_extended());
    assert!(EntryType::ISIS_ET.is_extended());
    assert!(EntryType::OSPFv3_ET.is_extended());
    assert!(!EntryType::BGP4MP.is_extended());
    assert!(!EntryType::TABLE_DUMP_V2.is_extended());
    assert_eq!(EntryType::OSPFv3_ET.to_u16(), 49);
    assert_eq!(EntryType::TABLE_DUMP.to_u16(), 12);
}

fn open_message(opt_params: Vec<OptParam>) -> BgpOpenMessage {
    BgpOpenMessage {
        version: 4,
        asn: Asn { asn: 65000, len: AsnLength::Bits16 },
        hold_time: 180,
        sender_ip: 0x0A00_0001,
        extended_length: false,
        opt_params,
    }
}

#[test]
fn open_body() {
    assert_eq!(
        open_message(vec![]).to_bytes(0).unwrap(),
        vec![4, 0xFD, 0xE8, 0, 180, 10, 0, 0, 1, 0]
    );
}

#[test]
fn open_message_with_header() {
    let bytes = BgpMessage::Open(open_message(vec![])).to_bytes(0).unwrap();
    assert_eq!(bytes, with_marker(vec![0, 29, 1, 4, 0xFD, 0xE8, 0, 180, 10, 0, 0, 1, 0]));
}

#[test]
fn open_with_optional_parameters_is_refused() {
    let param = OptParam { param_type: 2, param_value: vec![1, 4, 0, 1, 0, 1] };
    assert_eq!(open_message(vec![param.clone()]).to_bytes(0), Err(DumpError::UnsupportedMessage));
    assert_eq!(
        BgpMessage::Open(open_message(vec![param])).to_bytes(0),
        Err(DumpError::UnsupportedMessage)
    );
}

#[test]
fn notification_message() {
    let m = BgpNotificationMessage { error_code: 6, error_subcode: 2, data: vec![1, 2] };
    assert_eq!(m.to_bytes(0).unwrap(), vec![6, 2, 1, 2]);
    assert_eq!(
        BgpMessage::Notification(m).to_bytes(0).unwrap(),
        with_marker(vec![0, 23, 3, 6, 2, 1, 2])
    );
}

#[test]
fn keepalive_message_is_the_header_alone() {
    assert_eq!(BgpKeepAliveMessage {}.to_bytes(0).unwrap(), Vec::<u8>::new());
    assert_eq!(
        BgpMessage::KeepAlive(BgpKeepAliveMessage {}).to_bytes(0).unwrap(),
        with_marker(vec![0, 19, 4])
    );
}

#[test]
fn message_type_codes() {
    assert_eq!(BgpMessageType::OPEN.to_u8(), 1);
    assert_eq!(BgpMessageType::UPDATE.to_u8(), 2);
    assert_eq!(BgpMessageType::NOTIFICATION.to_u8(), 3);
    assert_eq!(BgpMessageType::KEEPALIVE.to_u8(), 4);
}

fn update() -> BgpUpdateMessage {
    BgpUpdateMessage {
        withdrawn_prefixes: vec![prefix4(0x0A00_0000, 8, 1)],
        attributes: vec![origin_igp()],
        announced_prefixes: vec![prefix4(0xC0A8_0100, 24, 2)],
    }
}

#[test]
fn update_body() {
    assert_eq!(
        update().to_bytes(0).unwrap(),
        vec![0, 2, 8, 10, 0, 4, 0x40, 1, 1, 0, 24, 192, 168, 1]
    );
}

#[test]
fn update_body_with_path_identifiers() {
    assert_eq!(
        update().to_bytes(1).unwrap(),
        vec![0, 6, 0, 0, 0, 1, 8, 10, 0, 4, 0x40, 1, 1, 0, 0, 0, 0, 2, 24, 192, 168, 1]
    );
}

#[test]
fn update_message_length_counts_the_whole_message() {
    let bytes = BgpMessage::Update(update()).to_bytes(0).unwrap();
    assert_eq!(bytes.len(), 19 + 14);
    assert_eq!(&bytes[..16], &[0xFF; 16]);
    assert_eq!(&bytes[16..19], &[0, 33, 2]);
}

#[test]
fn update_carries_family_and_prefixes_in_its_reach_attribute() {
    let m = BgpUpdateMessage {
        withdrawn_prefixes: vec![],
        attributes: vec![Attribute {
            attr_type: AttrType::MP_REACHABLE_NLRI,
            value: AttributeValue::MpReachNlri(Nlri {
                afi: Afi::Ipv4,
                safi: Safi::Unicast,
                next_hop: Some(NextHopAddress::Ipv4(0x0101_0101)),
                prefixes: vec![prefix4(0x0A00_0000, 8, 0)],
            }),
            flag: 0x80,
        }],
        announced_prefixes: vec![],
    };
    assert_eq!(
        m.to_bytes(0).unwrap(),
        vec![0, 0, 0, 14, 0x80, 14, 11, 0, 1, 1, 4, 1, 1, 1, 1, 0, 8, 10]
    );
}

#[test]
fn update_with_too_many_withdrawn_prefixes_is_too_large() {
    // 13107 prefixes of five octets take 65535 octets, one more does not fit
    let mut m = BgpUpdateMessage {
        withdrawn_prefixes: vec![prefix4(0x0A0B_0C0D, 32, 0); 13107],
        attributes: vec![],
        announced_prefixes: vec![],
    };
    let body = m.to_bytes(0).unwrap();
    assert_eq!(body.len(), 2 + 65535 + 2);
    assert_eq!(&body[..2], &[0xFF, 0xFF]);
    // the body fits its own field, the message does not fit the header's
    assert_eq!(BgpMessage::Update(m.clone()).to_bytes(0), Err(DumpError::ValueTooLarge));
    m.withdrawn_prefixes.push(prefix4(0, 0, 0));
    assert_eq!(m.to_bytes(0), Err(DumpError::ValueTooLarge));
}

#[test]
fn message_of_65535_octets_is_the_longest() {
    let fits = BgpNotificationMessage { error_code: 1, error_subcode: 1, data: vec![0; 65514] };
    let bytes = BgpMessage::Notification(fits).to_bytes(0).unwrap();
    assert_eq!(bytes.len(), 65535);
    assert_eq!(&bytes[16..18], &[0xFF, 0xFF]);
    let over = BgpNotificationMessage { error_code: 1, error_subcode: 1, data: vec![0; 65515] };
    assert_eq!(BgpMessage::Notification(over).to_bytes(0), Err(DumpError::ValueTooLarge));
}

#[test]
fn update_reports_the_first_error_in_writing_order() {
    let m = BgpUpdateMessage {
        withdrawn_prefixes: vec![prefix4(0, 33, 0)],
        attributes: vec![Attribute {
            attr_type: AttrType::DEVELOPMENT,
            value: AttributeValue::Development(vec![0; 300]),
            flag: 0x40,
        }],
        announced_prefixes: vec![],
    };
    assert_eq!(m.to_bytes(0), Err(DumpError::MalformedInput));
    let m = BgpUpdateMessage {
        withdrawn_prefixes: vec![],
        attributes: vec![Attribute {
            attr_type: AttrType::DEVELOPMENT,
            value: AttributeValue::Development(vec![0; 300]),
            flag: 0x40,
        }],
        announced_prefixes: vec![prefix4(0, 33, 0)],
    };
    assert_eq!(m.to_bytes(0), Err(DumpError::ValueTooLarge));
}

fn state_change() -> Bgp4MpStateChange {
    Bgp4MpStateChange {
        msg_type: Bgp4MpType::Bgp4MpStateChangeAs4,
        peer_asn: Asn::new(100),
        local_asn: Asn::new(200),
        interface_index: 1,
        address_family: Afi::Ipv4,
        peer_addr: IpAddress::V4(0x0101_0101),
        local_addr: IpAddress::V4(0x0202_0202),
        old_state: BgpState::Idle,
        new_state: BgpState::Established,
    }
}

#[test]
fn state_change_bytes() {
    let want =
        vec![0, 0, 0, 100, 0, 0, 0, 200, 0, 1, 0, 1, 1, 1, 1, 1, 2, 2, 2, 2, 0, 1, 0, 6];
    assert_eq!(state_change().to_bytes(5).unwrap(), want);
    assert_eq!(Bgp4Mp::Bgp4MpStateChangeAs4(state_change()).to_bytes(5).unwrap(), want);
    assert_eq!(Bgp4Mp::Bgp4MpStateChange(state_change()).to_bytes(0).unwrap(), want);
}

#[test]
fn state_change_with_16_bit_as_numbers_and_ipv6() {
    let mut m = state_change();
    m.peer_asn = Asn { asn: 100, len: AsnLength::Bits16 };
    m.local_asn = Asn { asn: 200, len: AsnLength::Bits16 };
    m.address_family = Afi::Ipv6;
    m.peer_addr = IpAddress::V6(1);
    m.local_addr = IpAddress::V6(2);
    m.old_state = BgpState::OpenSent;
    m.new_state = BgpState::OpenConfirm;
    let bytes = m.to_bytes(0).unwrap();
    assert_eq!(bytes.len(), 2 + 2 + 2 + 2 + 16 + 16 + 2 + 2);
    assert_eq!(&bytes[..8], &[0, 100, 0, 200, 0, 1, 0, 2]);
    assert_eq!(bytes[23], 1);
    assert_eq!(bytes[39], 2);
    assert_eq!(&bytes[40..], &[0, 4, 0, 5]);
}

#[test]
fn state_change_reads_back() {
    let record = MrtRecord {
        common_header: CommonHeader {
            timestamp: 5,
            microsecond_timestamp: None,
            entry_type: EntryType::BGP4MP,
            entry_subtype: Bgp4MpType::Bgp4MpStateChangeAs4.to_u16(),
            length: 0,
        },
        message: MrtMessage::Bgp4Mp(Bgp4Mp::Bgp4MpStateChangeAs4(state_change())),
    };
    let bytes = record.to_bytes(0).unwrap();
    assert_eq!(&bytes[..12], &[0, 0, 0, 5, 0, 16, 0, 5, 0, 0, 0, 24]);
    let parsed = parse_mrt_record(&mut bytes.as_slice()).unwrap();
    match parsed.message {
        ParsedMessage::Bgp4Mp(Bgp4MpEnum::StateChange(m)) => {
            assert_eq!(m.peer_asn.to_u32(), 100);
            assert_eq!(m.local_asn.to_u32(), 200);
            assert_eq!(m.interface_index, 1);
            assert_eq!(m.peer_ip.to_string(), "1.1.1.1");
            assert_eq!(m.local_addr.to_string(), "2.2.2.2");
            assert_eq!(m.old_state as u16, 1);
            assert_eq!(m.new_state as u16, 6);
        }
        _ => panic!("not a state change"),
    }
}

fn bgp4mp_message(msg_type: Bgp4MpType) -> Bgp4MpMessage {
    Bgp4MpMessage {
        msg_type,
        peer_asn: Asn::new(100),
        local_asn: Asn::new(200),
        interface_index: 0,
        afi: Afi::Ipv4,
        peer_ip: IpAddress::V4(0x0101_0101),
        local_ip: IpAddress::V4(0x0202_0202),
        bgp_message: BgpMessage::Update(update()),
    }
}

#[test]
fn bgp4mp_message_takes_add_path_from_its_own_type() {
    let head = vec![0, 0, 0, 100, 0, 0, 0, 200, 0, 0, 0, 1, 1, 1, 1, 1, 2, 2, 2, 2];
    let mut plain = head.clone();
    plain.extend(BgpMessage::Update(update()).to_bytes(0).unwrap());
    let mut with_ids = head;
    with_ids.extend(BgpMessage::Update(update()).to_bytes(1).unwrap());
    assert_eq!(bgp4mp_message(Bgp4MpType::Bgp4MpMessageAs4).to_bytes(9).unwrap(), plain);
    assert_eq!(bgp4mp_message(Bgp4MpType::Bgp4MpMessage).to_bytes(0).unwrap(), plain);
    assert_eq!(bgp4mp_message(Bgp4MpType::Bgp4MpMessageAs4Addpath).to_bytes(0).unwrap(), with_ids);
    assert_eq!(bgp4mp_message(Bgp4MpType::Bgp4MpMessageAddpath).to_bytes(0).unwrap(), with_ids);
    assert_eq!(
        bgp4mp_message(Bgp4MpType::Bgp4MpMessageLocalAddpath).to_bytes(0).unwrap(),
        with_ids
    );
    assert_eq!(
        Bgp4Mp::Bgp4MpMessageAs4Local(bgp4mp_message(Bgp4MpType::Bgp4MpMessageLocalAs4Addpath))
            .to_bytes(0)
            .unwrap(),
        with_ids
    );
    assert!(Bgp4MpType::Bgp4MpMessageLocalAs4Addpath.is_add_path());
    assert!(!Bgp4MpType::Bgp4MpMessageAs4Local.is_add_path());
    assert_eq!(Bgp4MpType::Bgp4MpMessageLocal.to_u16(), 6);
}

#[test]
fn update_record_with_path_identifiers_reads_back() {
    let record = MrtRecord {
        common_header: CommonHeader {
            timestamp: 7,
            microsecond_timestamp: Some(8),
            entry_type: EntryType::BGP4MP_ET,
            entry_subtype: Bgp4MpType::Bgp4MpMessageAs4Addpath.to_u16(),
            length: 0,
        },
        message: MrtMessage::Bgp4Mp(Bgp4Mp::Bgp4MpMessageAs4(bgp4mp_message(
            Bgp4MpType::Bgp4MpMessageAs4Addpath,
        ))),
    };
    let bytes = record.to_bytes(0).unwrap();
    let parsed = parse_mrt_record(&mut bytes.as_slice()).unwrap();
    match parsed.message {
        ParsedMessage::Bgp4Mp(Bgp4MpEnum::Message(m)) => match m.bgp_message {
            ParsedBgpMessage::Update(u) => {
                assert_eq!(u.withdrawn_prefixes.len(), 1);
                assert_eq!(u.withdrawn_prefixes[0].to_string(), "10.0.0.0/8");
                assert_eq!(u.withdrawn_prefixes[0].path_id, Some(1));
                assert_eq!(u.announced_prefixes.len(), 1);
                assert_eq!(u.announced_prefixes[0].to_string(), "192.168.1.0/24");
                assert_eq!(u.announced_prefixes[0].path_id, Some(2));
            }
            _ => panic!("not an update"),
        },
        _ => panic!("not a message"),
    }
}

fn peer_table() -> PeerIndexTable {
    PeerIndexTable {
        collector_bgp_id: 0x0102_0304,
        view_name: vec![b'a', b'b', b'c'],
        peers: vec![
            Peer {
                peer_type: 0,
                peer_bgp_id: 0x0506_0708,
                peer_address: IpAddress::V4(0x0909_0909),
                peer_asn: Asn { asn: 65000, len: AsnLength::Bits16 },
            },
            Peer {
                peer_type: 3,
                peer_bgp_id: 0x0A0A_0A0A,
                peer_address: IpAddress::V6(1),
                peer_asn: Asn::new(0x0001_0000),
            },
        ],
    }
}

#[test]
fn peer_index_table_bytes() {
    let mut want: Vec<u8> = vec![1, 2, 3, 4, 0, 3, b'a', b'b', b'c', 0, 2];
    want.extend(vec![0, 5, 6, 7, 8, 9, 9, 9, 9, 0xFD, 0xE8]);
    want.extend(vec![3, 10, 10, 10, 10]);
    want.extend(vec![0, 0, 0, 0, 0, 0, 0, 0, 0, 0, 0, 0, 0, 0, 0, 1]);
    want.extend(vec![0, 1, 0, 0]);
    assert_eq!(peer_table().to_bytes(1).unwrap(), want);
    assert_eq!(TableDumpV2Message::PeerIndexTable(peer_table()).to_bytes(1).unwrap(), want);
}

#[test]
fn peer_index_table_reads_back() {
    let record = MrtRecord {
        common_header: CommonHeader {
            timestamp: 9,
            microsecond_timestamp: None,
            entry_type: EntryType::TABLE_DUMP_V2,
            entry_subtype: 1,
            length: 0,
        },
        message: MrtMessage::TableDumpV2Message(TableDumpV2Message::PeerIndexTable(peer_table())),
    };
    let bytes = record.to_bytes(0).unwrap();
    let parsed = parse_mrt_record(&mut bytes.as_slice()).unwrap();
    match parsed.message {
        ParsedMessage::TableDumpV2Message(ParsedTableDump::PeerIndexTable(t)) => {
            assert_eq!(t.collector_bgp_id.to_string(), "1.2.3.4");
            assert_eq!(t.view_name, "abc");
            assert_eq!(t.id_peer_map.len(), 2);
            assert_eq!(t.id_peer_map[&0].peer_ip.to_string(), "9.9.9.9");
            assert_eq!(t.id_peer_map[&0].peer_asn.to_u32(), 65000);
            assert_eq!(t.id_peer_map[&0].peer_bgp_id.to_string(), "5.6.7.8");
            assert_eq!(t.id_peer_map[&1].peer_ip.to_string(), "::1");
            assert_eq!(t.id_peer_map[&1].peer_asn.to_u32(), 65536);
        }
        _ => panic!("not a peer table"),
    }
}

#[test]
fn peer_index_table_from_a_map_with_every_index() {
    let peers = peer_table().peers;
    let mut map: HashMap<u32, Peer> = HashMap::new();
    map.insert(1, peers[1]);
    map.insert(0, peers[0]);
    let table = PeerIndexTable::from_peers_map(0x0102_0304, vec![b'a', b'b', b'c'], &map);
    assert_eq!(table, Ok(peer_table()));
    let empty: HashMap<u32, Peer> = HashMap::new();
    assert_eq!(
        PeerIndexTable::from_peers_map(7, vec![], &empty),
        Ok(PeerIndexTable { collector_bgp_id: 7, view_name: vec![], peers: vec![] })
    );
}

#[test]
fn peer_index_table_from_a_map_that_lacks_an_index_is_malformed() {
    let peers = peer_table().peers;
    let mut map: HashMap<u32, Peer> = HashMap::new();
    map.insert(0, peers[0]);
    map.insert(2, peers[1]);
    assert_eq!(
        PeerIndexTable::from_peers_map(0, vec![], &map),
        Err(DumpError::MalformedInput)
    );
    let mut map: HashMap<u32, Peer> = HashMap::new();
    map.insert(1, peers[0]);
    assert_eq!(
        PeerIndexTable::from_peers_map(0, vec![], &map),
        Err(DumpError::MalformedInput)
    );
}

#[test]
fn peer_index_table_counts_that_do_not_fit() {
    let mut long_name = peer_table();
    long_name.view_name = vec![b'x'; 65536];
    assert_eq!(long_name.to_bytes(1), Err(DumpError::ValueTooLarge));
    let peer = peer_table().peers[0];
    let mut full = peer_table();
    full.peers = vec![peer; 65535];
    let bytes = full.to_bytes(1).unwrap();
    assert_eq!(&bytes[9..11], &[0xFF, 0xFF]);
    full.peers.push(peer);
    assert_eq!(full.to_bytes(1), Err(DumpError::ValueTooLarge));
}

fn rib() -> RibAfiEntries {
    RibAfiEntries {
        rib_type: TableDumpV2Type::RibIpv4Unicast,
        sequence_number: 5,
        prefix: prefix4(0x0A00_0000, 8, 42),
        rib_entries: vec![RibEntry {
            peer_index: 3,
            originated_time: 10,
            attributes: vec![
                origin_igp(),
                Attribute {
                    attr_type: AttrType::MP_REACHABLE_NLRI,
                    value: AttributeValue::MpReachNlri(Nlri {
                        afi: Afi::Ipv4,
                        safi: Safi::Unicast,
                        next_hop: Some(NextHopAddress::Ipv4(0x0101_0101)),
                        prefixes: vec![prefix4(0x0A00_0000, 8, 42)],
                    }),
                    flag: 0x80,
                },
            ],
        }],
    }
}

#[test]
fn rib_entries_bytes() {
    let want = vec![
        0, 0, 0, 5, 8, 10, 0, 1, // sequence number, prefix, entry count
        0, 3, 0, 0, 0, 10, 0, 12, // peer index, time, attribute length
        0x40, 1, 1, 0, // origin
        0x80, 14, 5, 4, 1, 1, 1, 1, // the next hop alone
    ];
    for subtype in [2u16, 3, 4, 5] {
        assert_eq!(rib().to_bytes(subtype).unwrap(), want);
    }
    assert_eq!(TableDumpV2Message::RibAfiEntries(rib()).to_bytes(2).unwrap(), want);
}

#[test]
fn rib_entries_bytes_with_path_identifiers() {
    let want = vec![
        0, 0, 0, 5, 8, 10, 0, 1, // sequence number, prefix, entry count
        0, 3, 0, 0, 0, 10, 0, 0, 0, 42, 0, 12, // peer index, time, path identifier, length
        0x40, 1, 1, 0, // origin
        0x80, 14, 5, 4, 1, 1, 1, 1, // the next hop alone
    ];
    for subtype in [8u16, 9, 10, 11] {
        assert_eq!(rib().to_bytes(subtype).unwrap(), want);
    }
}

#[test]
fn rib_entries_with_path_identifiers_read_back() {
    let record = MrtRecord {
        common_header: CommonHeader {
            timestamp: 9,
            microsecond_timestamp: None,
            entry_type: EntryType::TABLE_DUMP_V2,
            entry_subtype: TableDumpV2Type::RibIpv4UnicastAddPath.to_u16(),
            length: 0,
        },
        message: MrtMessage::TableDumpV2Message(TableDumpV2Message::RibAfiEntries(rib())),
    };
    let bytes = record.to_bytes(0).unwrap();
    let parsed = parse_mrt_record(&mut bytes.as_slice()).unwrap();
    match parsed.message {
        ParsedMessage::TableDumpV2Message(ParsedTableDump::RibAfi(r)) => {
            assert_eq!(r.sequence_number, 5);
            assert_eq!(r.prefix.to_string(), "10.0.0.0/8");
            assert_eq!(r.rib_entries.len(), 1);
            assert_eq!(r.rib_entries[0].peer_index, 3);
            assert_eq!(r.rib_entries[0].originated_time, 10);
            assert_eq!(r.rib_entries[0].path_id, Some(42));
        }
        _ => panic!("not the routes to a prefix"),
    }
}

#[test]
fn rib_entries_in_a_record_of_another_subtype_are_refused() {
    for subtype in [0u16, 1, 6, 7, 12, 13, 0xFFFF] {
        assert_eq!(rib().to_bytes(subtype), Err(DumpError::UnsupportedMessage));
    }
}

#[test]
fn rib_entries_errors() {
    let mut bad_prefix = rib();
    bad_prefix.prefix = prefix4(0, 33, 0);
    assert_eq!(bad_prefix.to_bytes(2), Err(DumpError::MalformedInput));
    let mut bad_attribute = rib();
    bad_attribute.rib_entries[0].attributes.push(Attribute {
        attr_type: AttrType::DEVELOPMENT,
        value: AttributeValue::Development(vec![0; 256]),
        flag: 0x40,
    });
    assert_eq!(bad_attribute.to_bytes(2), Err(DumpError::ValueTooLarge));
    let entry = RibEntry { peer_index: 0, originated_time: 0, attributes: vec![] };
    let mut many = rib();
    many.rib_entries = vec![entry.clone(); 65535];
    let bytes = many.to_bytes(2).unwrap();
    assert_eq!(&bytes[6..8], &[0xFF, 0xFF]);
    assert_eq!(bytes.len(), 8 + 65535 * 8);
    many.rib_entries.push(entry);
    assert_eq!(many.to_bytes(2), Err(DumpError::ValueTooLarge));
}

#[test]
fn attributes_of_a_route_beyond_65535_octets_are_too_large() {
    let big = Attribute {
        attr_type: AttrType::DEVELOPMENT,
        value: AttributeValue::Development(vec![0; 40000]),
        flag: 0x50,
    };
    let mut r = rib();
    r.rib_entries[0].attributes = vec![big.clone()];
    assert_eq!(r.to_bytes(2).unwrap().len(), 8 + 8 + 40004);
    r.rib_entries[0].attributes = vec![big.clone(), big];
    assert_eq!(r.to_bytes(2), Err(DumpError::ValueTooLarge));
}

#[test]
fn table_dump_subtypes() {
    assert_eq!(TableDumpV2Type::from_u16(1), Some(TableDumpV2Type::PeerIndexTable));
    assert_eq!(TableDumpV2Type::from_u16(4), Some(TableDumpV2Type::RibIpv6Unicast));
    assert_eq!(TableDumpV2Type::from_u16(12), Some(TableDumpV2Type::RibGenericAddPath));
    assert_eq!(TableDumpV2Type::from_u16(0), None);
    assert_eq!(TableDumpV2Type::from_u16(13), None);
    let mut code: u16 = 1;
    while code <= 12 {
        assert_eq!(TableDumpV2Type::from_u16(code).unwrap().to_u16(), code);
        code += 1;
    }
}

#[test]
fn generic_routes_are_refused() {
    let generic = RibGenericEntries {
        sequence_number: 0,
        afi: Afi::Ipv4,
        safi: Safi::Unicast,
        nlri: prefix4(0, 0, 0),
        rib_entries: vec![],
    };
    assert_eq!(generic.to_bytes(6), Err(DumpError::UnsupportedMessage));
    assert_eq!(
        TableDumpV2Message::RibGenericEntries(generic.clone()).to_bytes(6),
        Err(DumpError::UnsupportedMessage)
    );
    let record = MrtRecord {
        common_header: CommonHeader {
            timestamp: 0,
            microsecond_timestamp: None,
            entry_type: EntryType::TABLE_DUMP_V2,
            entry_subtype: 6,
            length: 0,
        },
        message: MrtMessage::TableDumpV2Message(TableDumpV2Message::RibGenericEntries(generic)),
    };
    assert_eq!(record.to_bytes(0), Err(DumpError::UnsupportedMessage));
}

#[test]
fn tables_of_the_first_version_are_refused() {
    let table = TableDumpMessage {
        view_number: 0,
        sequence_number: 0,
        prefix: prefix4(0x0A00_0000, 8, 0),
        status: 1,
        originated_time: 0,
        peer_address: IpAddress::V4(1),
        peer_asn: Asn::new(1),
        attributes: vec![],
    };
    assert_eq!(table.to_bytes(1), Err(DumpError::UnsupportedMessage));
    assert_eq!(
        MrtMessage::TableDumpMessage(table).to_bytes(1),
        Err(DumpError::UnsupportedMessage)
    );
}

#[test]
fn record_is_the_payload_behind_the_header_that_counts_it() {
    let record = MrtRecord {
        common_header: CommonHeader {
            timestamp: 3,
            microsecond_timestamp: None,
            entry_type: EntryType::TABLE_DUMP_V2,
            entry_subtype: 8,
            length: 999,
        },
        message: MrtMessage::TableDumpV2Message(TableDumpV2Message::RibAfiEntries(rib())),
    };
    let payload = rib().to_bytes(8).unwrap();
    let mut want = vec![0, 0, 0, 3, 0, 13, 0, 8, 0, 0, 0, payload.len() as u8];
    want.extend(payload);
    // the subtype is that of the header, whatever the argument
    assert_eq!(record.to_bytes(0).unwrap(), want);
    assert_eq!(record.to_bytes(2).unwrap(), want);
}

#[test]
fn record_with_microseconds_counts_them_in_its_length() {
    let record = MrtRecord {
        common_header: CommonHeader {
            timestamp: 3,
            microsecond_timestamp: Some(0x0102_0304),
            entry_type: EntryType::BGP4MP_ET,
            entry_subtype: 5,
            length: 0,
        },
        message: MrtMessage::Bgp4Mp(Bgp4Mp::Bgp4MpStateChangeAs4(state_change())),
    };
    let bytes = record.to_bytes(0).unwrap();
    assert_eq!(bytes.len(), 16 + 24);
    assert_eq!(&bytes[..16], &[0, 0, 0, 3, 0, 17, 0, 5, 0, 0, 0, 28, 1, 2, 3, 4]);
}
