use vstd::prelude::*;
use std::collections::HashMap;
use crate::models::attributes::{attribute_views, Attribute, AttributeView};
use crate::models::bgp::{BgpMessage, BgpMessageView};
use crate::models::network::{Afi, Asn, IpAddress, NetworkPrefix, Safi};
use crate::mrt_dump::error::DumpError;

verus! {

broadcast use vstd::std_specs::hash::group_hash_axioms;

/// The type of an MRT record.
#[allow(non_camel_case_types)]
#[derive(Debug, Clone, Copy, PartialEq, Eq, Structural)]
pub enum EntryType {
    NULL,
    START,
    DIE,
    I_AM_DEAD,
    PEER_DOWN,
    BGP,
    RIP,
    IDRP,
    RIPNG,
    BGP4PLUS,
    BGP4PLUS_01,
    OSPFv2,
    TABLE_DUMP,
    TABLE_DUMP_V2,
    BGP4MP,
    BGP4MP_ET,
    ISIS,
    ISIS_ET,
    OSPFv3,
    OSPFv3_ET,
}

/// The header that every MRT record starts with. `length` is what a reader
/// found there; a writer counts the payload itself.
#[derive(Debug, Clone, Copy, PartialEq, Eq, Structural)]
pub struct CommonHeader {
    pub timestamp: u32,
    pub microsecond_timestamp: Option<u32>,
    pub entry_type: EntryType,
    pub entry_subtype: u16,
    pub length: u32,
}

/// The state of a BGP session.
#[derive(Debug, Clone, Copy, PartialEq, Eq, Structural)]
pub enum BgpState {
    Idle,
    Connect,
    Active,
    OpenSent,
    OpenConfirm,
    Established,
}

/// The subtype of a BGP4MP record.
#[derive(Debug, Clone, Copy, PartialEq, Eq, Structural)]
pub enum Bgp4MpType {
    Bgp4MpStateChange,
    Bgp4MpMessage,
    Bgp4MpMessageAs4,
    Bgp4MpStateChangeAs4,
    Bgp4MpMessageLocal,
    Bgp4MpMessageAs4Local,
    Bgp4MpMessageAddpath,
    Bgp4MpMessageAs4Addpath,
    Bgp4MpMessageLocalAddpath,
    Bgp4MpMessageLocalAs4Addpath,
}

/// A change of state of a BGP session.
#[derive(Debug, Clone, Copy, PartialEq, Eq, Structural)]
pub struct Bgp4MpStateChange {
    pub msg_type: Bgp4MpType,
    pub peer_asn: Asn,
    pub local_asn: Asn,
    pub interface_index: u16,
    pub address_family: Afi,
    pub peer_addr: IpAddress,
    pub local_addr: IpAddress,
    pub old_state: BgpState,
    pub new_state: BgpState,
}

/// A BGP message as a collector received it from a peer.
#[derive(Debug, Clone, PartialEq, Eq)]
pub struct Bgp4MpMessage {
    pub msg_type: Bgp4MpType,
    pub peer_asn: Asn,
    pub local_asn: Asn,
    pub interface_index: u16,
    pub afi: Afi,
    pub peer_ip: IpAddress,
    pub local_ip: IpAddress,
    pub bgp_message: BgpMessage,
}

/// The payload of a BGP4MP record.
#[derive(Debug, Clone, PartialEq, Eq)]
pub enum Bgp4Mp {
    Bgp4MpStateChange(Bgp4MpStateChange),
    Bgp4MpStateChangeAs4(Bgp4MpStateChange),
    Bgp4MpMessage(Bgp4MpMessage),
    Bgp4MpMessageLocal(Bgp4MpMessage),
    Bgp4MpMessageAs4(Bgp4MpMessage),
    Bgp4MpMessageAs4Local(Bgp4MpMessage),
}

/// The subtype of a TABLE_DUMP_V2 record.
#[derive(Debug, Clone, Copy, PartialEq, Eq, Structural)]
pub enum TableDumpV2Type {
    PeerIndexTable,
    RibIpv4Unicast,
    RibIpv4Multicast,
    RibIpv6Unicast,
    RibIpv6Multicast,
    RibGeneric,
    GeoPeerTable,
    RibIpv4UnicastAddPath,
    RibIpv4MulticastAddPath,
    RibIpv6UnicastAddPath,
    RibIpv6MulticastAddPath,
    RibGenericAddPath,
}

/// A peer of the collector. Bit 0 of `peer_type` says that the address is
/// IPv6, bit 1 that the AS number takes 32 bits. The peer's identifier is an
/// IPv4 address, held as a number.
#[derive(Debug, Clone, Copy, PartialEq, Eq, Structural)]
pub struct Peer {
    pub peer_type: u8,
    pub peer_bgp_id: u32,
    pub peer_address: IpAddress,
    pub peer_asn: Asn,
}

/// The table of the collector's peers. A peer's index is its place in
/// `peers`, so each index from 0 up to the number of peers names one peer.
/// The collector's identifier is an IPv4 address, held as a number; the
/// view's name is held as its octets.
#[derive(Debug, Clone, PartialEq, Eq)]
pub struct PeerIndexTable {
    pub collector_bgp_id: u32,
    pub view_name: Vec<u8>,
    pub peers: Vec<Peer>,
}

/// One route to a prefix: the peer it came from, by index, and its
/// attributes.
#[derive(Debug, Clone, PartialEq, Eq)]
pub struct RibEntry {
    pub peer_index: u16,
    pub originated_time: u32,
    pub attributes: Vec<Attribute>,
}

/// The routes to one prefix.
#[derive(Debug, Clone, PartialEq, Eq)]
pub struct RibAfiEntries {
    pub rib_type: TableDumpV2Type,
    pub sequence_number: u32,
    pub prefix: NetworkPrefix,
    pub rib_entries: Vec<RibEntry>,
}

/// The routes to one prefix of any address family.
#[derive(Debug, Clone, PartialEq, Eq)]
pub struct RibGenericEntries {
    pub sequence_number: u32,
    pub afi: Afi,
    pub safi: Safi,
    pub nlri: NetworkPrefix,
    pub rib_entries: Vec<RibEntry>,
}

/// The payload of a TABLE_DUMP_V2 record.
#[derive(Debug, Clone, PartialEq, Eq)]
pub enum TableDumpV2Message {
    PeerIndexTable(PeerIndexTable),
    RibAfiEntries(RibAfiEntries),
    RibGenericEntries(RibGenericEntries),
}

/// The payload of a TABLE_DUMP record of the first version.
#[derive(Debug, Clone, PartialEq, Eq)]
pub struct TableDumpMessage {
    pub view_number: u16,
    pub sequence_number: u16,
    pub prefix: NetworkPrefix,
    pub status: u8,
    pub originated_time: u64,
    pub peer_address: IpAddress,
    pub peer_asn: Asn,
    pub attributes: Vec<Attribute>,
}

/// The payload of an MRT record.
#[derive(Debug, Clone, PartialEq, Eq)]
pub enum MrtMessage {
    TableDumpMessage(TableDumpMessage),
    TableDumpV2Message(TableDumpV2Message),
    Bgp4Mp(Bgp4Mp),
}

/// An MRT record: header and payload.
#[derive(Debug, Clone, PartialEq, Eq)]
pub struct MrtRecord {
    pub common_header: CommonHeader,
    pub message: MrtMessage,
}

/// A BGP4MP message as a value of mathematics.
pub struct Bgp4MpMessageView {
    pub msg_type: Bgp4MpType,
    pub peer_asn: Asn,
    pub local_asn: Asn,
    pub interface_index: u16,
    pub afi: Afi,
    pub peer_ip: IpAddress,
    pub local_ip: IpAddress,
    pub bgp_message: BgpMessageView,
}

/// A BGP4MP payload as a value of mathematics.
pub enum Bgp4MpView {
    Bgp4MpStateChange(Bgp4MpStateChange),
    Bgp4MpStateChangeAs4(Bgp4MpStateChange),
    Bgp4MpMessage(Bgp4MpMessageView),
    Bgp4MpMessageLocal(Bgp4MpMessageView),
    Bgp4MpMessageAs4(Bgp4MpMessageView),
    Bgp4MpMessageAs4Local(Bgp4MpMessageView),
}

/// A peer table as a value of mathematics.
pub struct PeerIndexTableView {
    pub collector_bgp_id: u32,
    pub view_name: Seq<u8>,
    pub peers: Seq<Peer>,
}

/// A route as a value of mathematics.
pub struct RibEntryView {
    pub peer_index: u16,
    pub originated_time: u32,
    pub attributes: Seq<AttributeView>,
}

/// The routes to one prefix as a value of mathematics.
pub struct RibAfiEntriesView {
    pub rib_type: TableDumpV2Type,
    pub sequence_number: u32,
    pub prefix: NetworkPrefix,
    pub rib_entries: Seq<RibEntryView>,
}

/// The routes to one prefix of any family as a value of mathematics.
pub struct RibGenericEntriesView {
    pub sequence_number: u32,
    pub afi: Afi,
    pub safi: Safi,
    pub nlri: NetworkPrefix,
    pub rib_entries: Seq<RibEntryView>,
}

/// A TABLE_DUMP_V2 payload as a value of mathematics.
pub enum TableDumpV2MessageView {
    PeerIndexTable(PeerIndexTableView),
    RibAfiEntries(RibAfiEntriesView),
    RibGenericEntries(RibGenericEntriesView),
}

/// A TABLE_DUMP payload as a value of mathematics.
pub struct TableDumpMessageView {
    pub view_number: u16,
    pub sequence_number: u16,
    pub prefix: NetworkPrefix,
    pub status: u8,
    pub originated_time: u64,
    pub peer_address: IpAddress,
    pub peer_asn: Asn,
    pub attributes: Seq<AttributeView>,
}

/// An MRT payload as a value of mathematics.
pub enum MrtMessageView {
    TableDumpMessage(TableDumpMessageView),
    TableDumpV2Message(TableDumpV2MessageView),
    Bgp4Mp(Bgp4MpView),
}

/// An MRT record as a value of mathematics.
pub struct MrtRecordView {
    pub common_header: CommonHeader,
    pub message: MrtMessageView,
}

impl EntryType {
    /// The number of the record type on the wire.
    pub open spec fn code(self) -> u16 {
        match self {
            EntryType::NULL => 0,
            EntryType::START => 1,
            EntryType::DIE => 2,
            EntryType::I_AM_DEAD => 3,
            EntryType::PEER_DOWN => 4,
            EntryType::BGP => 5,
            EntryType::RIP => 6,
            EntryType::IDRP => 7,
            EntryType::RIPNG => 8,
            EntryType::BGP4PLUS => 9,
            EntryType::BGP4PLUS_01 => 10,
            EntryType::OSPFv2 => 11,
            EntryType::TABLE_DUMP => 12,
            EntryType::TABLE_DUMP_V2 => 13,
            EntryType::BGP4MP => 16,
            EntryType::BGP4MP_ET => 17,
            EntryType::ISIS => 32,
            EntryType::ISIS_ET => 33,
            EntryType::OSPFv3 => 48,
            EntryType::OSPFv3_ET => 49,
        }
    }

    /// The number of the type on the wire.
    pub fn to_u16(&self) -> (r: u16)
        ensures
            r == self.code(),
    {
        match self {
            EntryType::NULL => 0,
            EntryType::START => 1,
            EntryType::DIE => 2,
            EntryType::I_AM_DEAD => 3,
            EntryType::PEER_DOWN => 4,
            EntryType::BGP => 5,
            EntryType::RIP => 6,
            EntryType::IDRP => 7,
            EntryType::RIPNG => 8,
            EntryType::BGP4PLUS => 9,
            EntryType::BGP4PLUS_01 => 10,
            EntryType::OSPFv2 => 11,
            EntryType::TABLE_DUMP => 12,
            EntryType::TABLE_DUMP_V2 => 13,
            EntryType::BGP4MP => 16,
            EntryType::BGP4MP_ET => 17,
            EntryType::ISIS => 32,
            EntryType::ISIS_ET => 33,
            EntryType::OSPFv3 => 48,
            EntryType::OSPFv3_ET => 49,
        }
    }

    /// Whether records of this type carry a timestamp extended by
    /// microseconds.
    pub open spec fn spec_is_extended(&self) -> bool {
        *self == EntryType::BGP4MP_ET || *self == EntryType::ISIS_ET || *self
            == EntryType::OSPFv3_ET
    }

    /// Whether records of this type carry a timestamp extended by
    /// microseconds.
    #[verifier::when_used_as_spec(spec_is_extended)]
    pub fn is_extended(&self) -> (r: bool)
        ensures
            r == self.spec_is_extended(),
    {
        match self {
            EntryType::BGP4MP_ET => true,
            EntryType::ISIS_ET => true,
            EntryType::OSPFv3_ET => true,
            _ => false,
        }
    }
}

impl BgpState {
    /// The number of the state on the wire.
    pub open spec fn code(self) -> u16 {
        match self {
            BgpState::Idle => 1,
            BgpState::Connect => 2,
            BgpState::Active => 3,
            BgpState::OpenSent => 4,
            BgpState::OpenConfirm => 5,
            BgpState::Established => 6,
        }
    }

    /// The number of the type on the wire.
    pub fn to_u16(&self) -> (r: u16)
        ensures
            r == self.code(),
    {
        match self {
            BgpState::Idle => 1,
            BgpState::Connect => 2,
            BgpState::Active => 3,
            BgpState::OpenSent => 4,
            BgpState::OpenConfirm => 5,
            BgpState::Established => 6,
        }
    }
}

impl Bgp4MpType {
    /// The number of the subtype on the wire.
    pub open spec fn code(self) -> u16 {
        match self {
            Bgp4MpType::Bgp4MpStateChange => 0,
            Bgp4MpType::Bgp4MpMessage => 1,
            Bgp4MpType::Bgp4MpMessageAs4 => 4,
            Bgp4MpType::Bgp4MpStateChangeAs4 => 5,
            Bgp4MpType::Bgp4MpMessageLocal => 6,
            Bgp4MpType::Bgp4MpMessageAs4Local => 7,
            Bgp4MpType::Bgp4MpMessageAddpath => 8,
            Bgp4MpType::Bgp4MpMessageAs4Addpath => 9,
            Bgp4MpType::Bgp4MpMessageLocalAddpath => 10,
            Bgp4MpType::Bgp4MpMessageLocalAs4Addpath => 11,
        }
    }

    /// The number of the type on the wire.
    pub fn to_u16(&self) -> (r: u16)
        ensures
            r == self.code(),
    {
        match self {
            Bgp4MpType::Bgp4MpStateChange => 0,
            Bgp4MpType::Bgp4MpMessage => 1,
            Bgp4MpType::Bgp4MpMessageAs4 => 4,
            Bgp4MpType::Bgp4MpStateChangeAs4 => 5,
            Bgp4MpType::Bgp4MpMessageLocal => 6,
            Bgp4MpType::Bgp4MpMessageAs4Local => 7,
            Bgp4MpType::Bgp4MpMessageAddpath => 8,
            Bgp4MpType::Bgp4MpMessageAs4Addpath => 9,
            Bgp4MpType::Bgp4MpMessageLocalAddpath => 10,
            Bgp4MpType::Bgp4MpMessageLocalAs4Addpath => 11,
        }
    }

    /// Whether the prefixes of messages of this subtype carry a path
    /// identifier.
    pub open spec fn spec_is_add_path(&self) -> bool {
        *self == Bgp4MpType::Bgp4MpMessageAddpath || *self == Bgp4MpType::Bgp4MpMessageAs4Addpath
            || *self == Bgp4MpType::Bgp4MpMessageLocalAddpath || *self
            == Bgp4MpType::Bgp4MpMessageLocalAs4Addpath
    }

    /// Whether the prefixes of messages of this subtype carry a path
    /// identifier.
    #[verifier::when_used_as_spec(spec_is_add_path)]
    pub fn is_add_path(&self) -> (r: bool)
        ensures
            r == self.spec_is_add_path(),
    {
        match self {
            Bgp4MpType::Bgp4MpMessageAddpath => true,
            Bgp4MpType::Bgp4MpMessageAs4Addpath => true,
            Bgp4MpType::Bgp4MpMessageLocalAddpath => true,
            Bgp4MpType::Bgp4MpMessageLocalAs4Addpath => true,
            _ => false,
        }
    }
}

impl TableDumpV2Type {
    /// The number of the subtype on the wire.
    pub open spec fn code(self) -> u16 {
        match self {
            TableDumpV2Type::PeerIndexTable => 1,
            TableDumpV2Type::RibIpv4Unicast => 2,
            TableDumpV2Type::RibIpv4Multicast => 3,
            TableDumpV2Type::RibIpv6Unicast => 4,
            TableDumpV2Type::RibIpv6Multicast => 5,
            TableDumpV2Type::RibGeneric => 6,
            TableDumpV2Type::GeoPeerTable => 7,
            TableDumpV2Type::RibIpv4UnicastAddPath => 8,
            TableDumpV2Type::RibIpv4MulticastAddPath => 9,
            TableDumpV2Type::RibIpv6UnicastAddPath => 10,
            TableDumpV2Type::RibIpv6MulticastAddPath => 11,
            TableDumpV2Type::RibGenericAddPath => 12,
        }
    }

    /// The number of the type on the wire.
    pub fn to_u16(&self) -> (r: u16)
        ensures
            r == self.code(),
    {
        match self {
            TableDumpV2Type::PeerIndexTable => 1,
            TableDumpV2Type::RibIpv4Unicast => 2,
            TableDumpV2Type::RibIpv4Multicast => 3,
            TableDumpV2Type::RibIpv6Unicast => 4,
            TableDumpV2Type::RibIpv6Multicast => 5,
            TableDumpV2Type::RibGeneric => 6,
            TableDumpV2Type::GeoPeerTable => 7,
            TableDumpV2Type::RibIpv4UnicastAddPath => 8,
            TableDumpV2Type::RibIpv4MulticastAddPath => 9,
            TableDumpV2Type::RibIpv6UnicastAddPath => 10,
            TableDumpV2Type::RibIpv6MulticastAddPath => 11,
            TableDumpV2Type::RibGenericAddPath => 12,
        }
    }

    /// The subtype that a number names, if it names one.
    pub open spec fn of_code(code: u16) -> Option<TableDumpV2Type> {
        if code == 1 {
            Some(TableDumpV2Type::PeerIndexTable)
        } else if code == 2 {
            Some(TableDumpV2Type::RibIpv4Unicast)
        } else if code == 3 {
            Some(TableDumpV2Type::RibIpv4Multicast)
        } else if code == 4 {
            Some(TableDumpV2Type::RibIpv6Unicast)
        } else if code == 5 {
            Some(TableDumpV2Type::RibIpv6Multicast)
        } else if code == 6 {
            Some(TableDumpV2Type::RibGeneric)
        } else if code == 7 {
            Some(TableDumpV2Type::GeoPeerTable)
        } else if code == 8 {
            Some(TableDumpV2Type::RibIpv4UnicastAddPath)
        } else if code == 9 {
            Some(TableDumpV2Type::RibIpv4MulticastAddPath)
        } else if code == 10 {
            Some(TableDumpV2Type::RibIpv6UnicastAddPath)
        } else if code == 11 {
            Some(TableDumpV2Type::RibIpv6MulticastAddPath)
        } else if code == 12 {
            Some(TableDumpV2Type::RibGenericAddPath)
        } else {
            None
        }
    }

    /// The subtype that a number names, if it names one.
    pub fn from_u16(code: u16) -> (r: Option<TableDumpV2Type>)
        ensures
            r == Self::of_code(code),
            r matches Some(t) ==> t.code() == code,
    {
        if code == 1 {
            Some(TableDumpV2Type::PeerIndexTable)
        } else if code == 2 {
            Some(TableDumpV2Type::RibIpv4Unicast)
        } else if code == 3 {
            Some(TableDumpV2Type::RibIpv4Multicast)
        } else if code == 4 {
            Some(TableDumpV2Type::RibIpv6Unicast)
        } else if code == 5 {
            Some(TableDumpV2Type::RibIpv6Multicast)
        } else if code == 6 {
            Some(TableDumpV2Type::RibGeneric)
        } else if code == 7 {
            Some(TableDumpV2Type::GeoPeerTable)
        } else if code == 8 {
            Some(TableDumpV2Type::RibIpv4UnicastAddPath)
        } else if code == 9 {
            Some(TableDumpV2Type::RibIpv4MulticastAddPath)
        } else if code == 10 {
            Some(TableDumpV2Type::RibIpv6UnicastAddPath)
        } else if code == 11 {
            Some(TableDumpV2Type::RibIpv6MulticastAddPath)
        } else if code == 12 {
            Some(TableDumpV2Type::RibGenericAddPath)
        } else {
            None
        }
    }

    /// Whether the subtype holds the routes to one prefix of IPv4 or IPv6.
    pub open spec fn is_rib_afi(self) -> bool {
        2 <= self.code() <= 5 || 8 <= self.code() <= 11
    }

    /// Whether the routes of this subtype carry a path identifier.
    pub open spec fn is_add_path(self) -> bool {
        8 <= self.code() <= 12
    }
}

impl View for Bgp4MpMessage {
    type V = Bgp4MpMessageView;

    open spec fn view(&self) -> Bgp4MpMessageView {
        Bgp4MpMessageView {
            msg_type: self.msg_type,
            peer_asn: self.peer_asn,
            local_asn: self.local_asn,
            interface_index: self.interface_index,
            afi: self.afi,
            peer_ip: self.peer_ip,
            local_ip: self.local_ip,
            bgp_message: self.bgp_message@,
        }
    }
}

impl View for Bgp4Mp {
    type V = Bgp4MpView;

    open spec fn view(&self) -> Bgp4MpView {
        match self {
            Bgp4Mp::Bgp4MpStateChange(m) => Bgp4MpView::Bgp4MpStateChange(*m),
            Bgp4Mp::Bgp4MpStateChangeAs4(m) => Bgp4MpView::Bgp4MpStateChangeAs4(*m),
            Bgp4Mp::Bgp4MpMessage(m) => Bgp4MpView::Bgp4MpMessage(m@),
            Bgp4Mp::Bgp4MpMessageLocal(m) => Bgp4MpView::Bgp4MpMessageLocal(m@),
            Bgp4Mp::Bgp4MpMessageAs4(m) => Bgp4MpView::Bgp4MpMessageAs4(m@),
            Bgp4Mp::Bgp4MpMessageAs4Local(m) => Bgp4MpView::Bgp4MpMessageAs4Local(m@),
        }
    }
}

/// Whether the keys of a map of peers are the indices of a table: the
/// numbers from zero up to the number of peers, each once.
pub open spec fn dense(peers_map: Map<u32, Peer>) -> bool {
    forall|i: int| 0 <= i < peers_map.len() ==> #[trigger] peers_map.contains_key(i as u32)
}

/// The peers of a map by rising index.
pub open spec fn peers_in_order(peers_map: Map<u32, Peer>) -> Seq<Peer> {
    Seq::new(peers_map.len(), |i: int| peers_map[i as u32])
}

impl PeerIndexTable {
    /// The table of the peers that a map holds by index. A map that lacks
    /// one of the indices below the number of its peers is malformed.
    pub fn from_peers_map(
        collector_bgp_id: u32,
        view_name: Vec<u8>,
        peers_map: &HashMap<u32, Peer>,
    ) -> (r: Result<PeerIndexTable, DumpError>)
        ensures
            match r {
                Ok(table) => dense(peers_map@) && table@ == (PeerIndexTableView {
                    collector_bgp_id,
                    view_name: view_name@,
                    peers: peers_in_order(peers_map@),
                }),
                Err(e) => !dense(peers_map@) && e == DumpError::MalformedInput,
            },
    {
        let count = peers_map.len();
        proof {
            lemma_keys_bounded(peers_map@);
        }
        let mut peers: Vec<Peer> = Vec::new();
        let mut i: usize = 0;
        while i < count
            invariant
                i <= count,
                count == peers_map@.len(),
                count <= 0x1_0000_0000,
                peers@.len() == i,
                forall|j: int| 0 <= j < i ==> #[trigger] peers_map@.contains_key(j as u32),
                forall|j: int| 0 <= j < i ==> #[trigger] peers@[j] == peers_map@[j as u32],
            decreases count - i,
        {
            let index: u32 = i as u32;
            match peers_map.get(&index) {
                Some(peer) => {
                    peers.push(*peer);
                },
                None => {
                    return Err(DumpError::MalformedInput);
                },
            }
            i = i + 1;
        }
        assert(peers@ =~= peers_in_order(peers_map@));
        Ok(PeerIndexTable { collector_bgp_id, view_name, peers })
    }
}

/// A map has no more entries than there are keys.
proof fn lemma_keys_bounded(peers_map: Map<u32, Peer>)
    requires
        peers_map.dom().finite(),
    ensures
        peers_map.len() <= 0x1_0000_0000,
{
    let below = vstd::set_lib::set_int_range(0, 0x1_0000_0000);
    let widen = |k: u32| k as int;
    let keys = peers_map.dom().map(widen);
    vstd::set_lib::lemma_int_range(0, 0x1_0000_0000);
    assert(keys.subset_of(below));
    vstd::set_lib::lemma_len_subset(keys, below);
    assert(vstd::relations::injective_on(widen, peers_map.dom()));
    vstd::set_lib::lemma_map_size(peers_map.dom(), keys, widen);
}

impl View for PeerIndexTable {
    type V = PeerIndexTableView;

    open spec fn view(&self) -> PeerIndexTableView {
        PeerIndexTableView {
            collector_bgp_id: self.collector_bgp_id,
            view_name: self.view_name@,
            peers: self.peers@,
        }
    }
}

impl View for RibEntry {
    type V = RibEntryView;

    open spec fn view(&self) -> RibEntryView {
        RibEntryView {
            peer_index: self.peer_index,
            originated_time: self.originated_time,
            attributes: attribute_views(self.attributes@),
        }
    }
}

/// The views of a list of routes, in order.
pub open spec fn rib_entry_views(entries: Seq<RibEntry>) -> Seq<RibEntryView> {
    entries.map_values(|e: RibEntry| e@)
}

impl View for RibAfiEntries {
    type V = RibAfiEntriesView;

    open spec fn view(&self) -> RibAfiEntriesView {
        RibAfiEntriesView {
            rib_type: self.rib_type,
            sequence_number: self.sequence_number,
            prefix: self.prefix,
            rib_entries: rib_entry_views(self.rib_entries@),
        }
    }
}

impl View for RibGenericEntries {
    type V = RibGenericEntriesView;

    open spec fn view(&self) -> RibGenericEntriesView {
        RibGenericEntriesView {
            sequence_number: self.sequence_number,
            afi: self.afi,
            safi: self.safi,
            nlri: self.nlri,
            rib_entries: rib_entry_views(self.rib_entries@),
        }
    }
}

impl View for TableDumpV2Message {
    type V = TableDumpV2MessageView;

    open spec fn view(&self) -> TableDumpV2MessageView {
        match self {
            TableDumpV2Message::PeerIndexTable(m) => TableDumpV2MessageView::PeerIndexTable(m@),
            TableDumpV2Message::RibAfiEntries(m) => TableDumpV2MessageView::RibAfiEntries(m@),
            TableDumpV2Message::RibGenericEntries(m) => TableDumpV2MessageView::RibGenericEntries(
                m@,
            ),
        }
    }
}

impl View for TableDumpMessage {
    type V = TableDumpMessageView;

    open spec fn view(&self) -> TableDumpMessageView {
        TableDumpMessageView {
            view_number: self.view_number,
            sequence_number: self.sequence_number,
            prefix: self.prefix,
            status: self.status,
            originated_time: self.originated_time,
            peer_address: self.peer_address,
            peer_asn: self.peer_asn,
            attributes: attribute_views(self.attributes@),
        }
    }
}

impl View for MrtMessage {
    type V = MrtMessageView;

    open spec fn view(&self) -> MrtMessageView {
        match self {
            MrtMessage::TableDumpMessage(m) => MrtMessageView::TableDumpMessage(m@),
            MrtMessage::TableDumpV2Message(m) => MrtMessageView::TableDumpV2Message(m@),
            MrtMessage::Bgp4Mp(m) => MrtMessageView::Bgp4Mp(m@),
        }
    }
}

impl View for MrtRecord {
    type V = MrtRecordView;

    open spec fn view(&self) -> MrtRecordView {
        MrtRecordView { common_header: self.common_header, message: self.message@ }
    }
}

/// The views of a list of records, in order.
pub open spec fn record_views(records: Seq<MrtRecord>) -> Seq<MrtRecordView> {
    records.map_values(|r: MrtRecord| r@)
}

} // verus!
