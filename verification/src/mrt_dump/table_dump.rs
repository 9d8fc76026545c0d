use vstd::prelude::*;
use crate::models::mrt::{
    rib_entry_views, Peer, PeerIndexTable, PeerIndexTableView, RibAfiEntries, RibAfiEntriesView,
    RibEntry, RibEntryView, RibGenericEntries, TableDumpMessage, TableDumpV2Message,
    TableDumpV2MessageView, TableDumpV2Type,
};
use crate::models::network::IpAddress;
use crate::mrt_dump::attributes::{attribute_parts, encode_attributes};
use crate::mrt_dump::encoding::{
    bytes_of, cat, counted16, join, lemma_join_all, lemma_join_err, lemma_join_step, put_bytes,
    with_count16, Encoded,
};
use crate::mrt_dump::error::DumpError;
use crate::mrt_dump::utils::{asn_bytes, be16, be32, ip_bytes, nlri_bytes, WriteUtils};
use crate::MrtDump;

verus! {

/// A peer of the table: its type, its identifier, its address and its AS
/// number.
pub open spec fn peer_bytes(p: Peer) -> Seq<u8> {
    seq![p.peer_type] + be32(p.peer_bgp_id) + ip_bytes(p.peer_address) + asn_bytes(p.peer_asn)
}

/// The encodings of the peers of a table, by rising index.
pub open spec fn peer_parts(peers: Seq<Peer>) -> Seq<Encoded> {
    Seq::new(peers.len(), |i: int| Ok(peer_bytes(peers[i])))
}

/// A peer table on the wire: the collector's identifier, the view's name
/// behind its length, and the peers behind their count, by rising index. A
/// name or a count beyond 65535 is too large.
pub open spec fn peer_index_table_bytes(t: PeerIndexTableView) -> Encoded {
    cat(
        Ok(be32(t.collector_bgp_id)),
        cat(
            counted16(Ok(t.view_name)),
            if t.peers.len() > 0xFFFF {
                Err(DumpError::ValueTooLarge)
            } else {
                cat(Ok(be16(t.peers.len() as u16)), join(peer_parts(t.peers)))
            },
        ),
    )
}

/// A route on the wire: the index of its peer, the time it was originated,
/// the path identifier where `add_path` asks for it, and the attributes
/// behind their length. The attributes are written without family,
/// sub-family and prefixes, which the record around them says.
pub open spec fn rib_entry_bytes(e: RibEntryView, add_path: bool, path_id: u32) -> Encoded {
    cat(
        Ok(
            be16(e.peer_index) + be32(e.originated_time) + (if add_path {
                be32(path_id)
            } else {
                Seq::<u8>::empty()
            }),
        ),
        counted16(join(attribute_parts(e.attributes, add_path, false, false, false))),
    )
}

/// The encodings of the routes of a list, one by one.
pub open spec fn rib_entry_parts(entries: Seq<RibEntryView>, add_path: bool, path_id: u32) -> Seq<
    Encoded,
> {
    Seq::new(entries.len(), |i: int| rib_entry_bytes(entries[i], add_path, path_id))
}

/// The routes to one prefix on the wire, in a record of subtype `subtype`:
/// the sequence number, the prefix without path identifier, and the routes
/// behind their count. In a record of an add-path subtype each route
/// carries the path identifier of the prefix. A subtype that does not hold
/// the routes of an IPv4 or IPv6 prefix is refused; more than 65535 routes
/// are too large.
pub open spec fn rib_afi_entries_bytes(r: RibAfiEntriesView, subtype: u16) -> Encoded {
    match TableDumpV2Type::of_code(subtype) {
        Some(t) => if t.is_rib_afi() {
            cat(
                Ok(be32(r.sequence_number)),
                cat(
                    nlri_bytes(r.prefix, false),
                    if r.rib_entries.len() > 0xFFFF {
                        Err(DumpError::ValueTooLarge)
                    } else {
                        cat(
                            Ok(be16(r.rib_entries.len() as u16)),
                            join(rib_entry_parts(r.rib_entries, t.is_add_path(), r.prefix.path_id)),
                        )
                    },
                ),
            )
        } else {
            Err(DumpError::UnsupportedMessage)
        },
        None => Err(DumpError::UnsupportedMessage),
    }
}

/// A TABLE_DUMP_V2 payload on the wire. Routes of a generic family are
/// refused.
pub open spec fn table_dump_v2_bytes(m: TableDumpV2MessageView, subtype: u16) -> Encoded {
    match m {
        TableDumpV2MessageView::PeerIndexTable(t) => peer_index_table_bytes(t),
        TableDumpV2MessageView::RibAfiEntries(r) => rib_afi_entries_bytes(r, subtype),
        TableDumpV2MessageView::RibGenericEntries(_) => Err(DumpError::UnsupportedMessage),
    }
}

impl MrtDump for TableDumpMessage {
    /// Tables of the first version are refused.
    open spec fn encoding(&self, subtype: u16) -> Encoded {
        Err(DumpError::UnsupportedMessage)
    }

    fn to_bytes(&self, subtype: u16) -> (r: Result<Vec<u8>, DumpError>) {
        Err(DumpError::UnsupportedMessage)
    }
}

impl MrtDump for RibGenericEntries {
    /// Routes of a generic family are refused.
    open spec fn encoding(&self, subtype: u16) -> Encoded {
        Err(DumpError::UnsupportedMessage)
    }

    fn to_bytes(&self, subtype: u16) -> (r: Result<Vec<u8>, DumpError>) {
        Err(DumpError::UnsupportedMessage)
    }
}

impl MrtDump for PeerIndexTable {
    open spec fn encoding(&self, subtype: u16) -> Encoded {
        peer_index_table_bytes(self@)
    }

    fn to_bytes(&self, subtype: u16) -> (r: Result<Vec<u8>, DumpError>) {
        let mut buf: Vec<u8> = Vec::new();
        let _ = buf.write_ip(&IpAddress::V4(self.collector_bgp_id));
        let name = match with_count16(Ok(clone_bytes(&self.view_name))) {
            Err(e) => {
                return Err(e);
            },
            Ok(bytes) => bytes,
        };
        put_bytes(&mut buf, name.as_slice());
        if self.peers.len() > 0xFFFF {
            return Err(DumpError::ValueTooLarge);
        }
        let _ = buf.write_16b(self.peers.len() as u16);
        let ghost head = buf@;
        assert(head =~= be32(self.collector_bgp_id) + (name@ + be16(self.peers@.len() as u16)));
        let ghost parts = peer_parts(self.peers@);
        let mut i: usize = 0;
        while i < self.peers.len()
            invariant
                i <= self.peers@.len(),
                parts == peer_parts(self.peers@),
                Ok::<Seq<u8>, DumpError>(buf@) == cat(Ok(head), join(parts.take(i as int))),
            decreases self.peers@.len() - i,
        {
            let ghost before = buf@;
            let peer = &self.peers[i];
            buf.push(peer.peer_type);
            let _ = buf.write_ip(&IpAddress::V4(peer.peer_bgp_id));
            let _ = buf.write_ip(&peer.peer_address);
            let _ = buf.write_asn(&peer.peer_asn);
            proof {
                lemma_join_step(parts, i as int);
                assert(buf@ =~= before + peer_bytes(*peer));
                assert(buf@ =~= head + (join(parts.take(i as int))->Ok_0 + peer_bytes(*peer)));
            }
            i = i + 1;
        }
        proof {
            lemma_join_all(parts);
            let peers = join(parts)->Ok_0;
            assert(buf@ =~= be32(self.collector_bgp_id) + (name@ + (be16(
                self.peers@.len() as u16,
            ) + peers)));
        }
        Ok(buf)
    }
}

/// A copy of `bytes`.
fn clone_bytes(bytes: &Vec<u8>) -> (r: Vec<u8>)
    ensures
        r@ == bytes@,
{
    let mut r: Vec<u8> = Vec::new();
    put_bytes(&mut r, bytes.as_slice());
    assert(r@ =~= bytes@);
    r
}

/// A route on the wire.
fn encode_rib_entry(entry: &RibEntry, add_path: bool, path_id: u32) -> (r: Result<
    Vec<u8>,
    DumpError,
>)
    ensures
        bytes_of(r) == rib_entry_bytes(entry@, add_path, path_id),
{
    let mut buf: Vec<u8> = Vec::new();
    let _ = buf.write_16b(entry.peer_index);
    let _ = buf.write_32b(entry.originated_time);
    if add_path {
        let _ = buf.write_32b(path_id);
    }
    let ghost head = buf@;
    assert(head =~= be16(entry.peer_index) + be32(entry.originated_time) + (if add_path {
        be32(path_id)
    } else {
        Seq::<u8>::empty()
    }));
    match with_count16(encode_attributes(&entry.attributes, add_path, false, false, false)) {
        Err(e) => Err(e),
        Ok(bytes) => {
            put_bytes(&mut buf, bytes.as_slice());
            Ok(buf)
        },
    }
}

impl MrtDump for RibAfiEntries {
    open spec fn encoding(&self, subtype: u16) -> Encoded {
        rib_afi_entries_bytes(self@, subtype)
    }

    fn to_bytes(&self, subtype: u16) -> (r: Result<Vec<u8>, DumpError>) {
        let add_path: bool = match TableDumpV2Type::from_u16(subtype) {
            Some(TableDumpV2Type::RibIpv4Unicast) => false,
            Some(TableDumpV2Type::RibIpv4Multicast) => false,
            Some(TableDumpV2Type::RibIpv6Unicast) => false,
            Some(TableDumpV2Type::RibIpv6Multicast) => false,
            Some(TableDumpV2Type::RibIpv4UnicastAddPath) => true,
            Some(TableDumpV2Type::RibIpv4MulticastAddPath) => true,
            Some(TableDumpV2Type::RibIpv6UnicastAddPath) => true,
            Some(TableDumpV2Type::RibIpv6MulticastAddPath) => true,
            _ => {
                return Err(DumpError::UnsupportedMessage);
            },
        };
        let mut buf: Vec<u8> = Vec::new();
        let _ = buf.write_32b(self.sequence_number);
        match buf.write_nlri(&self.prefix, false) {
            Err(e) => {
                return Err(e);
            },
            Ok(_) => {},
        }
        if self.rib_entries.len() > 0xFFFF {
            return Err(DumpError::ValueTooLarge);
        }
        let _ = buf.write_16b(self.rib_entries.len() as u16);
        let ghost nlri = nlri_bytes(self.prefix, false)->Ok_0;
        match encode_rib_entries(&self.rib_entries, add_path, self.prefix.path_id) {
            Err(e) => Err(e),
            Ok(entries) => {
                put_bytes(&mut buf, entries.as_slice());
                assert(buf@ =~= be32(self.sequence_number) + (nlri + (be16(
                    self.rib_entries@.len() as u16,
                ) + entries@)));
                Ok(buf)
            },
        }
    }
}

/// The routes of a list on the wire, in order.
fn encode_rib_entries(entries: &Vec<RibEntry>, add_path: bool, path_id: u32) -> (r: Result<
    Vec<u8>,
    DumpError,
>)
    ensures
        bytes_of(r) == join(rib_entry_parts(rib_entry_views(entries@), add_path, path_id)),
{
    let ghost parts = rib_entry_parts(rib_entry_views(entries@), add_path, path_id);
    let mut buf: Vec<u8> = Vec::new();
    let mut i: usize = 0;
    while i < entries.len()
        invariant
            i <= entries@.len(),
            parts == rib_entry_parts(rib_entry_views(entries@), add_path, path_id),
            parts.len() == entries@.len(),
            Ok::<Seq<u8>, DumpError>(buf@) == join(parts.take(i as int)),
        decreases entries@.len() - i,
    {
        proof {
            lemma_join_step(parts, i as int);
            assert(parts[i as int] == rib_entry_bytes(entries@[i as int]@, add_path, path_id));
        }
        match encode_rib_entry(&entries[i], add_path, path_id) {
            Err(e) => {
                proof {
                    lemma_join_err(parts, i + 1);
                }
                return Err(e);
            },
            Ok(bytes) => {
                put_bytes(&mut buf, bytes.as_slice());
            },
        }
        i = i + 1;
    }
    proof {
        lemma_join_all(parts);
    }
    Ok(buf)
}

impl MrtDump for TableDumpV2Message {
    open spec fn encoding(&self, subtype: u16) -> Encoded {
        table_dump_v2_bytes(self@, subtype)
    }

    fn to_bytes(&self, subtype: u16) -> (r: Result<Vec<u8>, DumpError>) {
        match self {
            TableDumpV2Message::PeerIndexTable(m) => m.to_bytes(subtype),
            TableDumpV2Message::RibAfiEntries(m) => m.to_bytes(subtype),
            TableDumpV2Message::RibGenericEntries(m) => m.to_bytes(subtype),
        }
    }
}

} // verus!
