use vstd::prelude::*;
use crate::models::elem::{elem_views, BgpElem, BgpElemView};
use crate::models::mrt::{
    CommonHeader, EntryType, MrtMessageView, MrtRecordView, Peer, PeerIndexTable,
    PeerIndexTableView, RibAfiEntries, RibAfiEntriesView, RibEntry, RibEntryView,
    TableDumpV2MessageView, TableDumpV2Type,
};
use crate::models::network::{Asn, AsnLength, IpAddress, IpNetwork, NetworkPrefix};
use crate::mrt_compose::attributes::{elem_attributes, elem_to_attributes};
use crate::mrt_compose::error::ComposeError;
use crate::mrt_compose::{add_all, record_parts, run, stream_bytes, MrtCompose};
use crate::mrt_dump::encoding::{
    bytes_of, counted16, join, lemma_join_all, lemma_join_err, lemma_join_one, lemma_join_step,
    put_bytes, Encoded,
};
use crate::mrt_dump::error::DumpError;
use crate::mrt_dump::mrt::{
    frame_record, header_bytes, lemma_record_bytes, message_bytes, record_bytes,
};
use crate::mrt_dump::table_dump::{peer_index_table_bytes, peer_parts};
use crate::mrt_dump::utils::{be16, be32};
use crate::MrtDump;

verus! {

/// The most peers that a table can count.
pub const MAX_PEERS: usize = 0xFFFF;

/// Composes a table dump: one record with the table of the peers, then one
/// record per prefix with the routes to it, the prefixes in rising order.
/// All records carry the time of the first element taken.
pub struct TableDumpComposer {
    peer_table: PeerIndexTable,
    ribs: Vec<RibAfiEntries>,
    ts_sec: u32,
}

/// What a table-dump composer holds: the time of its records, its peers in
/// the order in which they were first seen, and the routes by prefix, the
/// prefixes in rising order.
pub struct RibModel {
    pub ts_sec: u32,
    pub peers: Seq<Peer>,
    pub ribs: Seq<RibAfiEntriesView>,
}

/// The order of networks: those of IPv4 before those of IPv6; within a
/// family by address, as a number; at one address the shorter prefix first.
pub open spec fn net_lt(a: IpNetwork, b: IpNetwork) -> bool {
    match (a.addr, b.addr) {
        (IpAddress::V4(_), IpAddress::V6(_)) => true,
        (IpAddress::V6(_), IpAddress::V4(_)) => false,
        (IpAddress::V4(x), IpAddress::V4(y)) => x < y || (x == y && a.prefix < b.prefix),
        (IpAddress::V6(x), IpAddress::V6(y)) => x < y || (x == y && a.prefix < b.prefix),
    }
}

/// How many of `ribs` hold a network that comes before `net`.
pub open spec fn below(ribs: Seq<RibAfiEntriesView>, net: IpNetwork) -> int
    decreases ribs.len(),
{
    if ribs.len() == 0 {
        0
    } else {
        below(ribs.drop_last(), net) + if net_lt(ribs.last().prefix.prefix, net) {
            1int
        } else {
            0int
        }
    }
}

/// The index of the first of `peers` at address `ip`, or the number of
/// peers if none is there.
pub open spec fn peer_position(peers: Seq<Peer>, ip: IpAddress) -> int
    decreases peers.len(),
{
    if peers.len() == 0 {
        0
    } else {
        let before = peer_position(peers.drop_last(), ip);
        if before < peers.len() - 1 {
            before
        } else if peers.last().peer_address == ip {
            peers.len() - 1
        } else {
            peers.len() as int
        }
    }
}

/// The peer that an element names: its address and its AS number, written
/// in 32 bits; no identifier; and the type that says both, with bit 0 for
/// an IPv6 address and bit 1 for the width of the AS number.
pub open spec fn peer_of(e: BgpElemView) -> Peer {
    Peer {
        peer_type: if e.peer_ip.is_ipv4() {
            2
        } else {
            3
        },
        peer_bgp_id: 0,
        peer_address: e.peer_ip,
        peer_asn: Asn { asn: e.peer_asn.asn, len: AsnLength::Bits32 },
    }
}

/// The subtype of the record that holds the unicast routes to `net`.
pub open spec fn unicast_type(net: IpNetwork) -> TableDumpV2Type {
    if net.is_ipv4() {
        TableDumpV2Type::RibIpv4Unicast
    } else {
        TableDumpV2Type::RibIpv6Unicast
    }
}

/// The routes to `net` when `entry` is the first of them.
pub open spec fn first_route(net: IpNetwork, entry: RibEntryView) -> RibAfiEntriesView {
    RibAfiEntriesView {
        rib_type: unicast_type(net),
        sequence_number: 0,
        prefix: NetworkPrefix { prefix: net, path_id: 0 },
        rib_entries: seq![entry],
    }
}

/// The routes `rib` with `entry` after them.
pub open spec fn next_route(rib: RibAfiEntriesView, entry: RibEntryView) -> RibAfiEntriesView {
    RibAfiEntriesView {
        rib_type: rib.rib_type,
        sequence_number: rib.sequence_number,
        prefix: rib.prefix,
        rib_entries: rib.rib_entries.push(entry),
    }
}

/// The routes by prefix with one more route to `net`: after the routes that
/// `net` has already, or as the first route of `net`, at its place in the
/// order of networks.
pub open spec fn with_route(
    ribs: Seq<RibAfiEntriesView>,
    net: IpNetwork,
    entry: RibEntryView,
) -> Seq<RibAfiEntriesView> {
    let at = below(ribs, net);
    if at < ribs.len() && ribs[at].prefix.prefix == net {
        ribs.update(at, next_route(ribs[at], entry))
    } else {
        ribs.insert(at, first_route(net, entry))
    }
}

/// What the composer holds after one more element. The first element gives
/// its time to the dump. The element's peer keeps the index that it has, or
/// gets the next one; where no index is left, the element is refused. The
/// route goes to the element's network, with the index of its peer, no time
/// of origin, and the attributes of the element.
pub open spec fn rib_step(m: RibModel, e: BgpElemView) -> Result<RibModel, ComposeError> {
    match elem_attributes(e) {
        Err(err) => Err(err),
        Ok(attributes) => {
            let index = peer_position(m.peers, e.peer_ip);
            if index == m.peers.len() && m.peers.len() >= MAX_PEERS {
                Err(ComposeError::DumpError(DumpError::ValueTooLarge))
            } else {
                Ok(
                    RibModel {
                        ts_sec: if m.peers.len() == 0 {
                            e.timestamp
                        } else {
                            m.ts_sec
                        },
                        peers: if index == m.peers.len() {
                            m.peers.push(peer_of(e))
                        } else {
                            m.peers
                        },
                        ribs: with_route(
                            m.ribs,
                            e.prefix.prefix,
                            RibEntryView {
                                peer_index: index as u16,
                                originated_time: 0,
                                attributes,
                            },
                        ),
                    },
                )
            }
        },
    }
}

/// The header of a record of a table dump.
pub open spec fn dump_header(ts_sec: u32, subtype: TableDumpV2Type) -> CommonHeader {
    CommonHeader {
        timestamp: ts_sec,
        microsecond_timestamp: None,
        entry_type: EntryType::TABLE_DUMP_V2,
        entry_subtype: subtype.code(),
        length: 0,
    }
}

/// The record with the table of the peers: no collector identifier, no
/// view name, and the peers by index.
pub open spec fn peer_record(m: RibModel) -> MrtRecordView {
    MrtRecordView {
        common_header: dump_header(m.ts_sec, TableDumpV2Type::PeerIndexTable),
        message: MrtMessageView::TableDumpV2Message(
            TableDumpV2MessageView::PeerIndexTable(
                PeerIndexTableView { collector_bgp_id: 0, view_name: Seq::empty(), peers: m.peers },
            ),
        ),
    }
}

/// The record with the routes to one prefix.
pub open spec fn rib_record(ts_sec: u32, rib: RibAfiEntriesView) -> MrtRecordView {
    MrtRecordView {
        common_header: dump_header(ts_sec, rib.rib_type),
        message: MrtMessageView::TableDumpV2Message(TableDumpV2MessageView::RibAfiEntries(rib)),
    }
}

/// The records of a table dump: the table of the peers, then the routes
/// prefix by prefix.
pub open spec fn rib_records(m: RibModel) -> Seq<MrtRecordView> {
    Seq::new(
        m.ribs.len() + 1,
        |i: int|
            if i == 0 {
                peer_record(m)
            } else {
                rib_record(m.ts_sec, m.ribs[i - 1])
            },
    )
}

/// What holds of the routes to one prefix in a composer: there is at least
/// one; they have no sequence number and no path identifier; and they are
/// unicast routes of the family of the prefix.
pub open spec fn rib_shape(rib: RibAfiEntriesView) -> bool {
    &&& rib.rib_entries.len() > 0
    &&& rib.sequence_number == 0
    &&& rib.prefix.path_id == 0
    &&& rib.rib_type == unicast_type(rib.prefix.prefix)
}

/// Whether every route of `rib` names a peer below `count`.
pub open spec fn peers_known(rib: RibAfiEntriesView, count: int) -> bool {
    forall|k: int|
        0 <= k < rib.rib_entries.len() ==> (#[trigger] rib.rib_entries[k]).peer_index < count
}

/// Whether the networks of `ribs` rise strictly.
pub open spec fn rising(ribs: Seq<RibAfiEntriesView>) -> bool {
    forall|i: int, j: int|
        0 <= i < j < ribs.len() ==> net_lt(
            (#[trigger] ribs[i]).prefix.prefix,
            (#[trigger] ribs[j]).prefix.prefix,
        )
}

/// Whether no two of `peers` share an address.
pub open spec fn distinct(peers: Seq<Peer>) -> bool {
    forall|i: int, j: int|
        0 <= i < j < peers.len() ==> (#[trigger] peers[i]).peer_address != (
        #[trigger] peers[j]).peer_address
}

/// What holds of every composer: the table can count its peers; no two
/// peers share an address; the prefixes rise strictly, so none occurs
/// twice; and every route names a peer of the table.
pub open spec fn rib_inv(m: RibModel) -> bool {
    &&& m.peers.len() <= MAX_PEERS
    &&& distinct(m.peers)
    &&& rising(m.ribs)
    &&& forall|i: int| 0 <= i < m.ribs.len() ==> rib_shape(#[trigger] m.ribs[i])
    &&& forall|i: int|
        0 <= i < m.ribs.len() ==> peers_known(#[trigger] m.ribs[i], m.peers.len() as int)
}

/// The views of the routes by prefix, in order.
pub open spec fn rib_views(ribs: Seq<RibAfiEntries>) -> Seq<RibAfiEntriesView> {
    ribs.map_values(|r: RibAfiEntries| r@)
}

/// The order of networks passes on: what comes before a network comes
/// before all that the network comes before.
pub proof fn lemma_net_lt_transitive(a: IpNetwork, b: IpNetwork, c: IpNetwork)
    requires
        net_lt(a, b),
        net_lt(b, c),
    ensures
        net_lt(a, c),
{
}

/// Of two different networks one comes before the other, and no network
/// comes before itself.
pub proof fn lemma_net_lt_total(a: IpNetwork, b: IpNetwork)
    ensures
        !net_lt(a, a),
        a != b ==> (net_lt(a, b) || net_lt(b, a)),
        !(net_lt(a, b) && net_lt(b, a)),
{
}

/// The place that `peer_position` names: the first peer at the address, if
/// there is one.
pub proof fn lemma_peer_position(peers: Seq<Peer>, ip: IpAddress)
    ensures
        0 <= peer_position(peers, ip) <= peers.len(),
        peer_position(peers, ip) < peers.len() ==> peers[peer_position(
            peers,
            ip,
        )].peer_address == ip,
        forall|j: int|
            0 <= j < peer_position(peers, ip) ==> (#[trigger] peers[j]).peer_address != ip,
    decreases peers.len(),
{
    if peers.len() > 0 {
        lemma_peer_position(peers.drop_last(), ip);
        assert forall|j: int| 0 <= j < peer_position(peers, ip) implies (
        #[trigger] peers[j]).peer_address != ip by {
            if j < peers.len() - 1 {
                assert(peers.drop_last()[j] == peers[j]);
            }
        }
    }
}

/// A place before which no peer is at the address, and which is the end or
/// holds a peer at the address, is the place that `peer_position` names.
proof fn lemma_peer_found(peers: Seq<Peer>, ip: IpAddress, at: int)
    requires
        0 <= at <= peers.len(),
        forall|j: int| 0 <= j < at ==> (#[trigger] peers[j]).peer_address != ip,
        at < peers.len() ==> peers[at].peer_address == ip,
    ensures
        peer_position(peers, ip) == at,
{
    lemma_peer_position(peers, ip);
    let found = peer_position(peers, ip);
    if found < at {
        assert(peers[found].peer_address == ip);
    } else if at < found {
        assert(peers[at].peer_address != ip);
    }
}

/// In a rising list the networks before `net` are the first `below` ones.
pub proof fn lemma_below(ribs: Seq<RibAfiEntriesView>, net: IpNetwork)
    requires
        rising(ribs),
    ensures
        0 <= below(ribs, net) <= ribs.len(),
        forall|j: int|
            0 <= j < below(ribs, net) ==> net_lt((#[trigger] ribs[j]).prefix.prefix, net),
        forall|j: int|
            below(ribs, net) <= j < ribs.len() ==> !net_lt((#[trigger] ribs[j]).prefix.prefix, net),
    decreases ribs.len(),
{
    if ribs.len() > 0 {
        let init = ribs.drop_last();
        assert(rising(init)) by {
            assert forall|i: int, j: int| 0 <= i < j < init.len() implies net_lt(
                (#[trigger] init[i]).prefix.prefix,
                (#[trigger] init[j]).prefix.prefix,
            ) by {
                assert(init[i] == ribs[i]);
                assert(init[j] == ribs[j]);
            }
        }
        lemma_below(init, net);
        let at = below(init, net);
        let last = ribs.last().prefix.prefix;
        assert forall|j: int| 0 <= j < init.len() implies init[j] == ribs[j] by {}
        if net_lt(last, net) {
            assert forall|j: int| 0 <= j < ribs.len() implies net_lt(
                (#[trigger] ribs[j]).prefix.prefix,
                net,
            ) by {
                if j < ribs.len() - 1 {
                    assert(net_lt(ribs[j].prefix.prefix, ribs[ribs.len() - 1].prefix.prefix));
                    lemma_net_lt_transitive(ribs[j].prefix.prefix, last, net);
                }
            }
            if at < init.len() {
                assert(net_lt(init[at].prefix.prefix, net));
            }
            assert(at == init.len());
        } else {
            assert forall|j: int| at <= j < ribs.len() implies !net_lt(
                (#[trigger] ribs[j]).prefix.prefix,
                net,
            ) by {
                if j < ribs.len() - 1 {
                    assert(init[j] == ribs[j]);
                }
            }
            assert forall|j: int| 0 <= j < at implies net_lt(
                (#[trigger] ribs[j]).prefix.prefix,
                net,
            ) by {
                assert(init[j] == ribs[j]);
            }
        }
    }
}

/// A place that parts a list into the networks before `net` and the rest is
/// the place that `below` counts.
proof fn lemma_below_found(ribs: Seq<RibAfiEntriesView>, net: IpNetwork, at: int)
    requires
        rising(ribs),
        0 <= at <= ribs.len(),
        forall|j: int| 0 <= j < at ==> net_lt((#[trigger] ribs[j]).prefix.prefix, net),
        forall|j: int| at <= j < ribs.len() ==> !net_lt((#[trigger] ribs[j]).prefix.prefix, net),
    ensures
        below(ribs, net) == at,
{
    lemma_below(ribs, net);
    let found = below(ribs, net);
    if found < at {
        assert(net_lt(ribs[found].prefix.prefix, net));
    } else if at < found {
        assert(net_lt(ribs[at].prefix.prefix, net));
    }
}

/// One more route keeps the prefixes rising.
proof fn lemma_with_route_rising(ribs: Seq<RibAfiEntriesView>, net: IpNetwork, entry: RibEntryView)
    requires
        rising(ribs),
    ensures
        rising(with_route(ribs, net, entry)),
{
    lemma_below(ribs, net);
    let at = below(ribs, net);
    let after = with_route(ribs, net, entry);
    if at < ribs.len() && ribs[at].prefix.prefix == net {
        assert forall|i: int, j: int| 0 <= i < j < after.len() implies net_lt(
            (#[trigger] after[i]).prefix.prefix,
            (#[trigger] after[j]).prefix.prefix,
        ) by {
            assert(after[i].prefix == ribs[i].prefix);
            assert(after[j].prefix == ribs[j].prefix);
        }
    } else {
        assert forall|i: int, j: int| 0 <= i < j < after.len() implies net_lt(
            (#[trigger] after[i]).prefix.prefix,
            (#[trigger] after[j]).prefix.prefix,
        ) by {
            if j < at {
                assert(after[i] == ribs[i] && after[j] == ribs[j]);
            } else if j == at {
                assert(after[i] == ribs[i]);
                assert(net_lt(ribs[i].prefix.prefix, net));
            } else if i < at {
                assert(after[i] == ribs[i] && after[j] == ribs[j - 1]);
            } else if i == at {
                assert(after[j] == ribs[j - 1]);
                let other = ribs[j - 1].prefix.prefix;
                let first = ribs[at].prefix.prefix;
                lemma_net_lt_total(first, net);
                assert(!net_lt(first, net));
                assert(net_lt(net, first));
                if j - 1 > at {
                    assert(net_lt(ribs[at].prefix.prefix, ribs[j - 1].prefix.prefix));
                    lemma_net_lt_transitive(net, first, other);
                }
            } else {
                assert(after[i] == ribs[i - 1] && after[j] == ribs[j - 1]);
            }
        }
    }
}

/// What holds of every composer holds after one more element.
pub proof fn lemma_step_keeps_inv(m: RibModel, e: BgpElemView)
    requires
        rib_inv(m),
        rib_step(m, e) is Ok,
    ensures
        rib_inv(rib_step(m, e)->Ok_0),
{
    let after = rib_step(m, e)->Ok_0;
    let index = peer_position(m.peers, e.peer_ip);
    let net = e.prefix.prefix;
    let entry = RibEntryView {
        peer_index: index as u16,
        originated_time: 0,
        attributes: elem_attributes(e)->Ok_0,
    };
    lemma_peer_position(m.peers, e.peer_ip);
    lemma_with_route_rising(m.ribs, net, entry);
    lemma_below(m.ribs, net);
    let at = below(m.ribs, net);
    assert(distinct(after.peers)) by {
        if index == m.peers.len() {
            assert forall|i: int, j: int| 0 <= i < j < after.peers.len() implies (
            #[trigger] after.peers[i]).peer_address != (#[trigger] after.peers[j]).peer_address by {
                assert(after.peers[i] == m.peers[i]);
                if j < m.peers.len() {
                    assert(after.peers[j] == m.peers[j]);
                }
            }
        }
    }
    assert(entry.peer_index < after.peers.len());
    assert forall|i: int| 0 <= i < after.ribs.len() implies rib_shape(#[trigger] after.ribs[i])
        && peers_known(after.ribs[i], after.peers.len() as int) by {
        if at < m.ribs.len() && m.ribs[at].prefix.prefix == net {
            assert(rib_shape(m.ribs[i]) && peers_known(m.ribs[i], m.peers.len() as int));
            if i == at {
                let rib = after.ribs[i];
                assert forall|k: int| 0 <= k < rib.rib_entries.len() implies (
                #[trigger] rib.rib_entries[k]).peer_index < after.peers.len() by {
                    if k < m.ribs[i].rib_entries.len() {
                        assert(rib.rib_entries[k] == m.ribs[i].rib_entries[k]);
                    }
                }
            }
        } else {
            if i < at {
                assert(after.ribs[i] == m.ribs[i]);
                assert(rib_shape(m.ribs[i]) && peers_known(m.ribs[i], m.peers.len() as int));
            } else if i > at {
                assert(after.ribs[i] == m.ribs[i - 1]);
                assert(rib_shape(m.ribs[i - 1]) && peers_known(
                    m.ribs[i - 1],
                    m.peers.len() as int,
                ));
            }
        }
    }
}

/// What holds of every composer holds after any list of elements, whether
/// all of them were taken or one was refused.
pub proof fn lemma_run_keeps_inv(m: RibModel, elems: Seq<BgpElemView>)
    requires
        rib_inv(m),
    ensures
        rib_inv(run::<TableDumpComposer>(m, elems).0),
    decreases elems.len(),
{
    if elems.len() > 0 {
        if let Ok(next) = rib_step(m, elems[0]) {
            lemma_step_keeps_inv(m, elems[0]);
            lemma_run_keeps_inv(next, elems.skip(1));
        }
    }
}

/// An element that is taken leaves every peer at its index; its own peer
/// is in the table afterwards, once, at the end of the table if it was not
/// there before; and the routes to its network end with a route that names
/// that peer by its index.
pub proof fn lemma_step_peers(m: RibModel, e: BgpElemView)
    requires
        rib_inv(m),
        rib_step(m, e) is Ok,
    ensures
        ({
            let after = rib_step(m, e)->Ok_0;
            let index = peer_position(after.peers, e.peer_ip);
            let at = below(after.ribs, e.prefix.prefix);
            &&& m.peers.len() <= after.peers.len() <= m.peers.len() + 1
            &&& after.peers.take(m.peers.len() as int) == m.peers
            &&& index == peer_position(m.peers, e.peer_ip)
            &&& index < after.peers.len()
            &&& after.peers[index].peer_address == e.peer_ip
            &&& forall|j: int|
                0 <= j < after.peers.len() && j != index ==> (
                #[trigger] after.peers[j]).peer_address != e.peer_ip
            &&& at < after.ribs.len()
            &&& after.ribs[at].prefix.prefix == e.prefix.prefix
            &&& after.ribs[at].rib_entries.last().peer_index == index
        }),
{
    let after = rib_step(m, e)->Ok_0;
    let found = peer_position(m.peers, e.peer_ip);
    let net = e.prefix.prefix;
    let entry = RibEntryView {
        peer_index: found as u16,
        originated_time: 0,
        attributes: elem_attributes(e)->Ok_0,
    };
    lemma_peer_position(m.peers, e.peer_ip);
    assert(after.peers.take(m.peers.len() as int) =~= m.peers);
    assert forall|j: int| 0 <= j < found implies (#[trigger] after.peers[j]).peer_address
        != e.peer_ip by {
        assert(after.peers[j] == m.peers[j]);
    }
    lemma_peer_found(after.peers, e.peer_ip, found);
    lemma_step_keeps_inv(m, e);
    lemma_below(m.ribs, net);
    lemma_with_route_rising(m.ribs, net, entry);
    let at = below(m.ribs, net);
    assert forall|j: int| 0 <= j < at implies net_lt(
        (#[trigger] after.ribs[j]).prefix.prefix,
        net,
    ) by {
        assert(after.ribs[j].prefix == m.ribs[j].prefix);
    }
    assert forall|j: int| at <= j < after.ribs.len() implies !net_lt(
        (#[trigger] after.ribs[j]).prefix.prefix,
        net,
    ) by {
        lemma_net_lt_total(net, net);
        if j > at {
            assert(net_lt(after.ribs[at].prefix.prefix, after.ribs[j].prefix.prefix));
            lemma_net_lt_total(net, after.ribs[j].prefix.prefix);
        }
    }
    lemma_below_found(after.ribs, net, at);
}

/// A peer that is in a table is at the same index in every table that the
/// table begins.
pub proof fn lemma_peer_kept(peers: Seq<Peer>, longer: Seq<Peer>, ip: IpAddress)
    requires
        peers.len() <= longer.len(),
        longer.take(peers.len() as int) == peers,
        peer_position(peers, ip) < peers.len(),
    ensures
        peer_position(longer, ip) == peer_position(peers, ip),
{
    lemma_peer_position(peers, ip);
    let at = peer_position(peers, ip);
    assert forall|j: int| 0 <= j <= at implies (#[trigger] longer[j]) == peers[j] by {
        assert(longer.take(peers.len() as int)[j] == longer[j]);
    }
    lemma_peer_found(longer, ip, at);
}

/// Whatever elements follow, the peers of a composer stay at their
/// indices: the table only grows at its end.
pub proof fn lemma_run_grows(m: RibModel, elems: Seq<BgpElemView>)
    requires
        rib_inv(m),
    ensures
        m.peers.len() <= run::<TableDumpComposer>(m, elems).0.peers.len(),
        run::<TableDumpComposer>(m, elems).0.peers.take(m.peers.len() as int) == m.peers,
    decreases elems.len(),
{
    let last = run::<TableDumpComposer>(m, elems).0;
    if elems.len() > 0 {
        if let Ok(next) = rib_step(m, elems[0]) {
            lemma_step_keeps_inv(m, elems[0]);
            lemma_step_peers(m, elems[0]);
            lemma_run_grows(next, elems.skip(1));
            assert(last.peers.take(m.peers.len() as int) =~= next.peers.take(
                m.peers.len() as int,
            )) by {
                assert forall|j: int| 0 <= j < m.peers.len() implies last.peers[j]
                    == next.peers[j] by {
                    assert(last.peers.take(next.peers.len() as int)[j] == last.peers[j]);
                }
            }
        } else {
            assert(last.peers.take(m.peers.len() as int) =~= m.peers);
        }
    } else {
        assert(last.peers.take(m.peers.len() as int) =~= m.peers);
    }
}

/// When all the elements of a list are taken, the peer of each of them is
/// in the table.
pub proof fn lemma_run_covers(m: RibModel, elems: Seq<BgpElemView>, i: int)
    requires
        rib_inv(m),
        run::<TableDumpComposer>(m, elems).1 is Ok,
        0 <= i < elems.len(),
    ensures
        peer_position(run::<TableDumpComposer>(m, elems).0.peers, elems[i].peer_ip)
            < run::<TableDumpComposer>(m, elems).0.peers.len(),
    decreases elems.len(),
{
    let next = rib_step(m, elems[0])->Ok_0;
    let last = run::<TableDumpComposer>(m, elems).0;
    lemma_step_keeps_inv(m, elems[0]);
    if i == 0 {
        lemma_step_peers(m, elems[0]);
        lemma_run_grows(next, elems.skip(1));
        lemma_peer_kept(next.peers, last.peers, elems[0].peer_ip);
    } else {
        lemma_run_covers(next, elems.skip(1), i - 1);
    }
}

/// Every peer that a list of elements brings into the table is the peer of
/// one of the elements.
pub proof fn lemma_run_only_seen(m: RibModel, elems: Seq<BgpElemView>, j: int)
    requires
        rib_inv(m),
        m.peers.len() <= j < run::<TableDumpComposer>(m, elems).0.peers.len(),
    ensures
        exists|i: int|
            0 <= i < elems.len() && (#[trigger] elems[i]).peer_ip == run::<TableDumpComposer>(
                m,
                elems,
            ).0.peers[j].peer_address,
    decreases elems.len(),
{
    let last = run::<TableDumpComposer>(m, elems).0;
    if elems.len() > 0 {
        if let Ok(next) = rib_step(m, elems[0]) {
            lemma_step_keeps_inv(m, elems[0]);
            lemma_step_peers(m, elems[0]);
            lemma_run_grows(next, elems.skip(1));
            if j < next.peers.len() {
                assert(last.peers.take(next.peers.len() as int)[j] == last.peers[j]);
                assert(elems[0].peer_ip == last.peers[j].peer_address);
            } else {
                lemma_run_only_seen(next, elems.skip(1), j);
                let i = choose|i: int|
                    0 <= i < elems.skip(1).len() && (#[trigger] elems.skip(1)[i]).peer_ip
                        == last.peers[j].peer_address;
                assert(elems[i + 1].peer_ip == last.peers[j].peer_address);
            }
        }
    }
}

/// The number of routes in all the lists of `ribs`.
pub open spec fn route_count(ribs: Seq<RibAfiEntriesView>) -> int
    decreases ribs.len(),
{
    if ribs.len() == 0 {
        0
    } else {
        route_count(ribs.drop_last()) + ribs.last().rib_entries.len()
    }
}

/// A list of routes put in anywhere adds its routes to the count.
proof fn lemma_count_insert(ribs: Seq<RibAfiEntriesView>, at: int, rib: RibAfiEntriesView)
    requires
        0 <= at <= ribs.len(),
    ensures
        route_count(ribs.insert(at, rib)) == route_count(ribs) + rib.rib_entries.len(),
    decreases ribs.len(),
{
    let after = ribs.insert(at, rib);
    if at == ribs.len() {
        assert(after.drop_last() =~= ribs);
    } else {
        assert(after.drop_last() =~= ribs.drop_last().insert(at, rib));
        assert(after.last() == ribs.last());
        lemma_count_insert(ribs.drop_last(), at, rib);
    }
}

/// A list of routes put in the place of another changes the count by the
/// difference of their lengths.
proof fn lemma_count_update(ribs: Seq<RibAfiEntriesView>, at: int, rib: RibAfiEntriesView)
    requires
        0 <= at < ribs.len(),
    ensures
        route_count(ribs.update(at, rib)) == route_count(ribs) - ribs[at].rib_entries.len()
            + rib.rib_entries.len(),
    decreases ribs.len(),
{
    let after = ribs.update(at, rib);
    if at == ribs.len() - 1 {
        assert(after.drop_last() =~= ribs.drop_last());
    } else {
        assert(after.drop_last() =~= ribs.drop_last().update(at, rib));
        assert(after.last() == ribs.last());
        lemma_count_update(ribs.drop_last(), at, rib);
    }
}

/// An element that is taken adds one route, and a list of elements that
/// are all taken adds one route each.
pub proof fn lemma_run_adds_routes(m: RibModel, elems: Seq<BgpElemView>)
    requires
        rib_inv(m),
        run::<TableDumpComposer>(m, elems).1 is Ok,
    ensures
        route_count(run::<TableDumpComposer>(m, elems).0.ribs) == route_count(m.ribs)
            + elems.len(),
    decreases elems.len(),
{
    if elems.len() > 0 {
        let e = elems[0];
        let next = rib_step(m, e)->Ok_0;
        let net = e.prefix.prefix;
        let entry = RibEntryView {
            peer_index: peer_position(m.peers, e.peer_ip) as u16,
            originated_time: 0,
            attributes: elem_attributes(e)->Ok_0,
        };
        lemma_below(m.ribs, net);
        let at = below(m.ribs, net);
        if at < m.ribs.len() && m.ribs[at].prefix.prefix == net {
            lemma_count_update(m.ribs, at, next_route(m.ribs[at], entry));
        } else {
            lemma_count_insert(m.ribs, at, first_route(net, entry));
        }
        lemma_step_keeps_inv(m, e);
        lemma_run_adds_routes(next, elems.skip(1));
    }
}

/// The table of no peers on the wire: eight octets of zero.
proof fn lemma_empty_table()
    ensures
        peer_index_table_bytes(
            PeerIndexTableView {
                collector_bgp_id: 0,
                view_name: Seq::empty(),
                peers: Seq::empty(),
            },
        ) == Ok::<Seq<u8>, DumpError>(seq![0u8, 0u8, 0u8, 0u8, 0u8, 0u8, 0u8, 0u8]),
{
    let table = PeerIndexTableView {
        collector_bgp_id: 0,
        view_name: Seq::empty(),
        peers: Seq::empty(),
    };
    assert(peer_parts(table.peers) =~= Seq::<Encoded>::empty());
    assert(join(peer_parts(table.peers)) == Ok::<Seq<u8>, DumpError>(Seq::empty()));
    assert(counted16(Ok(table.view_name))->Ok_0 =~= seq![0u8, 0u8]);
    assert(be32(0) =~= seq![0u8, 0u8, 0u8, 0u8]);
    assert(be16(0) =~= seq![0u8, 0u8]);
    assert(peer_index_table_bytes(table)->Ok_0 =~= seq![0u8, 0u8, 0u8, 0u8, 0u8, 0u8, 0u8, 0u8]);
}

/// The header of the table of no peers at time zero.
proof fn lemma_empty_header()
    ensures
        header_bytes(dump_header(0, TableDumpV2Type::PeerIndexTable), 8) == Ok::<
            Seq<u8>,
            DumpError,
        >(seq![0u8, 0u8, 0u8, 0u8, 0u8, 13u8, 0u8, 1u8, 0u8, 0u8, 0u8, 8u8]),
{
    assert(be32(0) =~= seq![0u8, 0u8, 0u8, 0u8]);
    assert(be32(8) =~= seq![0u8, 0u8, 0u8, 8u8]);
    assert(be16(13) =~= seq![0u8, 13u8]);
    assert(be16(1) =~= seq![0u8, 1u8]);
    assert(header_bytes(dump_header(0, TableDumpV2Type::PeerIndexTable), 8)->Ok_0 =~= seq![
        0u8, 0u8, 0u8, 0u8, 0u8, 13u8, 0u8, 1u8, 0u8, 0u8, 0u8, 8u8,
    ]);
}

/// The payload of the record with the table of no peers.
proof fn lemma_empty_payload()
    ensures
        message_bytes(
            peer_record(RibModel { ts_sec: 0, peers: Seq::empty(), ribs: Seq::empty() }).message,
            1,
        ) == Ok::<Seq<u8>, DumpError>(seq![0u8, 0u8, 0u8, 0u8, 0u8, 0u8, 0u8, 0u8]),
{
    lemma_empty_table();
}

/// The record with the table of no peers at time zero.
proof fn lemma_empty_record()
    ensures
        record_bytes(
            peer_record(RibModel { ts_sec: 0, peers: Seq::empty(), ribs: Seq::empty() }),
        ) == Ok::<Seq<u8>, DumpError>(
            seq![0u8, 0u8, 0u8, 0u8, 0u8, 13u8, 0u8, 1u8, 0u8, 0u8, 0u8, 8u8] + seq![
                0u8, 0u8, 0u8, 0u8, 0u8, 0u8, 0u8, 0u8,
            ],
        ),
{
    let record = peer_record(RibModel { ts_sec: 0, peers: Seq::empty(), ribs: Seq::empty() });
    let payload = seq![0u8, 0u8, 0u8, 0u8, 0u8, 0u8, 0u8, 0u8];
    lemma_empty_payload();
    lemma_empty_header();
    lemma_record_bytes(record, payload);
}

/// A composer that has taken no element writes one record: a table of no
/// peers, at time zero. The record is a header of twelve octets, which
/// names the type 13, the subtype 1 and a payload of eight octets, and the
/// payload, all zero.
pub proof fn lemma_empty_dump()
    ensures
        stream_bytes(rib_records(RibModel { ts_sec: 0, peers: Seq::empty(), ribs: Seq::empty() }))
            == Ok::<Seq<u8>, ComposeError>(
            seq![0u8, 0u8, 0u8, 0u8, 0u8, 13u8, 0u8, 1u8, 0u8, 0u8, 0u8, 8u8] + seq![
                0u8, 0u8, 0u8, 0u8, 0u8, 0u8, 0u8, 0u8,
            ],
        ),
{
    let m = RibModel { ts_sec: 0, peers: Seq::empty(), ribs: Seq::empty() };
    let parts = record_parts(rib_records(m));
    lemma_empty_record();
    assert(parts =~= seq![record_bytes(peer_record(m))]);
    lemma_join_one(record_bytes(peer_record(m)));
}

/// Whether `a` comes before `b` in the order of networks.
pub fn precedes(a: &IpNetwork, b: &IpNetwork) -> (r: bool)
    ensures
        r == net_lt(*a, *b),
{
    match (a.addr, b.addr) {
        (IpAddress::V4(_), IpAddress::V6(_)) => true,
        (IpAddress::V6(_), IpAddress::V4(_)) => false,
        (IpAddress::V4(x), IpAddress::V4(y)) => x < y || (x == y && a.prefix < b.prefix),
        (IpAddress::V6(x), IpAddress::V6(y)) => x < y || (x == y && a.prefix < b.prefix),
    }
}

/// The index of the first of `peers` at address `ip`, or their number.
fn find_peer(peers: &Vec<Peer>, ip: &IpAddress) -> (r: usize)
    ensures
        r == peer_position(peers@, *ip),
        r <= peers@.len(),
{
    let mut i: usize = 0;
    while i < peers.len()
        invariant
            i <= peers@.len(),
            forall|j: int| 0 <= j < i ==> (#[trigger] peers@[j]).peer_address != *ip,
        decreases peers@.len() - i,
    {
        if peers[i].peer_address == *ip {
            proof {
                lemma_peer_found(peers@, *ip, i as int);
            }
            return i;
        }
        i = i + 1;
    }
    proof {
        lemma_peer_found(peers@, *ip, i as int);
    }
    i
}

/// How many of `ribs` hold a network that comes before `net`.
fn find_rib(ribs: &Vec<RibAfiEntries>, net: &IpNetwork) -> (r: usize)
    requires
        rising(rib_views(ribs@)),
    ensures
        r == below(rib_views(ribs@), *net),
        r <= ribs@.len(),
{
    let ghost views = rib_views(ribs@);
    let mut low: usize = 0;
    let mut high: usize = ribs.len();
    while low < high
        invariant
            low <= high <= ribs@.len(),
            views == rib_views(ribs@),
            views.len() == ribs@.len(),
            rising(views),
            forall|j: int| 0 <= j < low ==> net_lt((#[trigger] views[j]).prefix.prefix, *net),
            forall|j: int|
                high <= j < views.len() ==> !net_lt((#[trigger] views[j]).prefix.prefix, *net),
        decreases high - low,
    {
        let mid: usize = low + (high - low) / 2;
        assert(views[mid as int] == ribs@[mid as int]@);
        if precedes(&ribs[mid].prefix.prefix, net) {
            proof {
                assert forall|j: int| 0 <= j < mid + 1 implies net_lt(
                    (#[trigger] views[j]).prefix.prefix,
                    *net,
                ) by {
                    if j < mid {
                        assert(net_lt(views[j].prefix.prefix, views[mid as int].prefix.prefix));
                        lemma_net_lt_transitive(
                            views[j].prefix.prefix,
                            views[mid as int].prefix.prefix,
                            *net,
                        );
                    }
                }
            }
            low = mid + 1;
        } else {
            proof {
                assert forall|j: int| mid <= j < views.len() implies !net_lt(
                    (#[trigger] views[j]).prefix.prefix,
                    *net,
                ) by {
                    if j > mid && net_lt(views[j].prefix.prefix, *net) {
                        assert(net_lt(views[mid as int].prefix.prefix, views[j].prefix.prefix));
                        lemma_net_lt_transitive(
                            views[mid as int].prefix.prefix,
                            views[j].prefix.prefix,
                            *net,
                        );
                    }
                }
            }
            high = mid;
        }
    }
    proof {
        lemma_below_found(views, *net, low as int);
    }
    low
}

/// Puts one more route to `net` into `ribs`.
fn put_route(ribs: &mut Vec<RibAfiEntries>, net: IpNetwork, entry: RibEntry)
    requires
        rising(rib_views(old(ribs)@)),
    ensures
        rib_views(final(ribs)@) == with_route(rib_views(old(ribs)@), net, entry@),
{
    let ghost before = rib_views(ribs@);
    let at = find_rib(ribs, &net);
    if at < ribs.len() && ribs[at].prefix.prefix == net {
        let ghost was = ribs@[at as int]@;
        assert(was == before[at as int]);
        ribs[at].rib_entries.push(entry);
        assert(ribs@[at as int]@.rib_entries =~= was.rib_entries.push(entry@));
        assert(ribs@[at as int]@ == next_route(was, entry@));
        assert(rib_views(ribs@) =~= before.update(at as int, next_route(was, entry@)));
    } else {
        let rib_type = if net.is_ipv4() {
            TableDumpV2Type::RibIpv4Unicast
        } else {
            TableDumpV2Type::RibIpv6Unicast
        };
        let mut rib_entries: Vec<RibEntry> = Vec::new();
        rib_entries.push(entry);
        let rib = RibAfiEntries {
            rib_type,
            sequence_number: 0,
            prefix: NetworkPrefix { prefix: net, path_id: 0 },
            rib_entries,
        };
        assert(rib@.rib_entries =~= seq![entry@]);
        assert(rib@ == first_route(net, entry@));
        ribs.insert(at, rib);
        assert(rib_views(ribs@) =~= before.insert(at as int, first_route(net, entry@)));
    }
}

impl TableDumpComposer {
    /// A composer that has taken no element: it holds no peer and no route,
    /// and its time is zero.
    pub fn new() -> (r: TableDumpComposer)
        ensures
            r.well_formed(),
            r.model() == (RibModel { ts_sec: 0, peers: Seq::empty(), ribs: Seq::empty() }),
    {
        let r = TableDumpComposer {
            peer_table: PeerIndexTable {
                collector_bgp_id: 0,
                view_name: Vec::new(),
                peers: Vec::new(),
            },
            ribs: Vec::new(),
            ts_sec: 0,
        };
        assert(r.model().peers =~= Seq::<Peer>::empty());
        assert(r.model().ribs =~= Seq::<RibAfiEntriesView>::empty());
        r
    }

    /// Takes the elements of a list in order, up to the first that is
    /// refused: those before it stay taken.
    pub fn add_elems(&mut self, elems: &Vec<BgpElem>) -> (r: Result<(), ComposeError>)
        requires
            old(self).well_formed(),
        ensures
            final(self).well_formed(),
            final(self).model() == run::<Self>(old(self).model(), elem_views(elems@)).0,
            r == run::<Self>(old(self).model(), elem_views(elems@)).1,
    {
        add_all(self, elems)
    }

    /// A composer that is well formed holds what holds of every composer.
    pub proof fn lemma_well_formed(&self)
        requires
            self.well_formed(),
        ensures
            rib_inv(self.model()),
    {
    }

    /// The record with the table of the peers, on the wire.
    fn encode_peer_record(&self) -> (r: Result<Vec<u8>, DumpError>)
        requires
            self.well_formed(),
        ensures
            bytes_of(r) == record_bytes(peer_record(self.model())),
    {
        reveal(record_bytes);
        let header = CommonHeader {
            timestamp: self.ts_sec,
            microsecond_timestamp: None,
            entry_type: EntryType::TABLE_DUMP_V2,
            entry_subtype: TableDumpV2Type::PeerIndexTable.to_u16(),
            length: 0,
        };
        assert(self.peer_table@ == (PeerIndexTableView {
            collector_bgp_id: 0,
            view_name: Seq::empty(),
            peers: self.model().peers,
        }));
        match self.peer_table.to_bytes(header.entry_subtype) {
            Err(e) => Err(e),
            Ok(payload) => frame_record(&header, &payload),
        }
    }
}

/// The record with the routes to one prefix, on the wire.
fn encode_rib_record(ts_sec: u32, rib: &RibAfiEntries) -> (r: Result<Vec<u8>, DumpError>)
    ensures
        bytes_of(r) == record_bytes(rib_record(ts_sec, rib@)),
{
    reveal(record_bytes);
    let header = CommonHeader {
        timestamp: ts_sec,
        microsecond_timestamp: None,
        entry_type: EntryType::TABLE_DUMP_V2,
        entry_subtype: rib.rib_type.to_u16(),
        length: 0,
    };
    match rib.to_bytes(header.entry_subtype) {
        Err(e) => Err(e),
        Ok(payload) => frame_record(&header, &payload),
    }
}

impl MrtCompose for TableDumpComposer {
    type Model = RibModel;

    closed spec fn model(&self) -> RibModel {
        RibModel {
            ts_sec: self.ts_sec,
            peers: self.peer_table.peers@,
            ribs: rib_views(self.ribs@),
        }
    }

    closed spec fn well_formed(&self) -> bool {
        &&& rib_inv(self.model())
        &&& self.peer_table.collector_bgp_id == 0
        &&& self.peer_table.view_name@ == Seq::<u8>::empty()
    }

    open spec fn step(m: RibModel, elem: BgpElemView) -> Result<RibModel, ComposeError> {
        rib_step(m, elem)
    }

    open spec fn records(m: RibModel) -> Seq<MrtRecordView> {
        rib_records(m)
    }

    fn add_elem(&mut self, elem: &BgpElem) -> (r: Result<(), ComposeError>) {
        let attributes = match elem_to_attributes(elem) {
            Err(e) => {
                return Err(e);
            },
            Ok(attributes) => attributes,
        };
        let index = find_peer(&self.peer_table.peers, &elem.peer_ip);
        if index == self.peer_table.peers.len() {
            if index >= MAX_PEERS {
                return Err(ComposeError::DumpError(DumpError::ValueTooLarge));
            }
            if index == 0 {
                self.ts_sec = elem.timestamp;
            }
            let peer_type: u8 = if elem.peer_ip.is_ipv4() {
                2
            } else {
                3
            };
            self.peer_table.peers.push(
                Peer {
                    peer_type,
                    peer_bgp_id: 0,
                    peer_address: elem.peer_ip,
                    peer_asn: Asn { asn: elem.peer_asn.asn, len: AsnLength::Bits32 },
                },
            );
        }
        let entry = RibEntry { peer_index: index as u16, originated_time: 0, attributes };
        put_route(&mut self.ribs, elem.prefix.prefix, entry);
        proof {
            assert(self.model() == rib_step(old(self).model(), elem@)->Ok_0);
            lemma_step_keeps_inv(old(self).model(), elem@);
        }
        Ok(())
    }

    fn export_bytes(&mut self) -> (r: Result<Vec<u8>, ComposeError>) {
        let ghost records = rib_records(self.model());
        let ghost parts = record_parts(records);
        let mut buf: Vec<u8> = Vec::new();
        proof {
            lemma_join_step(parts, 0);
            assert(parts.take(0) =~= Seq::<Encoded>::empty());
        }
        match self.encode_peer_record() {
            Err(e) => {
                proof {
                    lemma_join_err(parts, 1);
                }
                return Err(ComposeError::DumpError(e));
            },
            Ok(bytes) => {
                put_bytes(&mut buf, bytes.as_slice());
                assert(buf@ =~= Seq::<u8>::empty() + bytes@);
            },
        }
        let mut i: usize = 0;
        while i < self.ribs.len()
            invariant
                i <= self.ribs@.len(),
                self.well_formed(),
                self.model() == old(self).model(),
                records == rib_records(self.model()),
                parts == record_parts(records),
                parts.len() == self.ribs@.len() + 1,
                self.model().ribs.len() == self.ribs@.len(),
                self.model().ribs == rib_views(self.ribs@),
                self.model().ts_sec == self.ts_sec,
                Ok::<Seq<u8>, DumpError>(buf@) == join(parts.take(i + 1)),
            decreases self.ribs@.len() - i,
        {
            proof {
                lemma_join_step(parts, i + 1);
                assert(records[i + 1] == rib_record(self.ts_sec, self.ribs@[i as int]@));
            }
            match encode_rib_record(self.ts_sec, &self.ribs[i]) {
                Err(e) => {
                    proof {
                        lemma_join_err(parts, i + 2);
                    }
                    return Err(ComposeError::DumpError(e));
                },
                Ok(bytes) => {
                    put_bytes(&mut buf, bytes.as_slice());
                },
            }
            i = i + 1;
        }
        proof {
            lemma_join_all(parts);
        }
        Ok(buf)
    }
}

} // verus!
