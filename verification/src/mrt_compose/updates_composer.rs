use vstd::prelude::*;
use crate::models::bgp::{BgpMessage, BgpMessageView, BgpUpdateMessage, BgpUpdateMessageView};
use crate::models::elem::{elem_views, BgpElem, BgpElemView, ElemType};
use crate::models::mrt::{
    record_views, Bgp4Mp, Bgp4MpMessage, Bgp4MpMessageView, Bgp4MpType, Bgp4MpView, CommonHeader,
    EntryType, MrtMessage, MrtMessageView, MrtRecord, MrtRecordView,
};
use crate::models::network::{Afi, Asn, NetworkPrefix};
use crate::mrt_compose::attributes::{elem_attributes, elem_to_attributes};
use crate::mrt_compose::error::ComposeError;
use crate::mrt_compose::{add_all, record_parts, run, MrtCompose};
use crate::mrt_dump::encoding::{
    join, lemma_join_all, lemma_join_err, lemma_join_step, put_bytes, Encoded,
};
use crate::mrt_dump::error::DumpError;
use crate::mrt_dump::mrt::record_bytes;
use crate::MrtDump;

verus! {

/// Composes a stream of updates: one record per element, each a BGP UPDATE
/// inside a BGP4MP message with 32-bit AS numbers and a timestamp extended
/// by microseconds.
pub struct BgpUpdatesComposer {
    mrt_records: Vec<MrtRecord>,
}

/// The prefix of an element where its type is `wanted`, else nothing.
pub open spec fn prefixes_of(e: BgpElemView, wanted: ElemType) -> Seq<NetworkPrefix> {
    if e.elem_type == wanted {
        seq![e.prefix]
    } else {
        Seq::empty()
    }
}

/// The record that stands for an element: the time of the element in the
/// header; the peer as the element names it; the local side as AS number
/// zero, in the width of the peer's, and the address of the peer's family
/// whose octets are zero; interface zero; the address family of the prefix;
/// and an UPDATE that announces or withdraws the prefix with the attributes
/// of the element.
pub open spec fn update_record(e: BgpElemView) -> Result<MrtRecordView, ComposeError> {
    match elem_attributes(e) {
        Err(err) => Err(err),
        Ok(attributes) => Ok(
            MrtRecordView {
                common_header: CommonHeader {
                    timestamp: e.timestamp,
                    microsecond_timestamp: Some(e.microseconds),
                    entry_type: EntryType::BGP4MP_ET,
                    entry_subtype: Bgp4MpType::Bgp4MpMessageAs4.code(),
                    length: 0,
                },
                message: MrtMessageView::Bgp4Mp(
                    Bgp4MpView::Bgp4MpMessageAs4(
                        Bgp4MpMessageView {
                            msg_type: Bgp4MpType::Bgp4MpMessageAs4,
                            peer_asn: e.peer_asn,
                            local_asn: Asn { asn: 0, len: e.peer_asn.len },
                            interface_index: 0,
                            afi: if e.prefix.prefix.is_ipv4() {
                                Afi::Ipv4
                            } else {
                                Afi::Ipv6
                            },
                            peer_ip: e.peer_ip,
                            local_ip: e.peer_ip.unspecified(),
                            bgp_message: BgpMessageView::Update(
                                BgpUpdateMessageView {
                                    withdrawn_prefixes: prefixes_of(e, ElemType::WITHDRAW),
                                    attributes,
                                    announced_prefixes: prefixes_of(e, ElemType::ANNOUNCE),
                                },
                            ),
                        },
                    ),
                ),
            },
        ),
    }
}

impl BgpUpdatesComposer {
    /// A composer that holds no record.
    pub fn new() -> (r: BgpUpdatesComposer)
        ensures
            r.well_formed(),
            r.model() == Seq::<MrtRecordView>::empty(),
    {
        let r = BgpUpdatesComposer { mrt_records: Vec::new() };
        assert(r.model() =~= Seq::<MrtRecordView>::empty());
        r
    }

    /// Takes the elements of a list in order, up to the first that is
    /// refused: those before it stay taken.
    pub fn add_elems(&mut self, elems: &Vec<BgpElem>) -> (r: Result<(), ComposeError>)
        requires
            old(self).well_formed(),
        ensures
            final(self).well_formed(),
            final(self).model() == run::<Self>(old(self).model(), elem_views(elems@)).0,
            r == run::<Self>(old(self).model(), elem_views(elems@)).1,
    {
        add_all(self, elems)
    }
}

impl MrtCompose for BgpUpdatesComposer {
    /// The records, in the order in which their elements were taken.
    type Model = Seq<MrtRecordView>;

    closed spec fn model(&self) -> Seq<MrtRecordView> {
        record_views(self.mrt_records@)
    }

    open spec fn well_formed(&self) -> bool {
        true
    }

    open spec fn step(m: Seq<MrtRecordView>, elem: BgpElemView) -> Result<
        Seq<MrtRecordView>,
        ComposeError,
    > {
        match update_record(elem) {
            Ok(record) => Ok(m.push(record)),
            Err(e) => Err(e),
        }
    }

    open spec fn records(m: Seq<MrtRecordView>) -> Seq<MrtRecordView> {
        m
    }

    fn add_elem(&mut self, elem: &BgpElem) -> (r: Result<(), ComposeError>) {
        let attributes = match elem_to_attributes(elem) {
            Err(e) => {
                return Err(e);
            },
            Ok(attributes) => attributes,
        };
        let header = CommonHeader {
            timestamp: elem.timestamp,
            microsecond_timestamp: Some(elem.microseconds),
            entry_type: EntryType::BGP4MP_ET,
            entry_subtype: Bgp4MpType::Bgp4MpMessageAs4.to_u16(),
            length: 0,
        };
        let mut announced: Vec<NetworkPrefix> = Vec::new();
        let mut withdrawn: Vec<NetworkPrefix> = Vec::new();
        match elem.elem_type {
            ElemType::ANNOUNCE => {
                announced.push(elem.prefix);
            },
            ElemType::WITHDRAW => {
                withdrawn.push(elem.prefix);
            },
        }
        assert(announced@ =~= prefixes_of(elem@, ElemType::ANNOUNCE));
        assert(withdrawn@ =~= prefixes_of(elem@, ElemType::WITHDRAW));
        let update = BgpUpdateMessage {
            withdrawn_prefixes: withdrawn,
            attributes,
            announced_prefixes: announced,
        };
        let afi = if elem.prefix.prefix.is_ipv4() {
            Afi::Ipv4
        } else {
            Afi::Ipv6
        };
        let record = MrtRecord {
            common_header: header,
            message: MrtMessage::Bgp4Mp(
                Bgp4Mp::Bgp4MpMessageAs4(
                    Bgp4MpMessage {
                        msg_type: Bgp4MpType::Bgp4MpMessageAs4,
                        peer_asn: elem.peer_asn,
                        local_asn: Asn { asn: 0, len: elem.peer_asn.len },
                        interface_index: 0,
                        afi,
                        peer_ip: elem.peer_ip,
                        local_ip: elem.peer_ip.unspecified(),
                        bgp_message: BgpMessage::Update(update),
                    },
                ),
            ),
        };
        assert(record@ == update_record(elem@)->Ok_0);
        self.mrt_records.push(record);
        assert(self.model() =~= old(self).model().push(record@));
        Ok(())
    }

    fn export_bytes(&mut self) -> (r: Result<Vec<u8>, ComposeError>) {
        match encode_records(&self.mrt_records) {
            Ok(bytes) => Ok(bytes),
            Err(e) => Err(ComposeError::DumpError(e)),
        }
    }
}

/// A record on the wire.
fn encode_record(record: &MrtRecord) -> (r: Result<Vec<u8>, DumpError>)
    ensures
        crate::mrt_dump::encoding::bytes_of(r) == record_bytes(record@),
{
    record.to_bytes(0)
}

/// The records of a list on the wire, one after another.
pub fn encode_records(records: &Vec<MrtRecord>) -> (r: Result<Vec<u8>, DumpError>)
    ensures
        crate::mrt_dump::encoding::bytes_of(r) == join(record_parts(record_views(records@))),
{
    let ghost parts = record_parts(record_views(records@));
    let mut buf: Vec<u8> = Vec::new();
    let mut i: usize = 0;
    assert(parts.take(0) =~= Seq::<Encoded>::empty());
    while i < records.len()
        invariant
            i <= records@.len(),
            parts == record_parts(record_views(records@)),
            parts.len() == records@.len(),
            Ok::<Seq<u8>, DumpError>(buf@) == join(parts.take(i as int)),
        decreases records@.len() - i,
    {
        proof {
            lemma_join_step(parts, i as int);
            assert(parts[i as int] == record_bytes(records@[i as int]@));
        }
        match encode_record(&records[i]) {
            Err(e) => {
                proof {
                    lemma_join_err(parts, i + 1);
                }
                return Err(e);
            },
            Ok(bytes) => {
                put_bytes(&mut buf, bytes.as_slice());
            },
        }
        i = i + 1;
    }
    proof {
        lemma_join_all(parts);
    }
    Ok(buf)
}

} // verus!
