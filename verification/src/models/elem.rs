use vstd::prelude::*;
use crate::models::attributes::{AsPath, AsPathSegmentView, AtomicAggregate, Origin};
use crate::models::community::MetaCommunity;
use crate::models::network::{Asn, IpAddress, NetworkPrefix};

verus! {

/// Whether a route element announces its prefix or withdraws it.
#[allow(non_camel_case_types)]
#[derive(Debug, Clone, Copy, PartialEq, Eq, Structural)]
pub enum ElemType {
    ANNOUNCE,
    WITHDRAW,
}

/// A flat route element: one prefix as one peer announced or withdrew it,
/// with the attributes of the route. The time is held as whole seconds
/// and the microseconds of the second that had begun.
#[derive(Debug, Clone, PartialEq, Eq)]
pub struct BgpElem {
    pub timestamp: u32,
    pub microseconds: u32,
    pub elem_type: ElemType,
    pub peer_ip: IpAddress,
    pub peer_asn: Asn,
    pub prefix: NetworkPrefix,
    pub next_hop: Option<IpAddress>,
    pub as_path: Option<AsPath>,
    pub origin_asns: Option<Vec<Asn>>,
    pub origin: Option<Origin>,
    pub local_pref: Option<u32>,
    pub med: Option<u32>,
    pub communities: Option<Vec<MetaCommunity>>,
    pub atomic: Option<AtomicAggregate>,
    pub aggr_asn: Option<Asn>,
    pub aggr_ip: Option<IpAddress>,
}

/// A route element as a value of mathematics.
pub struct BgpElemView {
    pub timestamp: u32,
    pub microseconds: u32,
    pub elem_type: ElemType,
    pub peer_ip: IpAddress,
    pub peer_asn: Asn,
    pub prefix: NetworkPrefix,
    pub next_hop: Option<IpAddress>,
    pub as_path: Option<Seq<AsPathSegmentView>>,
    pub origin_asns: Option<Seq<Asn>>,
    pub origin: Option<Origin>,
    pub local_pref: Option<u32>,
    pub med: Option<u32>,
    pub communities: Option<Seq<MetaCommunity>>,
    pub atomic: Option<AtomicAggregate>,
    pub aggr_asn: Option<Asn>,
    pub aggr_ip: Option<IpAddress>,
}

impl View for BgpElem {
    type V = BgpElemView;

    open spec fn view(&self) -> BgpElemView {
        BgpElemView {
            timestamp: self.timestamp,
            microseconds: self.microseconds,
            elem_type: self.elem_type,
            peer_ip: self.peer_ip,
            peer_asn: self.peer_asn,
            prefix: self.prefix,
            next_hop: self.next_hop,
            as_path: match self.as_path {
                Some(p) => Some(p@),
                None => None,
            },
            origin_asns: match self.origin_asns {
                Some(v) => Some(v@),
                None => None,
            },
            origin: self.origin,
            local_pref: self.local_pref,
            med: self.med,
            communities: match self.communities {
                Some(v) => Some(v@),
                None => None,
            },
            atomic: self.atomic,
            aggr_asn: self.aggr_asn,
            aggr_ip: self.aggr_ip,
        }
    }
}

/// The views of a list of elements, in order.
pub open spec fn elem_views(elems: Seq<BgpElem>) -> Seq<BgpElemView> {
    elems.map_values(|e: BgpElem| e@)
}

} // verus!
