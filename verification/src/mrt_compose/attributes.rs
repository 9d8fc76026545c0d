use vstd::prelude::*;
use crate::models::attributes::{
    attribute_views, segment_views, AsPath, AsPathSegment, AtomicAggregate, AttrType, Attribute,
    AttributeValue, AttributeValueView, AttributeView, TRANSITIVE_FLAG,
};
use crate::models::community::{Community, ExtendedCommunity, LargeCommunity, MetaCommunity};
use crate::models::elem::{BgpElem, BgpElemView};
use crate::models::network::Asn;
use crate::mrt_compose::error::ComposeError;
use crate::mrt_dump::error::DumpError;

verus! {

/// A transitive attribute of the given type and value.
pub open spec fn transitive(attr_type: AttrType, value: AttributeValueView) -> AttributeView {
    AttributeView { attr_type, value, flag: TRANSITIVE_FLAG }
}

/// The communities of four octets among `cs`, in order.
pub open spec fn regular_communities(cs: Seq<MetaCommunity>) -> Seq<Community>
    decreases cs.len(),
{
    if cs.len() == 0 {
        Seq::empty()
    } else {
        match cs.last() {
            MetaCommunity::Community(c) => regular_communities(cs.drop_last()).push(c),
            _ => regular_communities(cs.drop_last()),
        }
    }
}

/// The extended communities among `cs`, in order.
pub open spec fn extended_communities(cs: Seq<MetaCommunity>) -> Seq<ExtendedCommunity>
    decreases cs.len(),
{
    if cs.len() == 0 {
        Seq::empty()
    } else {
        match cs.last() {
            MetaCommunity::ExtendedCommunity(c) => extended_communities(cs.drop_last()).push(c),
            _ => extended_communities(cs.drop_last()),
        }
    }
}

/// The large communities among `cs`, in order.
pub open spec fn large_communities(cs: Seq<MetaCommunity>) -> Seq<LargeCommunity>
    decreases cs.len(),
{
    if cs.len() == 0 {
        Seq::empty()
    } else {
        match cs.last() {
            MetaCommunity::LargeCommunity(c) => large_communities(cs.drop_last()).push(c),
            _ => large_communities(cs.drop_last()),
        }
    }
}

/// The attribute with the next hop of an element, if it has one.
pub open spec fn next_hop_attributes(e: BgpElemView) -> Seq<AttributeView> {
    match e.next_hop {
        Some(ip) => seq![transitive(AttrType::NEXT_HOP, AttributeValueView::NextHop(ip))],
        None => Seq::empty(),
    }
}

/// The attributes with the communities of an element: one for each of the
/// three kinds that it has any of, in the order regular, extended, large.
pub open spec fn community_attributes(e: BgpElemView) -> Seq<AttributeView> {
    match e.communities {
        Some(cs) => (if regular_communities(cs).len() > 0 {
            seq![
                transitive(
                    AttrType::COMMUNITIES,
                    AttributeValueView::Communities(regular_communities(cs)),
                ),
            ]
        } else {
            Seq::empty()
        }) + (if extended_communities(cs).len() > 0 {
            seq![
                transitive(
                    AttrType::EXTENDED_COMMUNITIES,
                    AttributeValueView::ExtendedCommunities(extended_communities(cs)),
                ),
            ]
        } else {
            Seq::empty()
        }) + (if large_communities(cs).len() > 0 {
            seq![
                transitive(
                    AttrType::LARGE_COMMUNITIES,
                    AttributeValueView::LargeCommunities(large_communities(cs)),
                ),
            ]
        } else {
            Seq::empty()
        }),
        None => Seq::empty(),
    }
}

/// The attribute with the aggregator of an element, if it names one by AS
/// number and address.
pub open spec fn aggregator_attributes(e: BgpElemView) -> Seq<AttributeView> {
    match (e.aggr_asn, e.aggr_ip) {
        (Some(asn), Some(ip)) => seq![
            transitive(AttrType::AGGREGATOR, AttributeValueView::Aggregator(asn, ip)),
        ],
        _ => Seq::empty(),
    }
}

/// The attribute with the path of an element, if it has one.
pub open spec fn path_attributes(e: BgpElemView) -> Seq<AttributeView> {
    match e.as_path {
        Some(path) => seq![transitive(AttrType::AS4_PATH, AttributeValueView::As4Path(path))],
        None => Seq::empty(),
    }
}

/// The attribute that marks an atomic aggregate, if the element is one. An
/// element that is none gets no such attribute.
pub open spec fn atomic_attributes(e: BgpElemView) -> Seq<AttributeView> {
    if e.atomic == Some(AtomicAggregate::AG) {
        seq![
            transitive(
                AttrType::ATOMIC_AGGREGATE,
                AttributeValueView::AtomicAggregate(AtomicAggregate::AG),
            ),
        ]
    } else {
        Seq::empty()
    }
}

/// The attribute with the multi-exit discriminator of an element, if it has
/// one.
pub open spec fn med_attributes(e: BgpElemView) -> Seq<AttributeView> {
    match e.med {
        Some(med) => seq![
            transitive(
                AttrType::MULTI_EXIT_DISCRIMINATOR,
                AttributeValueView::MultiExitDiscriminator(med),
            ),
        ],
        None => Seq::empty(),
    }
}

/// The attribute with the origin of an element, if it has one.
pub open spec fn origin_attributes(e: BgpElemView) -> Seq<AttributeView> {
    match e.origin {
        Some(origin) => seq![transitive(AttrType::ORIGIN, AttributeValueView::Origin(origin))],
        None => Seq::empty(),
    }
}

/// The attributes that stand for an element, in the order in which they are
/// written: next hop, communities, aggregator, path, atomic aggregate,
/// multi-exit discriminator, origin. All are transitive. An element that
/// names an aggregator's AS number without its address is malformed.
pub open spec fn elem_attributes(e: BgpElemView) -> Result<Seq<AttributeView>, ComposeError> {
    if e.aggr_asn is Some && e.aggr_ip is None {
        Err(ComposeError::DumpError(DumpError::MalformedInput))
    } else {
        Ok(
            next_hop_attributes(e) + community_attributes(e) + aggregator_attributes(e)
                + path_attributes(e) + atomic_attributes(e) + med_attributes(e)
                + origin_attributes(e),
        )
    }
}

/// Whether no attribute of a list is of the type that marks an atomic
/// aggregate.
pub open spec fn unmarked(attrs: Seq<AttributeView>) -> bool {
    forall|i: int|
        0 <= i < attrs.len() ==> (#[trigger] attrs[i]).attr_type != AttrType::ATOMIC_AGGREGATE
}

/// Two lists without the mark make one without it.
proof fn lemma_unmarked_concat(a: Seq<AttributeView>, b: Seq<AttributeView>)
    requires
        unmarked(a),
        unmarked(b),
    ensures
        unmarked(a + b),
{
    assert forall|i: int| 0 <= i < (a + b).len() implies (#[trigger] (a + b)[i]).attr_type
        != AttrType::ATOMIC_AGGREGATE by {
        if i < a.len() {
            assert((a + b)[i] == a[i]);
        } else {
            assert((a + b)[i] == b[i - a.len()]);
        }
    }
}

/// An element that is no atomic aggregate gets no attribute of the type
/// that marks one.
pub proof fn lemma_no_atomic_aggregate(e: BgpElemView)
    requires
        e.atomic != Some(AtomicAggregate::AG),
    ensures
        elem_attributes(e) matches Ok(attrs) ==> unmarked(attrs),
{
    let a = next_hop_attributes(e);
    let b = community_attributes(e);
    let c = aggregator_attributes(e);
    let d = path_attributes(e);
    let f = atomic_attributes(e);
    let g = med_attributes(e);
    let h = origin_attributes(e);
    assert(unmarked(b)) by {
        if let Some(cs) = e.communities {
            let x: Seq<AttributeView> = if regular_communities(cs).len() > 0 {
                seq![
                    transitive(
                        AttrType::COMMUNITIES,
                        AttributeValueView::Communities(regular_communities(cs)),
                    ),
                ]
            } else {
                Seq::empty()
            };
            let y: Seq<AttributeView> = if extended_communities(cs).len() > 0 {
                seq![
                    transitive(
                        AttrType::EXTENDED_COMMUNITIES,
                        AttributeValueView::ExtendedCommunities(extended_communities(cs)),
                    ),
                ]
            } else {
                Seq::empty()
            };
            let z: Seq<AttributeView> = if large_communities(cs).len() > 0 {
                seq![
                    transitive(
                        AttrType::LARGE_COMMUNITIES,
                        AttributeValueView::LargeCommunities(large_communities(cs)),
                    ),
                ]
            } else {
                Seq::empty()
            };
            lemma_unmarked_concat(x, y);
            lemma_unmarked_concat(x + y, z);
        }
    }
    lemma_unmarked_concat(a, b);
    lemma_unmarked_concat(a + b, c);
    lemma_unmarked_concat(a + b + c, d);
    lemma_unmarked_concat(a + b + c + d, f);
    lemma_unmarked_concat(a + b + c + d + f, g);
    lemma_unmarked_concat(a + b + c + d + f + g, h);
}

/// A copy of a list of AS numbers.
fn clone_asns(asns: &Vec<Asn>) -> (r: Vec<Asn>)
    ensures
        r@ == asns@,
{
    let mut r: Vec<Asn> = Vec::new();
    let mut i: usize = 0;
    while i < asns.len()
        invariant
            i <= asns@.len(),
            r@ == asns@.take(i as int),
        decreases asns@.len() - i,
    {
        r.push(asns[i]);
        i = i + 1;
        assert(r@ =~= asns@.take(i as int));
    }
    assert(asns@.take(i as int) =~= asns@);
    r
}

/// A copy of a path segment.
fn clone_segment(seg: &AsPathSegment) -> (r: AsPathSegment)
    ensures
        r@ == seg@,
{
    match seg {
        AsPathSegment::AsSequence(v) => AsPathSegment::AsSequence(clone_asns(v)),
        AsPathSegment::AsSet(v) => AsPathSegment::AsSet(clone_asns(v)),
        AsPathSegment::ConfedSequence(v) => AsPathSegment::ConfedSequence(clone_asns(v)),
        AsPathSegment::ConfedSet(v) => AsPathSegment::ConfedSet(clone_asns(v)),
    }
}

/// A copy of a path.
pub fn clone_path(path: &AsPath) -> (r: AsPath)
    ensures
        r@ == path@,
{
    let mut segments: Vec<AsPathSegment> = Vec::new();
    let mut i: usize = 0;
    while i < path.segments.len()
        invariant
            i <= path.segments@.len(),
            segments@.len() == i,
            path@.len() == path.segments@.len(),
            segment_views(segments@) == path@.take(i as int),
        decreases path.segments@.len() - i,
    {
        let ghost before = segments@;
        let segment = clone_segment(&path.segments[i]);
        segments.push(segment);
        i = i + 1;
        proof {
            let now = segment_views(segments@);
            let want = path@.take(i as int);
            assert forall|j: int| 0 <= j < now.len() implies now[j] == want[j] by {
                if j < i - 1 {
                    assert(segments@[j] == before[j]);
                    assert(segment_views(before)[j] == path@.take(i - 1)[j]);
                } else {
                    assert(segments@[j] == segment);
                    assert(path@[j] == path.segments@[j]@);
                }
            }
            assert(now =~= want);
        }
    }
    assert(path@.take(i as int) =~= path@);
    AsPath { segments }
}

/// The communities of an element, parted by kind.
fn split_communities(cs: &Vec<MetaCommunity>) -> (r: (
    Vec<Community>,
    Vec<ExtendedCommunity>,
    Vec<LargeCommunity>,
))
    ensures
        r.0@ == regular_communities(cs@),
        r.1@ == extended_communities(cs@),
        r.2@ == large_communities(cs@),
{
    let mut regular: Vec<Community> = Vec::new();
    let mut extended: Vec<ExtendedCommunity> = Vec::new();
    let mut large: Vec<LargeCommunity> = Vec::new();
    let mut i: usize = 0;
    while i < cs.len()
        invariant
            i <= cs@.len(),
            regular@ == regular_communities(cs@.take(i as int)),
            extended@ == extended_communities(cs@.take(i as int)),
            large@ == large_communities(cs@.take(i as int)),
        decreases cs@.len() - i,
    {
        assert(cs@.take(i + 1).drop_last() =~= cs@.take(i as int));
        match cs[i] {
            MetaCommunity::Community(c) => {
                regular.push(c);
            },
            MetaCommunity::ExtendedCommunity(c) => {
                extended.push(c);
            },
            MetaCommunity::LargeCommunity(c) => {
                large.push(c);
            },
        }
        i = i + 1;
    }
    assert(cs@.take(i as int) =~= cs@);
    (regular, extended, large)
}

/// Appends a transitive attribute to `attrs`.
fn push_transitive(attrs: &mut Vec<Attribute>, attr_type: AttrType, value: AttributeValue)
    ensures
        attribute_views(final(attrs)@) == attribute_views(old(attrs)@) + seq![
            transitive(attr_type, value@),
        ],
{
    attrs.push(Attribute { attr_type, value, flag: TRANSITIVE_FLAG });
    assert(attribute_views(attrs@) =~= attribute_views(old(attrs)@) + seq![
        transitive(attr_type, value@),
    ]);
}

/// Appends the attributes with the communities of an element to `attrs`.
fn push_communities(attrs: &mut Vec<Attribute>, elem: &BgpElem)
    ensures
        attribute_views(final(attrs)@) == attribute_views(old(attrs)@) + community_attributes(
            elem@,
        ),
{
    let ghost start = attribute_views(attrs@);
    if let Some(cs) = &elem.communities {
        let (regular, extended, large) = split_communities(cs);
        if regular.len() > 0 {
            push_transitive(attrs, AttrType::COMMUNITIES, AttributeValue::Communities(regular));
        }
        if extended.len() > 0 {
            push_transitive(
                attrs,
                AttrType::EXTENDED_COMMUNITIES,
                AttributeValue::ExtendedCommunities(extended),
            );
        }
        if large.len() > 0 {
            push_transitive(
                attrs,
                AttrType::LARGE_COMMUNITIES,
                AttributeValue::LargeCommunities(large),
            );
        }
        assert(attribute_views(attrs@) =~= start + community_attributes(elem@));
    } else {
        assert(attribute_views(attrs@) =~= start + community_attributes(elem@));
    }
}

/// The attributes that stand for an element.
pub fn elem_to_attributes(elem: &BgpElem) -> (r: Result<Vec<Attribute>, ComposeError>)
    ensures
        match elem_attributes(elem@) {
            Ok(attrs) => r matches Ok(v) && attribute_views(v@) == attrs,
            Err(e) => r == Err::<Vec<Attribute>, ComposeError>(e),
        },
{
    if elem.aggr_asn.is_some() && elem.aggr_ip.is_none() {
        return Err(ComposeError::DumpError(DumpError::MalformedInput));
    }
    let mut attrs: Vec<Attribute> = Vec::new();
    assert(attribute_views(attrs@) =~= Seq::<AttributeView>::empty());
    if let Some(next_hop) = &elem.next_hop {
        push_transitive(&mut attrs, AttrType::NEXT_HOP, AttributeValue::NextHop(*next_hop));
    }
    let ghost a = attribute_views(attrs@);
    assert(a =~= next_hop_attributes(elem@));
    push_communities(&mut attrs, elem);
    let ghost b = attribute_views(attrs@);
    if let Some(asn) = &elem.aggr_asn {
        if let Some(ip) = &elem.aggr_ip {
            push_transitive(
                &mut attrs,
                AttrType::AGGREGATOR,
                AttributeValue::Aggregator(*asn, *ip),
            );
        }
    }
    let ghost c = attribute_views(attrs@);
    assert(c =~= b + aggregator_attributes(elem@));
    if let Some(path) = &elem.as_path {
        push_transitive(&mut attrs, AttrType::AS4_PATH, AttributeValue::As4Path(clone_path(path)));
    }
    let ghost d = attribute_views(attrs@);
    assert(d =~= c + path_attributes(elem@));
    if let Some(AtomicAggregate::AG) = &elem.atomic {
        push_transitive(
            &mut attrs,
            AttrType::ATOMIC_AGGREGATE,
            AttributeValue::AtomicAggregate(AtomicAggregate::AG),
        );
    }
    let ghost f = attribute_views(attrs@);
    assert(f =~= d + atomic_attributes(elem@));
    if let Some(med) = &elem.med {
        push_transitive(
            &mut attrs,
            AttrType::MULTI_EXIT_DISCRIMINATOR,
            AttributeValue::MultiExitDiscriminator(*med),
        );
    }
    let ghost g = attribute_views(attrs@);
    assert(g =~= f + med_attributes(elem@));
    if let Some(origin) = &elem.origin {
        push_transitive(&mut attrs, AttrType::ORIGIN, AttributeValue::Origin(*origin));
    }
    assert(attribute_views(attrs@) =~= g + origin_attributes(elem@));
    Ok(attrs)
}

} // verus!
