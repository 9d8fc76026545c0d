//! Composers: from flat route elements to the records of an MRT file.

use vstd::prelude::*;

pub mod error;
pub mod attributes;
pub mod updates_composer;
pub mod rib_composer;

use crate::models::elem::{elem_views, BgpElem, BgpElemView};
use crate::models::mrt::MrtRecordView;
use crate::mrt_compose::error::ComposeError;
use crate::mrt_dump::encoding::{join, Encoded};
use crate::mrt_dump::mrt::record_bytes;

verus! {

/// The encodings of the records of a list, one by one.
pub open spec fn record_parts(records: Seq<MrtRecordView>) -> Seq<Encoded> {
    Seq::new(records.len(), |i: int| record_bytes(records[i]))
}

/// The bytes of a list of records written one after another, or the error
/// of the first record that cannot be written.
pub open spec fn stream_bytes(records: Seq<MrtRecordView>) -> Result<Seq<u8>, ComposeError> {
    match join(record_parts(records)) {
        Ok(bytes) => Ok(bytes),
        Err(e) => Err(ComposeError::DumpError(e)),
    }
}

/// No records make an empty stream.
pub proof fn lemma_empty_stream()
    ensures
        stream_bytes(Seq::empty()) == Ok::<Seq<u8>, ComposeError>(Seq::empty()),
{
    assert(record_parts(Seq::empty()) =~= Seq::<Encoded>::empty());
}

/// The result of an export with its bytes as a sequence.
pub open spec fn stream_of(r: Result<Vec<u8>, ComposeError>) -> Result<Seq<u8>, ComposeError> {
    match r {
        Ok(v) => Ok(v@),
        Err(e) => Err(e),
    }
}

/// A composer takes route elements one by one and writes the records that
/// stand for all of them.
pub trait MrtCompose: Sized {
    /// What a composer holds, as a value of mathematics.
    type Model;

    /// What this composer holds.
    spec fn model(&self) -> Self::Model;

    /// Whether the composer is in a state that `new` makes and that every
    /// operation keeps.
    spec fn well_formed(&self) -> bool;

    /// What a composer holds after one more element, or why the element is
    /// refused.
    spec fn step(m: Self::Model, elem: BgpElemView) -> Result<Self::Model, ComposeError>;

    /// The records that a composer writes for what it holds, in order.
    spec fn records(m: Self::Model) -> Seq<MrtRecordView>;

    /// Takes one element, or refuses it and stays as it was.
    fn add_elem(&mut self, elem: &BgpElem) -> (r: Result<(), ComposeError>)
        requires
            old(self).well_formed(),
        ensures
            final(self).well_formed(),
            match Self::step(old(self).model(), elem@) {
                Ok(m) => r is Ok && final(self).model() == m,
                Err(e) => r == Err::<(), ComposeError>(e) && final(self).model() == old(
                    self,
                ).model(),
            },
    ;

    /// The records of all that was taken, written one after another. The
    /// composer stays as it was.
    fn export_bytes(&mut self) -> (r: Result<Vec<u8>, ComposeError>)
        requires
            old(self).well_formed(),
        ensures
            final(self).well_formed(),
            final(self).model() == old(self).model(),
            stream_of(r) == stream_bytes(Self::records(old(self).model())),
    ;
}

/// What a composer holds after the elements of a list, taken in order up to
/// the first that is refused, and whether one was refused.
pub open spec fn run<C: MrtCompose>(m: C::Model, elems: Seq<BgpElemView>) -> (
    C::Model,
    Result<(), ComposeError>,
)
    decreases elems.len(),
{
    if elems.len() == 0 {
        (m, Ok(()))
    } else {
        match C::step(m, elems[0]) {
            Err(e) => (m, Err(e)),
            Ok(next) => run::<C>(next, elems.skip(1)),
        }
    }
}

/// Hands the elements of a list to a composer, in order, up to the first
/// that it refuses.
pub fn add_all<C: MrtCompose>(composer: &mut C, elems: &Vec<BgpElem>) -> (r: Result<
    (),
    ComposeError,
>)
    requires
        old(composer).well_formed(),
    ensures
        final(composer).well_formed(),
        final(composer).model() == run::<C>(old(composer).model(), elem_views(elems@)).0,
        r == run::<C>(old(composer).model(), elem_views(elems@)).1,
{
    let ghost all = elem_views(elems@);
    let mut i: usize = 0;
    assert(all.skip(0) =~= all);
    while i < elems.len()
        invariant
            i <= elems@.len(),
            all == elem_views(elems@),
            all.len() == elems@.len(),
            composer.well_formed(),
            run::<C>(old(composer).model(), all) == run::<C>(composer.model(), all.skip(i as int)),
        decreases elems@.len() - i,
    {
        proof {
            assert(all.skip(i as int)[0] == elems@[i as int]@);
            assert(all.skip(i as int).skip(1) =~= all.skip(i + 1));
        }
        match composer.add_elem(&elems[i]) {
            Err(e) => {
                return Err(e);
            },
            Ok(_) => {},
        }
        i = i + 1;
    }
    Ok(())
}

} // verus!
