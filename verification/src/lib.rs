//! Writer for the MRT container format: encodes BGP routing data, held in
//! memory, into the bytes of MRT records.

use vstd::prelude::*;

pub mod models;
pub mod mrt_dump;
pub mod mrt_compose;

pub use crate::mrt_compose::attributes::elem_to_attributes;
pub use crate::mrt_compose::error::ComposeError;
pub use crate::mrt_compose::rib_composer::TableDumpComposer;
pub use crate::mrt_compose::updates_composer::BgpUpdatesComposer;
pub use crate::mrt_compose::MrtCompose;
pub use crate::mrt_dump::attributes::MrtAttrDump;
pub use crate::mrt_dump::error::DumpError;
pub use crate::mrt_dump::utils::{ipv4_to_u32, WriteUtils};

use crate::mrt_dump::encoding::{bytes_of, Encoded};

verus! {

/// Encoding of a value into the bytes that stand for it in an MRT record.
pub trait MrtDump {
    /// The bytes that `to_bytes` owes, or the error.
    spec fn encoding(&self, subtype: u16) -> Encoded;

    /// The value on the wire. `subtype` is the subtype of the record that
    /// the value is written into, for the values whose form depends on it.
    fn to_bytes(&self, subtype: u16) -> (r: Result<Vec<u8>, DumpError>)
        ensures
            bytes_of(r) == self.encoding(subtype),
    ;
}

} // verus!
