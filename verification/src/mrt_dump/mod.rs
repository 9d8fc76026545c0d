//! Encoders from routing data to MRT bytes.

pub mod error;
pub mod encoding;
pub mod utils;
pub mod attributes;
pub mod bgp;
pub mod table_dump;
pub mod mrt;
