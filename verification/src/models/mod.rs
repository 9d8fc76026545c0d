//! The routing data that the encoders write: addresses and prefixes, BGP
//! messages and their path attributes, MRT records, and the flat route
//! elements that the composers take.

pub mod network;
pub mod community;
pub mod attributes;
pub mod bgp;
pub mod mrt;
pub mod elem;
