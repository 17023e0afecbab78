//! Core of a web-attack-surface scanner: link discovery and classification,
//! tolerance-based response deduplication, byte-exact raw HTTP request
//! serialization, a concurrency-bounded crawl state machine, and a
//! concurrency-bounded TCP port probe state machine.
//!
//! Network I/O itself lives outside this crate; the logic here decides what
//! to send and what to keep, and is verified.

pub mod dedup;
pub mod crawl;
pub mod links;
pub mod methods;
pub mod ports;
pub mod rawreq;
pub mod strutil;

use vstd::prelude::*;

verus! {

/// A scan target: a full URL, a bare domain name, or a raw IP address.
#[allow(non_camel_case_types)]
#[derive(Debug, Clone)]
pub enum CUSTOMER {
    URL(String),
    DOMAIN(String),
    IP(String),
}

} // verus!
