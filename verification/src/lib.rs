//! A verified core for a small HTTP counter service.
//!
//! One signed 32-bit counter is shared by every connection; clients read it,
//! add a delta to it, or reset it to zero. This crate holds the counter store
//! and the request router, with contracts that pin down the response and the
//! counter value after every request. The network edge (listening, HTTP
//! framing) lives outside the library and hands the router plain values.

pub mod counter;
pub mod json;
pub mod laws;
pub mod router;
