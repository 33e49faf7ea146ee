//! Verified core of a CRUD-to-HTTP binding generator.
//!
//! Given an entity description and a compact configuration string, the
//! generator produces a structured description of a complete CRUD API:
//! the parsed configuration, the verb/path/handler routing table, and the
//! list of type names whose resolution must be checked before any handler
//! is trusted. The handler policies themselves (read dispatch tiers,
//! delete guarding, response envelopes) are pure decision functions over
//! plain values, so an unverified shell can run the transport and the
//! backend calls while every decision is made here.

use vstd::prelude::*;

pub mod config;
pub mod generator;
pub mod handlers;
pub mod pagination;
pub mod quadlet;
pub mod quadlets;
pub mod strutil;
pub mod users;

verus! {

/// Shared application context handed read-only to every handler.
pub struct AppState {
    pub secret: String,
    pub static_dir: String,
}

} // verus!
