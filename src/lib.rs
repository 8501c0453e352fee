//! Keeps a durable blacklist of IPv4 host addresses and a live firewall set
//! in agreement: startup reconciliation, the ordering of every mutation
//! (durable record first, then the firewall set), authorization of requests,
//! and the commands handed to the two collaborators.
use vstd::prelude::*;

pub mod auth;
pub mod config;
pub mod database;
pub mod engine;
pub mod laws;
pub mod nftables;
pub mod reconcile;

verus! {

/// An IPv4 host address as its 32-bit value, most significant octet first.
pub type Addr = u32;

} // verus!
