//! Verified state machines and arithmetic of the PropChain real-estate contracts.
//!
//! Each contract is a plain struct whose storage is held in verified tables;
//! what the chain environment supplies (the caller, the block, the attached
//! value) is handed to each operation as an argument, and native payments the
//! contract makes are recorded in an outbox for the host to carry out.
use vstd::prelude::*;

pub mod bridge;
pub mod common;
pub mod compliance;
pub mod crowdfunding;
pub mod dex;
pub mod escrow;
pub mod event_bus;
pub mod factory;
pub mod fractional;
pub mod governance;
pub mod loan_stats;
pub mod math;
pub mod path_cache;
pub mod text;
pub mod voting_power;

verus! {

} // verus!
