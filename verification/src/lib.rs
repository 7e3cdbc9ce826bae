//! A minimal parametric-insurance settlement engine.
//!
//! Account holders purchase flood-insurance policies by depositing a premium
//! and declaring a desired payout; a designated owner reports the current
//! flood level; a policy becomes eligible for payout once the reported level
//! reaches a threshold fixed at construction; eligible, still-active policies
//! are settled (the payout transfer is requested from the host) and then
//! deactivated, exactly once.
//!
//! The engine is host-agnostic: the host supplies the caller's identity and
//! the value attached to a call as plain arguments, and performs the value
//! transfers that [`engine::Insuracle::trigger_payout`] requests.

pub mod engine;
pub mod laws;
