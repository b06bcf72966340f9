//! Threshold governance of a shared on-chain identity.
//!
//! A committee of weighted controllers decides together on changes to one
//! identity object: an update of its document, its deactivation, or its
//! deletion.  A change is requested as a proposal, gathers votes until the
//! committee's threshold is reached, and is then executed.  The library decides
//! what each step may do, describes the transaction that carries it out, and
//! brings the local mirror of the identity in line with what the ledger reports.

pub mod action;
pub mod applier;
pub mod committee;
pub mod error;
pub mod identity;
pub mod laws;
pub mod ledger;
pub mod object_id;
pub mod proposal;
pub mod transaction;
pub mod update_did;
