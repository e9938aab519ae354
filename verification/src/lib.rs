//! Reference FIFO scheduler for the infernal-law kernel's eligible-route and
//! claim contract: it asks which routes the kernel currently reports as
//! eligible for this service's own identity, and proposes a claim for the
//! oldest one. It owns no authoritative state -- every signal it acts on
//! comes from an authenticated kernel read, and the kernel alone decides
//! whether a proposed claim succeeds.
//!
//! Everything the service decides is here, as functions from plain values to
//! plain values with proved contracts. Of the machine, the library reads the
//! wall clock and draws request identifiers; reading files and variables,
//! signing and sending are left to the program around it.

pub mod challenge;
pub mod claims;
pub mod clock;
pub mod config;
pub mod error;
pub mod identity;
pub mod instance_lease;
pub mod kernel_client;
pub mod numbers;
pub mod routes;
pub mod run;
pub mod scheduler;
pub mod text;

pub use crate::challenge::decode_challenge;
pub use crate::clock::unix_time;
pub use crate::config::Config;
pub use crate::instance_lease::InstanceLease;
pub use crate::run::next_action;
