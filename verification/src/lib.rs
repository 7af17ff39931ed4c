//! Metered rate limiting for API keys whose usage counters can be handed off
//! to a low-latency delegated execution context and later reconciled back
//! into the durable base ledger.
//!
//! The crate models the durable records (protocol, service, policy, API key,
//! reputation) and the per-key delegated usage window, and verifies the
//! operations on them: policy validation, the delegation lifecycle, realtime
//! usage metering, checkpoint reconciliation, and the enforcement state
//! machine.

pub mod constants;
pub mod errors;
pub mod status;
pub mod policy;
pub mod protocol;
pub mod service;
pub mod delegation;
pub mod reputation;
pub mod api_key;
pub mod enforcement;
pub mod checkpoint;
