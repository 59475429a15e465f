//! Dynamic-DNS reconciliation: decide which address records are stale, what
//! each update request carries, and what the operator is told.
//!
//! The network work (resolving the public addresses, talking to the DNS
//! provider, posting to the webhook) is done by the caller; this crate holds
//! the decisions, stated and proved.

pub mod addr;
pub mod laws;
pub mod record;
pub mod reconcile;
