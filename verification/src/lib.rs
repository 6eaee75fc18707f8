//! Triage of fork repositories on a hosted code forge.
//!
//! The library decides, for each fork of an account, whether it is
//! "useless" (no branch carries commits diverging from its upstream
//! parent) or worth keeping, and prepares the batch-deletion selection.
//! All remote traffic, terminal interaction and timing live outside the
//! library: callers fetch pages, issue branch comparisons and poll the
//! authorization endpoint, and feed the plain results into the state
//! machines defined here, which hold every decision rule.

pub mod classifier;
pub mod coordinator;
pub mod gate;
pub mod model;
pub mod pagination;
pub mod poller;
