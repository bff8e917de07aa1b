//! Keeps a cloud security group's ingress rules in step with the host's
//! current public IPv4 address: every run wipes the IPv4-scoped ingress
//! rules it can see and recreates one rule per configured port, scoped to
//! the freshly resolved address as a host-only CIDR.
//!
//! This crate holds the decision core: configuration validation, CIDR
//! rendering, the wipe/recreate plan, and the classification of each
//! per-rule outcome. The surrounding process performs the network calls
//! and feeds their results back into the reconciler.

pub mod config;
pub mod ip;
pub mod reconcile;
pub mod rules;
pub mod text;
