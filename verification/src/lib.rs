//! Core logic of a small monitoring daemon that keeps a name-advertising
//! service honest: it compares the hostname the service currently advertises
//! against the machine's configured hostname and decides, cycle by cycle,
//! whether the service's unit must be restarted.
//!
//! This crate holds the decision logic only: hostname trimming and
//! comparison, startup resolution of the reference hostname, and the
//! per-cycle reconciliation policy. The surrounding process (CLI parsing,
//! bus calls, logging, sleeping) hands in plain values and acts on the
//! decisions returned.

pub mod config;
pub mod monitor;
pub mod trim;
