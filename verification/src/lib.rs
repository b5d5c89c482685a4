//! Verified core of a DNS-01 domain-validation updater.
//!
//! Given a domain identifier, the library builds the canonical challenge
//! record name, follows one level of CNAME indirection to the record that
//! must hold the proof token, discovers the zone that owns that record from
//! an SOA answer, selects the zone's credential, and interprets the response
//! codes of the signed create-or-delete transaction. Transient failures are
//! retried under a bounded exponential backoff policy.
//!
//! All network exchanges are performed by the surrounding program: the
//! library receives responses as plain values and decides, step by step,
//! what to send next and what the outcome is.

pub mod config;
pub mod dns;
pub mod failure;
pub mod name;
pub mod pipeline;
pub mod resolve;
pub mod retry;
pub mod update;
pub mod zone;
