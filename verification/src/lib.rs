//! Session management for a multiplexed GraphQL subscription front end.
//!
//! A query handed to the execution engine either resolves at once (a single
//! result, no further events) or stays open as a subscription that emits
//! payloads over time.  This crate holds the verified core that sits between
//! one engine and many concurrent client subscriptions: a registry that
//! allocates stable integer keys and owns every live session, the decision
//! logic that classifies a fresh subscription as immediate or streaming, the
//! per-event dispatcher step that tags payloads with their key, and the
//! idempotent teardown paths.  Channel plumbing, threads and the engine
//! itself stay outside; they hand plain values in and take plain values back.

pub mod commands;
pub mod envelope;
pub mod registry;
