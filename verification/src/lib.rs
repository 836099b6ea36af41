//! Core of a turn-based game runtime built for deterministic replay.
//!
//! Every turn, a bound decision source (a provider) produces the acting
//! entity's action.  The kind of that source is part of canonical state, so
//! that a dispute can later re-execute the same kind of source against an
//! archived snapshot and compare the result with the action that was
//! committed.  The crate holds the provider kind taxonomy, the provider
//! registry, the event bus with its lag semantics, the turn executor and the
//! challenge verifier, each with a verified contract.

pub mod action;
pub mod bus;
pub mod challenge;
pub mod channel;
pub mod error;
pub mod executor;
pub mod input;
pub mod provider;
pub mod providers;
pub mod registry;
pub mod state;
pub mod text;
pub mod view;
