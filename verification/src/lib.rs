//! Core of an on-chain rewards manager: a single administrator-controlled
//! record holding the fraction of collected rewards to auto-convert, with
//! owner-gated maintenance actions and a read-only query.
//!
//! The host runtime (storage, message dispatch, serialization) is modelled by
//! plain data types; the thin adapter that binds the core to a concrete host
//! lives outside this crate.

pub mod error;
pub mod msg;
pub mod response;
pub mod state;
pub mod contract;
pub mod trace;
