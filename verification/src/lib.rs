//! A singleton "virtual pet" record, its authorization-gated mutation
//! protocol, the deterministic species derivation used at creation, and the
//! semantic-version guard that governs schema migrations.

pub mod contract;
pub mod error;
pub mod msg;
pub mod pet;
pub mod state;
pub mod version;
