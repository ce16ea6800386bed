//! Attestation binding: raw reports, quotes and provider selection.

pub mod errors;
pub mod provider;
pub mod types;
