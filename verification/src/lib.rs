//! Policy hypervisor core: the trusted pipeline that gates an agent's tool
//! calls against declared policies and binds each decision to an
//! attestation report.

pub mod agent;
pub mod api;
pub mod attest;
pub mod error;
pub mod json;
pub mod sorting;
pub mod text;
pub mod types;
pub mod utils;
