//! Leaf helpers: hashing and attestation report construction.

pub mod attest;
pub mod commitment_openai;
pub mod crypto;
pub mod hasher;
pub mod hexcodec;
mod secret;
