//! The agent side of the pipeline: policy model, compliance engine, tool
//! registry and the plan / gate / execute / answer steps.

pub mod canonical;
pub mod chat;
pub mod compliance;
pub mod crypto_agent;
pub mod llm_checks;
pub mod pipeline;
pub mod policy_registry;
pub mod quote_utils;
pub mod tools;
pub mod types;
