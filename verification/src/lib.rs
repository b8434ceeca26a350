//! Core rules of a local gateway that fronts a pool of backend accounts:
//! account selection, model-name mapping, request gating, the per-request
//! retry state machine, and a bounded event log.

pub mod account;
pub mod config;
pub mod envelope;
pub mod error;
pub mod index;
pub mod listing;
pub mod mapping;
pub mod monitor;
pub mod refresh;
pub mod request;
pub mod router;
pub mod security;
pub mod sequences;
pub mod server;
pub mod table;
pub mod text;
pub mod token_manager;
pub mod zai;
