//! The OAuth authentication flow: domain model, token codec, ports, an
//! in-memory store, the Google provider's pure pieces, and the orchestrator.

pub mod app_service;
pub mod error;
pub mod google_provider;
pub mod models;
pub mod ports;
pub mod static_provider;
pub mod store;
pub mod token;
