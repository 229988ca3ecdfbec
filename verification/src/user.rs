//! The user module: the local user model, the store port, an in-memory
//! store, and the user application service.

pub mod error;
pub mod models;
pub mod ports;
pub mod store;
pub mod app_service;
