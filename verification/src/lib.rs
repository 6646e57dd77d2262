//! A launcher library for `llama-server`: configuration model, argument
//! building, model-list syncing, and the key-driven state machine of the
//! terminal UI, each with a verified contract.

pub mod text;
pub mod paths;
pub mod model;
pub mod server_manager;
pub mod monitor;
pub mod views;
pub mod app;
pub mod config;
pub mod fields;
pub mod field_edit;
pub mod keys;
