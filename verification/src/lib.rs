//! Verified core of the EG4 inverter bridge.
pub mod command;
pub mod config;
pub mod coordinator;
pub mod home_assistant;
pub mod mqtt;
pub mod register_cache;
pub mod register_metadata;
pub mod scale;
pub mod serial;
mod text;

pub use serial::Serial;
