//! Bridges between a run and Python test frameworks.

pub mod detect;
pub mod event_laws;
pub mod events;
pub mod laws;
pub mod pump;
pub mod pump_laws;
pub mod request;
pub mod request_laws;
pub mod scripts;
pub mod unit_config;
