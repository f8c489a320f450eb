//! Runs of procedures under the execution engine.

pub mod caps;
pub mod data_laws;
pub mod measurement;
pub mod measurement_laws;
pub mod metadata;
pub mod model;
pub mod request;
pub mod request_laws;
pub mod run;
pub mod run_laws;
pub mod sink;
pub mod sink_laws;
pub mod step_laws;
pub mod unit;
