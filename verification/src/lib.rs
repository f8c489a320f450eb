//! The decision core of a test-run driver.

pub mod agent_proto;
pub mod assoc;
pub mod bootstrap;
pub mod cancel;
pub mod connector;
pub mod console;
pub mod deployment_id;
pub mod double;
pub mod dup;
pub mod emit;
pub mod engine;
pub mod event_router;
pub mod framework;
pub mod identify_host;
pub mod json;
pub mod log_source;
pub mod order;
pub mod outcomes;
pub mod paths;
pub mod procedure_version;
pub mod project_laws;
pub mod protocol;
pub mod python;
pub mod queue;
pub mod run_log;
pub mod sdk;
pub mod session;
pub mod session_laws;
pub mod source;
pub mod text;
pub mod text_laws;
pub mod time;
pub mod ui;
pub mod value_laws;
