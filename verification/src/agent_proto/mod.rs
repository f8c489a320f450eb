//! The agent protocol: driving a run over standard input and output.

pub mod ctx;
pub mod emitter;
pub mod events;
pub mod laws;
pub mod prebaked;
pub mod reader;
pub mod validate;
pub mod validate_laws;
