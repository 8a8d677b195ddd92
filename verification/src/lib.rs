//! Adapter between an embedding host and a model runtime that lives in a
//! child process.
//!
//! The crate holds every decision the adapter takes and none of the effects:
//! starting the child, probing its endpoint and carrying a request over the
//! channel are left to the caller, which reports what happened and is told
//! what to do next.

pub mod backend;
pub mod batch;
pub mod client;
pub mod embeddings;
pub mod error;
pub mod launch;
pub mod lifecycle;
pub mod model;
pub mod supervisor;
pub mod wire;

pub use crate::backend::PythonBackend;
