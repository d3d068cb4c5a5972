//! The vLLM backend, which talks to a vLLM server.

pub mod platform;
pub mod command;
pub mod discovery;
pub mod health;
pub mod backend;
pub mod model_dir;
pub mod server;
pub mod completion;
pub mod completion_laws;
pub mod install;
