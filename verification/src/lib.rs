pub mod api;
pub mod backend;
pub mod failure;
pub mod http;
pub mod inference;
pub mod inference_service;
pub mod json;
pub mod model;
pub mod paths;
pub mod process;
pub mod shell;
pub mod sse;
pub mod sse_laws;
pub mod text;
