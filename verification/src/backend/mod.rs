//! The backends that generate text.

pub mod args;
pub mod burn;
pub mod generate;
pub mod path_search;
pub mod runner;
pub mod onnxruntime;
pub mod external;
pub mod vllm;
