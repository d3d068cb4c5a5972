//! JSON values as plain data, and their way through `serde_json`.

pub mod bridge;
pub mod value;
