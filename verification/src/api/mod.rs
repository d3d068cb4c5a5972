//! The HTTP API.

pub mod router;
