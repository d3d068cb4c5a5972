//! The part of HTTP that is spoken with a model server.

pub mod body;
pub mod request;
pub mod response;
pub mod url;
