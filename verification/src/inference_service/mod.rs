//! What the inference service knows of the machine it runs on.

pub mod resources;
