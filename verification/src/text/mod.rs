//! Operations on text, over its characters.

pub mod ascii;
pub mod bytes;
pub mod chars;
pub mod lines;
pub mod number;
pub mod order;
pub mod search;
pub mod space;
