//! The code generator's view of a protocol description and its naming
//! rules.

pub mod generator;
pub mod parts;
pub mod typ;
pub mod util;
pub mod wayland;
