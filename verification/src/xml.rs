//! The protocol description read from a Wayland XML file.

pub mod dtd;
pub mod event;
pub mod names;
pub mod opcodes;
pub mod quick;
pub mod reader;
pub mod schema;
pub mod values;
