//! A Wayland protocol library: the wire format of messages, the
//! protocol description read from XML, and the naming rules of the code
//! generator.

pub mod primitive;
pub mod packing;
pub mod wire;
pub mod raw;
pub mod argument;
pub mod message;
pub mod meta;
pub mod client;
pub mod xml;
pub mod scanner;
