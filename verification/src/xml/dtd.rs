//! Rust representation of the XML specification as the Wayland DTD
//! describes it, every attribute kept as written.

use vstd::prelude::*;

verus! {

#[derive(Debug, Clone)]
pub struct Protocol {
    pub name: String,
    pub copyright: Option<Copyright>,
    pub description: Option<Description>,
    pub interfaces: Vec<Interface>,
}

#[derive(Debug, Clone)]
pub struct Copyright {
    pub content: String,
}

#[derive(Debug, Clone)]
pub struct Interface {
    pub name: String,
    pub version: String,
    pub description: Option<Description>,
    pub requests: Vec<Request>,
    pub events: Vec<Event>,
    pub enums: Vec<Enum>,
}

#[derive(Debug, Clone)]
pub struct Request {
    pub name: String,
    pub kind: Option<String>,
    pub since: Option<String>,
    pub deprecated_since: Option<String>,
    pub description: Option<Description>,
    pub args: Vec<Arg>,
}

#[derive(Debug, Clone)]
pub struct Event {
    pub name: String,
    pub kind: Option<String>,
    pub since: Option<String>,
    pub deprecated_since: Option<String>,
    pub description: Option<Description>,
    pub args: Vec<Arg>,
}

#[derive(Debug, Clone)]
pub struct Enum {
    pub name: String,
    pub since: Option<String>,
    pub bitfield: Option<String>,
    pub description: Option<Description>,
    pub entries: Vec<Entry>,
}

#[derive(Debug, Clone)]
pub struct Entry {
    pub name: String,
    pub value: String,
    pub summary: Option<String>,
    pub since: Option<String>,
    pub deprecated_since: Option<String>,
    pub description: Option<Description>,
}

#[derive(Debug, Clone)]
pub struct Arg {
    pub name: String,
    pub kind: String,
    pub summary: Option<String>,
    pub interface: Option<String>,
    pub allow_null: Option<String>,
    pub interface_enum: Option<String>,
    pub description: Option<Description>,
}

#[derive(Debug, Clone)]
pub struct Description {
    pub summary: String,
    pub content: Option<String>,
}

} // verus!
