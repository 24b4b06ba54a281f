//! Rust representation of the XML specification as described by the
//! Wayland DTD, with numbers and flags parsed, and the abstract value of
//! each part (its `deep_view`).

use vstd::prelude::*;

verus! {

#[derive(Debug, Clone)]
pub struct Protocol {
    pub name: String,
    pub copyright: Option<Copyright>,
    pub description: Option<Description>,
    pub interfaces: Vec<Interface>,
}

#[derive(Debug, Clone)]
pub struct Copyright {
    pub content: String,
}

#[derive(Debug, Clone)]
pub struct Interface {
    pub name: String,
    pub version: u32,
    pub frozen: bool,
    pub description: Option<Description>,
    pub requests: Vec<Message>,
    pub events: Vec<Message>,
    pub enums: Vec<Enum>,
}

#[derive(Debug, Clone)]
pub struct Message {
    pub name: String,
    pub destructor: bool,
    pub since: u32,
    pub deprecated_since: Option<u32>,
    pub description: Option<Description>,
    pub args: Vec<Arg>,
    pub opcode: u16,
}

#[derive(Debug, Clone)]
pub struct Enum {
    pub name: String,
    pub since: u32,
    pub bitfield: bool,
    pub description: Option<Description>,
    pub entries: Vec<Entry>,
}

#[derive(Debug, Clone)]
pub struct Entry {
    pub name: String,
    pub value: String,
    pub summary: Option<String>,
    pub since: u32,
    pub deprecated_since: Option<u32>,
    pub description: Option<Description>,
}

#[derive(Debug, Clone)]
pub struct Arg {
    pub name: String,
    pub summary: Option<String>,
    pub description: Option<Description>,
    pub typ: Type,
}

#[derive(Debug, Clone)]
pub struct Description {
    pub summary: String,
    pub content: Option<String>,
}

#[derive(Debug, Clone)]
pub enum Type {
    Int { enu: Option<String> },
    Uint { enu: Option<String> },
    Fixed,
    String { nullable: bool },
    Object { interface: Option<String>, nullable: bool },
    NewId { interface: Option<String> },
    Array,
    Fd,
}

/// The abstract value of a [`Protocol`].
pub struct ProtocolView {
    pub name: Seq<char>,
    pub copyright: Option<CopyrightView>,
    pub description: Option<DescriptionView>,
    pub interfaces: Seq<InterfaceView>,
}

/// The abstract value of a [`Copyright`].
pub struct CopyrightView {
    pub content: Seq<char>,
}

/// The abstract value of an [`Interface`].
pub struct InterfaceView {
    pub name: Seq<char>,
    pub version: u32,
    pub frozen: bool,
    pub description: Option<DescriptionView>,
    pub requests: Seq<MessageView>,
    pub events: Seq<MessageView>,
    pub enums: Seq<EnumView>,
}

/// The abstract value of a [`Message`].
pub struct MessageView {
    pub name: Seq<char>,
    pub destructor: bool,
    pub since: u32,
    pub deprecated_since: Option<u32>,
    pub description: Option<DescriptionView>,
    pub args: Seq<ArgView>,
    pub opcode: u16,
}

/// The abstract value of an [`Enum`].
pub struct EnumView {
    pub name: Seq<char>,
    pub since: u32,
    pub bitfield: bool,
    pub description: Option<DescriptionView>,
    pub entries: Seq<EntryView>,
}

/// The abstract value of an [`Entry`].
pub struct EntryView {
    pub name: Seq<char>,
    pub value: Seq<char>,
    pub summary: Option<Seq<char>>,
    pub since: u32,
    pub deprecated_since: Option<u32>,
    pub description: Option<DescriptionView>,
}

/// The abstract value of an [`Arg`].
pub struct ArgView {
    pub name: Seq<char>,
    pub summary: Option<Seq<char>>,
    pub description: Option<DescriptionView>,
    pub typ: TypeView,
}

/// The abstract value of a [`Description`].
pub struct DescriptionView {
    pub summary: Seq<char>,
    pub content: Option<Seq<char>>,
}

/// The abstract value of a [`Type`].
pub enum TypeView {
    Int { enu: Option<Seq<char>> },
    Uint { enu: Option<Seq<char>> },
    Fixed,
    String { nullable: bool },
    Object { interface: Option<Seq<char>>, nullable: bool },
    NewId { interface: Option<Seq<char>> },
    Array,
    Fd,
}

impl DeepView for Protocol {
    type V = ProtocolView;

    open spec fn deep_view(&self) -> ProtocolView {
        ProtocolView {
            name: self.name@,
            copyright: self.copyright.deep_view(),
            description: self.description.deep_view(),
            interfaces: self.interfaces.deep_view(),
        }
    }
}

impl DeepView for Copyright {
    type V = CopyrightView;

    open spec fn deep_view(&self) -> CopyrightView {
        CopyrightView { content: self.content@ }
    }
}

impl DeepView for Interface {
    type V = InterfaceView;

    open spec fn deep_view(&self) -> InterfaceView {
        InterfaceView {
            name: self.name@,
            version: self.version,
            frozen: self.frozen,
            description: self.description.deep_view(),
            requests: self.requests.deep_view(),
            events: self.events.deep_view(),
            enums: self.enums.deep_view(),
        }
    }
}

impl DeepView for Message {
    type V = MessageView;

    open spec fn deep_view(&self) -> MessageView {
        MessageView {
            name: self.name@,
            destructor: self.destructor,
            since: self.since,
            deprecated_since: self.deprecated_since,
            description: self.description.deep_view(),
            args: self.args.deep_view(),
            opcode: self.opcode,
        }
    }
}

impl DeepView for Enum {
    type V = EnumView;

    open spec fn deep_view(&self) -> EnumView {
        EnumView {
            name: self.name@,
            since: self.since,
            bitfield: self.bitfield,
            description: self.description.deep_view(),
            entries: self.entries.deep_view(),
        }
    }
}

impl DeepView for Entry {
    type V = EntryView;

    open spec fn deep_view(&self) -> EntryView {
        EntryView {
            name: self.name@,
            value: self.value@,
            summary: self.summary.deep_view(),
            since: self.since,
            deprecated_since: self.deprecated_since,
            description: self.description.deep_view(),
        }
    }
}

impl DeepView for Arg {
    type V = ArgView;

    open spec fn deep_view(&self) -> ArgView {
        ArgView {
            name: self.name@,
            summary: self.summary.deep_view(),
            description: self.description.deep_view(),
            typ: self.typ.deep_view(),
        }
    }
}

impl DeepView for Description {
    type V = DescriptionView;

    open spec fn deep_view(&self) -> DescriptionView {
        DescriptionView { summary: self.summary@, content: self.content.deep_view() }
    }
}

impl DeepView for Type {
    type V = TypeView;

    open spec fn deep_view(&self) -> TypeView {
        match self {
            Type::Int { enu } => TypeView::Int { enu: enu.deep_view() },
            Type::Uint { enu } => TypeView::Uint { enu: enu.deep_view() },
            Type::Fixed => TypeView::Fixed,
            Type::String { nullable } => TypeView::String { nullable: *nullable },
            Type::Object { interface, nullable } => TypeView::Object {
                interface: interface.deep_view(),
                nullable: *nullable,
            },
            Type::NewId { interface } => TypeView::NewId { interface: interface.deep_view() },
            Type::Array => TypeView::Array,
            Type::Fd => TypeView::Fd,
        }
    }
}

} // verus!
