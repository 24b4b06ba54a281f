//! Reading a protocol description from its XML events.
//!
//! The `spec_*` functions say, event by event, what each element of the
//! Wayland DTD may hold and what it yields; the reading functions are
//! proved to give exactly that, refusals included.

use vstd::prelude::*;

use crate::xml::event::{spec_lex_end, spec_tokens, tokenize, XmlAttribute, XmlError, XmlEvent};
use crate::xml::names::{
    bytes_eq, is_word, parse_u32, spec_parse_u32, spec_utf8_text, spec_word_bytes, spec_word_of, utf8_text,
    word_of, Word,
};
use crate::xml::schema::{
    Arg, ArgView, Copyright, CopyrightView, Description, DescriptionView, Entry, EntryView, Enum,
    EnumView, Interface, InterfaceView, Message, MessageView, Protocol, ProtocolView, Type,
    TypeView,
};

verus! {

/// The elements of a protocol description.
#[derive(Debug, Clone, Copy, PartialEq, Eq)]
pub enum Element {
    Protocol,
    Copyright,
    Interface,
    Request,
    Event,
    Enum,
    Entry,
    Arg,
    Description,
}

/// The kinds of argument type.
#[derive(Debug, Clone, Copy, PartialEq, Eq)]
pub enum TypeKind {
    Int,
    Uint,
    Fixed,
    String,
    Object,
    NewId,
    Array,
    Fd,
}

/// The argument type that a word names.
pub open spec fn spec_type_kind(w: Option<Word>) -> Option<TypeKind> {
    match w {
        Some(Word::Int) => Some(TypeKind::Int),
        Some(Word::Uint) => Some(TypeKind::Uint),
        Some(Word::Fixed) => Some(TypeKind::Fixed),
        Some(Word::String) => Some(TypeKind::String),
        Some(Word::Object) => Some(TypeKind::Object),
        Some(Word::NewId) => Some(TypeKind::NewId),
        Some(Word::Array) => Some(TypeKind::Array),
        Some(Word::Fd) => Some(TypeKind::Fd),
        _ => None,
    }
}

fn type_kind(w: Option<Word>) -> (r: Option<TypeKind>)
    ensures
        r == spec_type_kind(w),
{
    match w {
        Some(Word::Int) => Some(TypeKind::Int),
        Some(Word::Uint) => Some(TypeKind::Uint),
        Some(Word::Fixed) => Some(TypeKind::Fixed),
        Some(Word::String) => Some(TypeKind::String),
        Some(Word::Object) => Some(TypeKind::Object),
        Some(Word::NewId) => Some(TypeKind::NewId),
        Some(Word::Array) => Some(TypeKind::Array),
        Some(Word::Fd) => Some(TypeKind::Fd),
        _ => None,
    }
}

/// The attributes of an element read so far.
pub struct AttrsView {
    pub name: Option<Seq<char>>,
    pub version: Option<u32>,
    pub destructor: bool,
    pub since: u32,
    pub deprecated_since: Option<u32>,
    pub bitfield: bool,
    pub value: Option<Seq<char>>,
    pub summary: Option<Seq<char>>,
    pub kind: Option<TypeKind>,
    pub interface: Option<Seq<char>>,
    pub allow_null: bool,
    pub enu: Option<Seq<char>>,
}

/// The attributes of an element read so far.
pub struct Attrs {
    pub name: Option<String>,
    pub version: Option<u32>,
    pub destructor: bool,
    pub since: u32,
    pub deprecated_since: Option<u32>,
    pub bitfield: bool,
    pub value: Option<String>,
    pub summary: Option<String>,
    pub kind: Option<TypeKind>,
    pub interface: Option<String>,
    pub allow_null: bool,
    pub enu: Option<String>,
}

impl DeepView for Attrs {
    type V = AttrsView;

    open spec fn deep_view(&self) -> AttrsView {
        AttrsView {
            name: self.name.deep_view(),
            version: self.version,
            destructor: self.destructor,
            since: self.since,
            deprecated_since: self.deprecated_since,
            bitfield: self.bitfield,
            value: self.value.deep_view(),
            summary: self.summary.deep_view(),
            kind: self.kind,
            interface: self.interface.deep_view(),
            allow_null: self.allow_null,
            enu: self.enu.deep_view(),
        }
    }
}

/// No attribute read yet: `since` is 1 unless an attribute says otherwise.
pub open spec fn spec_attrs_init() -> AttrsView {
    AttrsView {
        name: None,
        version: None,
        destructor: false,
        since: 1,
        deprecated_since: None,
        bitfield: false,
        value: None,
        summary: None,
        kind: None,
        interface: None,
        allow_null: false,
        enu: None,
    }
}

/// A number attribute: UTF-8 text that spells a `u32`.
pub open spec fn spec_number(v: Seq<u8>) -> Result<u32, XmlError> {
    match spec_utf8_text(v) {
        Err(e) => Err(e),
        Ok(_) => match spec_parse_u32(v) {
            Some(n) => Ok(n),
            None => Err(XmlError::InvalidNumber),
        },
    }
}

/// A boolean attribute value: `true` or `false`, as the DTD allows.
pub open spec fn spec_bool(v: Seq<u8>) -> Option<bool> {
    if spec_word_of(v) == Some(Word::True) {
        Some(true)
    } else if spec_word_of(v) == Some(Word::False) {
        Some(false)
    } else {
        None
    }
}

fn bool_value(v: &[u8]) -> (r: Option<bool>)
    ensures
        r == spec_bool(v@),
{
    match word_of(v) {
        Some(Word::True) => Some(true),
        Some(Word::False) => Some(false),
        _ => None,
    }
}

/// The attributes after reading `attr` on an element `el`.
pub open spec fn spec_attr_step(el: Element, a: AttrsView, attr: XmlAttribute) -> Result<
    AttrsView,
    XmlError,
> {
    let key = spec_word_of(attr.key@);
    let v = attr.value@;
    let messages = el == Element::Request || el == Element::Event;
    if key == Some(Word::Name) && el != Element::Copyright && el != Element::Description {
        match spec_utf8_text(v) {
            Ok(t) => Ok(AttrsView { name: Some(t), ..a }),
            Err(e) => Err(e),
        }
    } else if key == Some(Word::Version) && el == Element::Interface {
        match spec_number(v) {
            Ok(n) => Ok(AttrsView { version: Some(n), ..a }),
            Err(e) => Err(e),
        }
    } else if key == Some(Word::Type) && messages {
        if spec_word_of(v) == Some(Word::Destructor) {
            Ok(AttrsView { destructor: true, ..a })
        } else {
            Err(XmlError::UnexpectedAttribute)
        }
    } else if key == Some(Word::Type) && el == Element::Arg {
        match spec_utf8_text(v) {
            Err(e) => Err(e),
            Ok(_) => match spec_type_kind(spec_word_of(v)) {
                Some(k) => Ok(AttrsView { kind: Some(k), ..a }),
                None => Err(XmlError::UnknownType),
            },
        }
    } else if key == Some(Word::Since) && (messages || el == Element::Enum || el
        == Element::Entry) {
        match spec_number(v) {
            Ok(n) => Ok(AttrsView { since: n, ..a }),
            Err(e) => Err(e),
        }
    } else if key == Some(Word::DeprecatedSince) && (messages || el == Element::Entry) {
        match spec_number(v) {
            Ok(n) => Ok(AttrsView { deprecated_since: Some(n), ..a }),
            Err(e) => Err(e),
        }
    } else if key == Some(Word::Bitfield) && el == Element::Enum {
        match spec_bool(v) {
            Some(b) => Ok(AttrsView { bitfield: b, ..a }),
            None => Err(XmlError::UnexpectedAttribute),
        }
    } else if key == Some(Word::Value) && el == Element::Entry {
        match spec_utf8_text(v) {
            Ok(t) => Ok(AttrsView { value: Some(t), ..a }),
            Err(e) => Err(e),
        }
    } else if key == Some(Word::Summary) && (el == Element::Entry || el == Element::Arg || el
        == Element::Description) {
        match spec_utf8_text(v) {
            Ok(t) => Ok(AttrsView { summary: Some(t), ..a }),
            Err(e) => Err(e),
        }
    } else if key == Some(Word::Interface) && el == Element::Arg {
        match spec_utf8_text(v) {
            Ok(t) => Ok(AttrsView { interface: Some(t), ..a }),
            Err(e) => Err(e),
        }
    } else if key == Some(Word::AllowNull) && el == Element::Arg {
        match spec_bool(v) {
            Some(b) => Ok(AttrsView { allow_null: b, ..a }),
            None => Err(XmlError::UnexpectedAttribute),
        }
    } else if key == Some(Word::Enum) && el == Element::Arg {
        match spec_utf8_text(v) {
            Ok(t) => Ok(AttrsView { enu: Some(t), ..a }),
            Err(e) => Err(e),
        }
    } else {
        Err(XmlError::UnexpectedAttribute)
    }
}

/// The attributes after reading `attrs[i..]` in order.
pub open spec fn spec_attrs(el: Element, attrs: Seq<XmlAttribute>, i: nat, a: AttrsView) -> Result<
    AttrsView,
    XmlError,
>
    decreases attrs.len() - i,
{
    if i >= attrs.len() {
        Ok(a)
    } else {
        match spec_attr_step(el, a, attrs[i as int]) {
            Ok(a2) => spec_attrs(el, attrs, i + 1, a2),
            Err(e) => Err(e),
        }
    }
}

/// The children of an element read so far.
pub struct ChildrenView {
    pub copyright: Option<CopyrightView>,
    pub description: Option<DescriptionView>,
    pub interfaces: Seq<InterfaceView>,
    pub requests: Seq<MessageView>,
    pub events: Seq<MessageView>,
    pub enums: Seq<EnumView>,
    pub entries: Seq<EntryView>,
    pub args: Seq<ArgView>,
    pub content: Option<Seq<char>>,
}

/// The children of an element read so far.
pub struct Children {
    pub copyright: Option<Copyright>,
    pub description: Option<Description>,
    pub interfaces: Vec<Interface>,
    pub requests: Vec<Message>,
    pub events: Vec<Message>,
    pub enums: Vec<Enum>,
    pub entries: Vec<Entry>,
    pub args: Vec<Arg>,
    pub content: Option<String>,
}

impl DeepView for Children {
    type V = ChildrenView;

    open spec fn deep_view(&self) -> ChildrenView {
        ChildrenView {
            copyright: self.copyright.deep_view(),
            description: self.description.deep_view(),
            interfaces: self.interfaces.deep_view(),
            requests: self.requests.deep_view(),
            events: self.events.deep_view(),
            enums: self.enums.deep_view(),
            entries: self.entries.deep_view(),
            args: self.args.deep_view(),
            content: self.content.deep_view(),
        }
    }
}

/// No child read yet.
pub open spec fn spec_children_init() -> ChildrenView {
    ChildrenView {
        copyright: None,
        description: None,
        interfaces: Seq::empty(),
        requests: Seq::empty(),
        events: Seq::empty(),
        enums: Seq::empty(),
        entries: Seq::empty(),
        args: Seq::empty(),
        content: None,
    }
}

/// A part of a protocol description, as an element yields it.
pub enum NodeView {
    Protocol(ProtocolView),
    Copyright(CopyrightView),
    Interface(InterfaceView),
    Message(MessageView),
    Enum(EnumView),
    Entry(EntryView),
    Arg(ArgView),
    Description(DescriptionView),
}

/// A part of a protocol description, as an element yields it.
pub enum Node {
    Protocol(Protocol),
    Copyright(Copyright),
    Interface(Interface),
    Message(Message),
    Enum(Enum),
    Entry(Entry),
    Arg(Arg),
    Description(Description),
}

impl DeepView for Node {
    type V = NodeView;

    open spec fn deep_view(&self) -> NodeView {
        match self {
            Node::Protocol(x) => NodeView::Protocol(x.deep_view()),
            Node::Copyright(x) => NodeView::Copyright(x.deep_view()),
            Node::Interface(x) => NodeView::Interface(x.deep_view()),
            Node::Message(x) => NodeView::Message(x.deep_view()),
            Node::Enum(x) => NodeView::Enum(x.deep_view()),
            Node::Entry(x) => NodeView::Entry(x.deep_view()),
            Node::Arg(x) => NodeView::Arg(x.deep_view()),
            Node::Description(x) => NodeView::Description(x.deep_view()),
        }
    }
}

/// The child element that a start tag named `name` opens inside `el`.
pub open spec fn spec_child_kind(el: Element, name: Seq<u8>) -> Option<Element> {
    let w = spec_word_of(name);
    if w == Some(Word::Description) && el != Element::Copyright && el != Element::Description {
        Some(Element::Description)
    } else if w == Some(Word::Copyright) && el == Element::Protocol {
        Some(Element::Copyright)
    } else if w == Some(Word::Interface) && el == Element::Protocol {
        Some(Element::Interface)
    } else if w == Some(Word::Request) && el == Element::Interface {
        Some(Element::Request)
    } else if w == Some(Word::Event) && el == Element::Interface {
        Some(Element::Event)
    } else if w == Some(Word::Enum) && el == Element::Interface {
        Some(Element::Enum)
    } else if w == Some(Word::Arg) && (el == Element::Request || el == Element::Event) {
        Some(Element::Arg)
    } else if w == Some(Word::Entry) && el == Element::Enum {
        Some(Element::Entry)
    } else {
        None
    }
}

/// Comments are skipped inside `el`.
pub open spec fn spec_allows_comment(el: Element) -> bool {
    el != Element::Copyright && el != Element::Entry && el != Element::Arg
}

/// A child of kind `k` would be the second of its kind where only one may
/// be.
pub open spec fn spec_is_duplicate(c: ChildrenView, k: Element) -> bool {
    (k == Element::Copyright && c.copyright is Some) || (k == Element::Description
        && c.description is Some)
}

/// The opcode a message child would take: its index among its kind.
pub open spec fn spec_child_index(c: ChildrenView, k: Element) -> nat {
    if k == Element::Request {
        c.requests.len()
    } else if k == Element::Event {
        c.events.len()
    } else {
        0
    }
}

/// The children after a child of kind `k` yielded `node`.
pub open spec fn spec_add_child(c: ChildrenView, k: Element, node: NodeView) -> ChildrenView {
    match node {
        NodeView::Copyright(x) => ChildrenView { copyright: Some(x), ..c },
        NodeView::Description(x) => ChildrenView { description: Some(x), ..c },
        NodeView::Interface(x) => ChildrenView { interfaces: c.interfaces.push(x), ..c },
        NodeView::Message(x) => if k == Element::Request {
            ChildrenView { requests: c.requests.push(x), ..c }
        } else {
            ChildrenView { events: c.events.push(x), ..c }
        },
        NodeView::Enum(x) => ChildrenView { enums: c.enums.push(x), ..c },
        NodeView::Entry(x) => ChildrenView { entries: c.entries.push(x), ..c },
        NodeView::Arg(x) => ChildrenView { args: c.args.push(x), ..c },
        NodeView::Protocol(_) => c,
    }
}

/// The children after text `t`.
pub open spec fn spec_add_text(c: ChildrenView, t: Seq<char>) -> ChildrenView {
    ChildrenView {
        content: Some(
            match c.content {
                Some(x) => x + t,
                None => t,
            },
        ),
        ..c
    }
}

/// The text of the five XML entities, by name.
pub open spec fn spec_xml_entity(name: Seq<char>) -> Option<Seq<char>> {
    if name == seq!['l', 't'] {
        Some(seq!['<'])
    } else if name == seq!['g', 't'] {
        Some(seq!['>'])
    } else if name == seq!['a', 'm', 'p'] {
        Some(seq!['&'])
    } else if name == seq!['a', 'p', 'o', 's'] {
        Some(seq!['\''])
    } else if name == seq!['q', 'u', 'o', 't'] {
        Some(seq!['"'])
    } else {
        None
    }
}

/// Calls `quick_xml::escape::resolve_xml_entity`: the text of the five
/// XML entities (`lt`, `gt`, `amp`, `apos`, `quot`), none for any other
/// name, as its source shows.
#[verifier::external_body]
fn resolve_xml_entity(name: &str) -> (r: Option<&'static str>)
    ensures
        r is Some <==> spec_xml_entity(name@) is Some,
        r matches Some(s) ==> spec_xml_entity(name@) == Some(s@),
{
    quick_xml::escape::resolve_xml_entity(name)
}

/// Reading the children of `el` from event `pos` on, with `c` read so far:
/// the children and the position after the end tag, which closes the
/// start tag named `end`, or the refusal. A child is an element with its
/// own end tag, or a self-closing one (an empty element).
pub open spec fn spec_children(el: Element, ev: Seq<XmlEvent>, pos: int, end: Seq<u8>, c: ChildrenView) -> Result<
    (ChildrenView, int),
    XmlError,
>
    decreases ev.len() - pos, 1int,
{
    if pos < 0 || pos >= ev.len() {
        Err(XmlError::UnexpectedEvent)
    } else {
        match ev[pos] {
            XmlEvent::End(name) => if name@ == end {
                Ok((c, pos + 1))
            } else {
                Err(XmlError::UnexpectedEvent)
            },
            XmlEvent::Comment => if spec_allows_comment(el) {
                spec_children(el, ev, pos + 1, end, c)
            } else {
                Err(XmlError::UnexpectedEvent)
            },
            XmlEvent::Text(t) => if el == Element::Copyright || el == Element::Description {
                match spec_utf8_text(t@) {
                    Ok(s) => spec_children(el, ev, pos + 1, end, spec_add_text(c, s)),
                    Err(e) => Err(e),
                }
            } else {
                Err(XmlError::UnexpectedEvent)
            },
            XmlEvent::GeneralRef(r) => if el == Element::Copyright {
                match spec_utf8_text(r@) {
                    Ok(s) => match spec_xml_entity(s) {
                        Some(x) => spec_children(el, ev, pos + 1, end, spec_add_text(c, x)),
                        None => Err(XmlError::UnknownEntity),
                    },
                    Err(e) => Err(e),
                }
            } else {
                Err(XmlError::UnexpectedEvent)
            },
            XmlEvent::Start(tag) => match spec_child_kind(el, tag.name@) {
                Some(k) => if spec_is_duplicate(c, k) {
                    Err(XmlError::DuplicateElement)
                } else {
                    match spec_element(k, ev, pos, spec_child_index(c, k)) {
                        Ok((node, p2)) => if pos < p2 <= ev.len() {
                            spec_children(el, ev, p2, end, spec_add_child(c, k, node))
                        } else {
                            Err(XmlError::UnexpectedEvent)
                        },
                        Err(e) => Err(e),
                    }
                },
                None => Err(XmlError::UnexpectedEvent),
            },
            XmlEvent::Empty(tag) => match spec_child_kind(el, tag.name@) {
                Some(k) => if spec_is_duplicate(c, k) {
                    Err(XmlError::DuplicateElement)
                } else {
                    match spec_element(k, ev, pos, spec_child_index(c, k)) {
                        Ok((node, p2)) => if pos < p2 <= ev.len() {
                            spec_children(el, ev, p2, end, spec_add_child(c, k, node))
                        } else {
                            Err(XmlError::UnexpectedEvent)
                        },
                        Err(e) => Err(e),
                    }
                },
                None => Err(XmlError::UnexpectedEvent),
            },
            _ => Err(XmlError::UnexpectedEvent),
        }
    }
}

/// The type of an argument from its `type` attribute and the attributes
/// that qualify it.
pub open spec fn spec_arg_type(kind: TypeKind, a: AttrsView) -> TypeView {
    match kind {
        TypeKind::Int => TypeView::Int { enu: a.enu },
        TypeKind::Uint => TypeView::Uint { enu: a.enu },
        TypeKind::Fixed => TypeView::Fixed,
        TypeKind::String => TypeView::String { nullable: a.allow_null },
        TypeKind::Object => TypeView::Object { interface: a.interface, nullable: a.allow_null },
        TypeKind::NewId => TypeView::NewId { interface: a.interface },
        TypeKind::Array => TypeView::Array,
        TypeKind::Fd => TypeView::Fd,
    }
}

/// What an element yields from its attributes and children; `index` is
/// a message's opcode.
pub open spec fn spec_finish(el: Element, a: AttrsView, c: ChildrenView, index: nat) -> Result<
    NodeView,
    XmlError,
> {
    match el {
        Element::Protocol => if c.interfaces.len() == 0 {
            Err(XmlError::NoInterfaces)
        } else {
            match a.name {
                Some(name) => Ok(
                    NodeView::Protocol(
                        ProtocolView {
                            name,
                            copyright: c.copyright,
                            description: c.description,
                            interfaces: c.interfaces,
                        },
                    ),
                ),
                None => Err(XmlError::MissingAttribute),
            }
        },
        Element::Copyright => match c.content {
            Some(content) => Ok(NodeView::Copyright(CopyrightView { content })),
            None => Err(XmlError::MissingContent),
        },
        Element::Interface => if c.requests.len() + c.events.len() + c.enums.len() == 0 {
            Err(XmlError::EmptyInterface)
        } else {
            match (a.name, a.version) {
                (Some(name), Some(version)) => Ok(
                    NodeView::Interface(
                        InterfaceView {
                            name,
                            version,
                            frozen: false,
                            description: c.description,
                            requests: c.requests,
                            events: c.events,
                            enums: c.enums,
                        },
                    ),
                ),
                _ => Err(XmlError::MissingAttribute),
            }
        },
        Element::Request | Element::Event => match a.name {
            Some(name) => Ok(
                NodeView::Message(
                    MessageView {
                        name,
                        destructor: a.destructor,
                        since: a.since,
                        deprecated_since: a.deprecated_since,
                        description: c.description,
                        args: c.args,
                        opcode: index as u16,
                    },
                ),
            ),
            None => Err(XmlError::MissingAttribute),
        },
        Element::Enum => match a.name {
            Some(name) => Ok(
                NodeView::Enum(
                    EnumView {
                        name,
                        since: a.since,
                        bitfield: a.bitfield,
                        description: c.description,
                        entries: c.entries,
                    },
                ),
            ),
            None => Err(XmlError::MissingAttribute),
        },
        Element::Entry => match (a.name, a.value) {
            (Some(name), Some(value)) => Ok(
                NodeView::Entry(
                    EntryView {
                        name,
                        value,
                        summary: a.summary,
                        since: a.since,
                        deprecated_since: a.deprecated_since,
                        description: c.description,
                    },
                ),
            ),
            _ => Err(XmlError::MissingAttribute),
        },
        Element::Arg => match (a.name, a.kind) {
            (Some(name), Some(kind)) => Ok(
                NodeView::Arg(
                    ArgView {
                        name,
                        summary: a.summary,
                        description: c.description,
                        typ: spec_arg_type(kind, a),
                    },
                ),
            ),
            _ => Err(XmlError::MissingAttribute),
        },
        Element::Description => match a.summary {
            Some(summary) => Ok(
                NodeView::Description(DescriptionView { summary, content: c.content }),
            ),
            None => Err(XmlError::MissingAttribute),
        },
    }
}

/// Reading the element `el` whose start tag (or self-closing tag) is event
/// `pos`: what it yields and the position after its end, or the refusal.
pub open spec fn spec_element(el: Element, ev: Seq<XmlEvent>, pos: int, index: nat) -> Result<
    (NodeView, int),
    XmlError,
>
    decreases ev.len() - pos, 0int,
{
    if pos < 0 || pos >= ev.len() {
        Err(XmlError::UnexpectedEvent)
    } else {
        match ev[pos] {
            XmlEvent::Start(tag) => match spec_attrs(el, tag.attributes@, 0, spec_attrs_init()) {
                Err(e) => Err(e),
                Ok(a) => if tag.malformed {
                    Err(XmlError::MalformedAttribute)
                } else {
                    match spec_children(el, ev, pos + 1, tag.name@, spec_children_init()) {
                        Err(e) => Err(e),
                        Ok((c, p2)) => match spec_finish(el, a, c, index) {
                            Ok(node) => Ok((node, p2)),
                            Err(e) => Err(e),
                        },
                    }
                },
            },
            XmlEvent::Empty(tag) => match spec_attrs(el, tag.attributes@, 0, spec_attrs_init()) {
                Err(e) => Err(e),
                Ok(a) => if tag.malformed {
                    Err(XmlError::MalformedAttribute)
                } else {
                    match spec_finish(el, a, spec_children_init(), index) {
                        Ok(node) => Ok((node, pos + 1)),
                        Err(e) => Err(e),
                    }
                },
            },
            _ => Err(XmlError::UnexpectedEvent),
        }
    }
}

/// Reading the document from event `pos` on, with `acc` read so far: the
/// declaration is skipped, each `protocol` element is read, and the end
/// of the document ends the reading.
pub open spec fn spec_document(ev: Seq<XmlEvent>, pos: int, acc: Seq<ProtocolView>) -> Result<
    Seq<ProtocolView>,
    XmlError,
>
    decreases ev.len() - pos,
{
    if pos < 0 || pos >= ev.len() {
        Err(XmlError::UnexpectedEvent)
    } else {
        match ev[pos] {
            XmlEvent::Decl => spec_document(ev, pos + 1, acc),
            XmlEvent::Start(tag) => if tag.name@ == spec_word_bytes(Word::Protocol) {
                match spec_element(Element::Protocol, ev, pos, 0) {
                    Ok((NodeView::Protocol(p), p2)) => if pos < p2 <= ev.len() {
                        spec_document(ev, p2, acc.push(p))
                    } else {
                        Err(XmlError::UnexpectedEvent)
                    },
                    Ok(_) => Err(XmlError::UnexpectedEvent),
                    Err(e) => Err(e),
                }
            } else {
                Err(XmlError::UnexpectedEvent)
            },
            XmlEvent::Empty(tag) => if tag.name@ == spec_word_bytes(Word::Protocol) {
                match spec_element(Element::Protocol, ev, pos, 0) {
                    Ok((NodeView::Protocol(p), p2)) => if pos < p2 <= ev.len() {
                        spec_document(ev, p2, acc.push(p))
                    } else {
                        Err(XmlError::UnexpectedEvent)
                    },
                    Ok(_) => Err(XmlError::UnexpectedEvent),
                    Err(e) => Err(e),
                }
            } else {
                Err(XmlError::UnexpectedEvent)
            },
            XmlEvent::Eof => Ok(acc),
            _ => Err(XmlError::UnexpectedEvent),
        }
    }
}

fn number(v: &[u8]) -> (r: Result<u32, XmlError>)
    ensures
        r == spec_number(v@),
{
    match utf8_text(v) {
        Err(e) => Err(e),
        Ok(_) => match parse_u32(v) {
            Some(n) => Ok(n),
            None => Err(XmlError::InvalidNumber),
        },
    }
}

fn is_message(el: Element) -> (r: bool)
    ensures
        r == (el == Element::Request || el == Element::Event),
{
    match el {
        Element::Request | Element::Event => true,
        _ => false,
    }
}

/// Read one attribute of an element `el` into `a`.
fn attr_step(el: Element, a: &mut Attrs, attr: &XmlAttribute) -> (r: Result<(), XmlError>)
    ensures
        match spec_attr_step(el, old(a).deep_view(), *attr) {
            Ok(v) => r is Ok && final(a).deep_view() == v,
            Err(e) => r == Err::<(), XmlError>(e),
        },
{
    let key = word_of(attr.key.as_slice());
    let v = attr.value.as_slice();
    match key {
        Some(Word::Name) if !matches!(el, Element::Copyright | Element::Description) => {
            let t = utf8_text(v)?;
            a.name = Some(t);
            Ok(())
        },
        Some(Word::Version) if matches!(el, Element::Interface) => {
            let n = number(v)?;
            a.version = Some(n);
            Ok(())
        },
        Some(Word::Type) if is_message(el) => {
            if is_word(v, Word::Destructor) {
                a.destructor = true;
                Ok(())
            } else {
                Err(XmlError::UnexpectedAttribute)
            }
        },
        Some(Word::Type) if matches!(el, Element::Arg) => {
            let _t = utf8_text(v)?;
            match type_kind(word_of(v)) {
                Some(k) => {
                    a.kind = Some(k);
                    Ok(())
                },
                None => Err(XmlError::UnknownType),
            }
        },
        Some(Word::Since) if is_message(el) || matches!(el, Element::Enum | Element::Entry) => {
            let n = number(v)?;
            a.since = n;
            Ok(())
        },
        Some(Word::DeprecatedSince) if is_message(el) || matches!(el, Element::Entry) => {
            let n = number(v)?;
            a.deprecated_since = Some(n);
            Ok(())
        },
        Some(Word::Bitfield) if matches!(el, Element::Enum) => {
            match bool_value(v) {
                Some(b) => {
                    a.bitfield = b;
                    Ok(())
                },
                None => Err(XmlError::UnexpectedAttribute),
            }
        },
        Some(Word::Value) if matches!(el, Element::Entry) => {
            let t = utf8_text(v)?;
            a.value = Some(t);
            Ok(())
        },
        Some(Word::Summary) if matches!(el, Element::Entry | Element::Arg | Element::Description) => {
            let t = utf8_text(v)?;
            a.summary = Some(t);
            Ok(())
        },
        Some(Word::Interface) if matches!(el, Element::Arg) => {
            let t = utf8_text(v)?;
            a.interface = Some(t);
            Ok(())
        },
        Some(Word::AllowNull) if matches!(el, Element::Arg) => {
            match bool_value(v) {
                Some(b) => {
                    a.allow_null = b;
                    Ok(())
                },
                None => Err(XmlError::UnexpectedAttribute),
            }
        },
        Some(Word::Enum) if matches!(el, Element::Arg) => {
            let t = utf8_text(v)?;
            a.enu = Some(t);
            Ok(())
        },
        _ => Err(XmlError::UnexpectedAttribute),
    }
}

/// Read the attributes of an element `el` in order.
fn parse_attrs(el: Element, attrs: &Vec<XmlAttribute>) -> (r: Result<Attrs, XmlError>)
    ensures
        match spec_attrs(el, attrs@, 0, spec_attrs_init()) {
            Ok(v) => r matches Ok(a) && a.deep_view() == v,
            Err(e) => r matches Err(e2) && e2 == e,
        },
{
    let mut a = Attrs {
        name: None,
        version: None,
        destructor: false,
        since: 1,
        deprecated_since: None,
        bitfield: false,
        value: None,
        summary: None,
        kind: None,
        interface: None,
        allow_null: false,
        enu: None,
    };
    let mut i: usize = 0;
    while i < attrs.len()
        invariant
            i <= attrs@.len(),
            spec_attrs(el, attrs@, 0, spec_attrs_init()) == spec_attrs(
                el,
                attrs@,
                i as nat,
                a.deep_view(),
            ),
        decreases attrs@.len() - i,
    {
        attr_step(el, &mut a, &attrs[i])?;
        i = i + 1;
    }
    Ok(a)
}

/// The element that a start tag named `name` opens inside `el`.
fn child_kind(el: Element, name: &[u8]) -> (r: Option<Element>)
    ensures
        r == spec_child_kind(el, name@),
{
    match word_of(name) {
        Some(Word::Description) if !matches!(el, Element::Copyright | Element::Description) => Some(
            Element::Description,
        ),
        Some(Word::Copyright) if matches!(el, Element::Protocol) => Some(Element::Copyright),
        Some(Word::Interface) if matches!(el, Element::Protocol) => Some(Element::Interface),
        Some(Word::Request) if matches!(el, Element::Interface) => Some(Element::Request),
        Some(Word::Event) if matches!(el, Element::Interface) => Some(Element::Event),
        Some(Word::Enum) if matches!(el, Element::Interface) => Some(Element::Enum),
        Some(Word::Arg) if is_message(el) => Some(Element::Arg),
        Some(Word::Entry) if matches!(el, Element::Enum) => Some(Element::Entry),
        _ => None,
    }
}

fn allows_comment(el: Element) -> (r: bool)
    ensures
        r == spec_allows_comment(el),
{
    !matches!(el, Element::Copyright | Element::Entry | Element::Arg)
}

fn is_duplicate(c: &Children, k: Element) -> (r: bool)
    ensures
        r == spec_is_duplicate(c.deep_view(), k),
{
    match k {
        Element::Copyright => c.copyright.is_some(),
        Element::Description => c.description.is_some(),
        _ => false,
    }
}

fn child_index(c: &Children, k: Element) -> (r: usize)
    ensures
        r == spec_child_index(c.deep_view(), k),
{
    match k {
        Element::Request => c.requests.len(),
        Element::Event => c.events.len(),
        _ => 0,
    }
}

/// Record the child `node` of kind `k`.
fn add_child(c: &mut Children, k: Element, node: Node)
    ensures
        final(c).deep_view() == spec_add_child(old(c).deep_view(), k, node.deep_view()),
{
    let ghost before = c.deep_view();
    match node {
        Node::Copyright(x) => {
            c.copyright = Some(x);
        },
        Node::Description(x) => {
            c.description = Some(x);
        },
        Node::Interface(x) => {
            let ghost xv = x.deep_view();
            c.interfaces.push(x);
            assert(c.interfaces.deep_view() =~= before.interfaces.push(xv));
        },
        Node::Message(x) => {
            let ghost xv = x.deep_view();
            if matches!(k, Element::Request) {
                c.requests.push(x);
                assert(c.requests.deep_view() =~= before.requests.push(xv));
            } else {
                c.events.push(x);
                assert(c.events.deep_view() =~= before.events.push(xv));
            }
        },
        Node::Enum(x) => {
            let ghost xv = x.deep_view();
            c.enums.push(x);
            assert(c.enums.deep_view() =~= before.enums.push(xv));
        },
        Node::Entry(x) => {
            let ghost xv = x.deep_view();
            c.entries.push(x);
            assert(c.entries.deep_view() =~= before.entries.push(xv));
        },
        Node::Arg(x) => {
            let ghost xv = x.deep_view();
            c.args.push(x);
            assert(c.args.deep_view() =~= before.args.push(xv));
        },
        Node::Protocol(_) => {},
    }
}

/// Record the text `t`.
fn add_text(c: &mut Children, t: &str)
    ensures
        final(c).deep_view() == spec_add_text(old(c).deep_view(), t@),
{
    let mut content = match c.content.take() {
        Some(x) => x,
        None => {
            let e = String::new();
            assert(e@ =~= Seq::<char>::empty());
            e
        },
    };
    let ghost before = content@;
    content.append(t);
    c.content = Some(content);
    proof {
        assert(before + t@ == c.content->0@);
        if old(c).content is None {
            assert(before + t@ =~= t@);
        }
    }
}

/// The type of an argument from its `type` attribute and the attributes
/// that qualify it.
fn arg_type(kind: TypeKind, a: Attrs) -> (r: Type)
    ensures
        r.deep_view() == spec_arg_type(kind, a.deep_view()),
{
    match kind {
        TypeKind::Int => Type::Int { enu: a.enu },
        TypeKind::Uint => Type::Uint { enu: a.enu },
        TypeKind::Fixed => Type::Fixed,
        TypeKind::String => Type::String { nullable: a.allow_null },
        TypeKind::Object => Type::Object { interface: a.interface, nullable: a.allow_null },
        TypeKind::NewId => Type::NewId { interface: a.interface },
        TypeKind::Array => Type::Array,
        TypeKind::Fd => Type::Fd,
    }
}

/// What an element yields from its attributes and children.
fn finish(el: Element, a: Attrs, c: Children, index: usize) -> (r: Result<Node, XmlError>)
    ensures
        match spec_finish(el, a.deep_view(), c.deep_view(), index as nat) {
            Ok(v) => r matches Ok(n) && n.deep_view() == v,
            Err(e) => r matches Err(e2) && e2 == e,
        },
{
    match el {
        Element::Protocol => {
            if c.interfaces.len() == 0 {
                return Err(XmlError::NoInterfaces);
            }
            match a.name {
                Some(name) => Ok(
                    Node::Protocol(
                        Protocol {
                            name,
                            copyright: c.copyright,
                            description: c.description,
                            interfaces: c.interfaces,
                        },
                    ),
                ),
                None => Err(XmlError::MissingAttribute),
            }
        },
        Element::Copyright => match c.content {
            Some(content) => Ok(Node::Copyright(Copyright { content })),
            None => Err(XmlError::MissingContent),
        },
        Element::Interface => {
            if c.requests.len() == 0 && c.events.len() == 0 && c.enums.len() == 0 {
                return Err(XmlError::EmptyInterface);
            }
            match (a.name, a.version) {
                (Some(name), Some(version)) => Ok(
                    Node::Interface(
                        Interface {
                            name,
                            version,
                            frozen: false,
                            description: c.description,
                            requests: c.requests,
                            events: c.events,
                            enums: c.enums,
                        },
                    ),
                ),
                _ => Err(XmlError::MissingAttribute),
            }
        },
        Element::Request | Element::Event => match a.name {
            Some(name) => Ok(
                Node::Message(
                    Message {
                        name,
                        destructor: a.destructor,
                        since: a.since,
                        deprecated_since: a.deprecated_since,
                        description: c.description,
                        args: c.args,
                        opcode: index as u16,
                    },
                ),
            ),
            None => Err(XmlError::MissingAttribute),
        },
        Element::Enum => match a.name {
            Some(name) => Ok(
                Node::Enum(
                    Enum {
                        name,
                        since: a.since,
                        bitfield: a.bitfield,
                        description: c.description,
                        entries: c.entries,
                    },
                ),
            ),
            None => Err(XmlError::MissingAttribute),
        },
        Element::Entry => match (a.name, a.value) {
            (Some(name), Some(value)) => Ok(
                Node::Entry(
                    Entry {
                        name,
                        value,
                        summary: a.summary,
                        since: a.since,
                        deprecated_since: a.deprecated_since,
                        description: c.description,
                    },
                ),
            ),
            _ => Err(XmlError::MissingAttribute),
        },
        Element::Arg => {
            match a.kind {
                Some(kind) => match a.name {
                    Some(ref name) => {
                        let name = name.clone();
                        let summary = a.summary.clone();
                        let typ = arg_type(kind, a);
                        Ok(Node::Arg(Arg { name, summary, description: c.description, typ }))
                    },
                    None => Err(XmlError::MissingAttribute),
                },
                None => Err(XmlError::MissingAttribute),
            }
        },
        Element::Description => match a.summary {
            Some(summary) => Ok(Node::Description(Description { summary, content: c.content })),
            None => Err(XmlError::MissingAttribute),
        },
    }
}

/// The outcome of reading an element agrees with the specification.
pub open spec fn node_outcome(
    spec: Result<(NodeView, int), XmlError>,
    r: Result<(Node, usize), XmlError>,
) -> bool {
    match spec {
        Ok((v, p)) => r matches Ok((n, q)) && n.deep_view() == v && q as int == p,
        Err(e) => r matches Err(e2) && e2 == e,
    }
}

/// An element with no child read yet.
fn children_init() -> (c: Children)
    ensures
        c.deep_view() == spec_children_init(),
{
    let c = Children {
        copyright: None,
        description: None,
        interfaces: Vec::new(),
        requests: Vec::new(),
        events: Vec::new(),
        enums: Vec::new(),
        entries: Vec::new(),
        args: Vec::new(),
        content: None,
    };
    proof {
        assert(c.interfaces.deep_view() =~= Seq::<InterfaceView>::empty());
        assert(c.requests.deep_view() =~= Seq::<MessageView>::empty());
        assert(c.events.deep_view() =~= Seq::<MessageView>::empty());
        assert(c.enums.deep_view() =~= Seq::<EnumView>::empty());
        assert(c.entries.deep_view() =~= Seq::<EntryView>::empty());
        assert(c.args.deep_view() =~= Seq::<ArgView>::empty());
    }
    c
}

/// Read the children of `el` from event `pos` on, up to and with the end
/// tag that closes the start tag named `end`.
fn parse_children(el: Element, ev: &Vec<XmlEvent>, pos: usize, end: &[u8]) -> (r: Result<
    (Children, usize),
    XmlError,
>)
    ensures
        match spec_children(el, ev@, pos as int, end@, spec_children_init()) {
            Ok((v, p)) => r matches Ok((c, q)) && c.deep_view() == v && q as int == p,
            Err(e) => r matches Err(e2) && e2 == e,
        },
    decreases ev@.len() - pos, 1int,
{
    let mut c = children_init();
    let mut p: usize = pos;
    loop
        invariant
            pos <= p,
            spec_children(el, ev@, pos as int, end@, spec_children_init()) == spec_children(
                el,
                ev@,
                p as int,
                end@,
                c.deep_view(),
            ),
        decreases ev@.len() - p,
    {
        if p >= ev.len() {
            return Err(XmlError::UnexpectedEvent);
        }
        match &ev[p] {
            XmlEvent::End(name) => {
                if bytes_eq(name.as_slice(), end) {
                    return Ok((c, p + 1));
                } else {
                    return Err(XmlError::UnexpectedEvent);
                }
            },
            XmlEvent::Comment => {
                if allows_comment(el) {
                    p = p + 1;
                } else {
                    return Err(XmlError::UnexpectedEvent);
                }
            },
            XmlEvent::Text(t) => {
                if matches!(el, Element::Copyright | Element::Description) {
                    let s = utf8_text(t.as_slice())?;
                    add_text(&mut c, s.as_str());
                    p = p + 1;
                } else {
                    return Err(XmlError::UnexpectedEvent);
                }
            },
            XmlEvent::GeneralRef(r) => {
                if matches!(el, Element::Copyright) {
                    let s = utf8_text(r.as_slice())?;
                    match resolve_xml_entity(s.as_str()) {
                        Some(x) => {
                            add_text(&mut c, x);
                            p = p + 1;
                        },
                        None => {
                            return Err(XmlError::UnknownEntity);
                        },
                    }
                } else {
                    return Err(XmlError::UnexpectedEvent);
                }
            },
            XmlEvent::Start(tag) | XmlEvent::Empty(tag) => {
                match child_kind(el, tag.name.as_slice()) {
                    Some(k) => {
                        if is_duplicate(&c, k) {
                            return Err(XmlError::DuplicateElement);
                        }
                        let index = child_index(&c, k);
                        let (node, p2) = parse_element(k, ev, p, index)?;
                        if !(p < p2 && p2 <= ev.len()) {
                            return Err(XmlError::UnexpectedEvent);
                        }
                        add_child(&mut c, k, node);
                        p = p2;
                    },
                    None => {
                        return Err(XmlError::UnexpectedEvent);
                    },
                }
            },
            _ => {
                return Err(XmlError::UnexpectedEvent);
            },
        }
    }
}

/// Read the element `el` whose start tag is event `pos`; `index` is a
/// message's opcode.
fn parse_element(el: Element, ev: &Vec<XmlEvent>, pos: usize, index: usize) -> (r: Result<
    (Node, usize),
    XmlError,
>)
    ensures
        node_outcome(spec_element(el, ev@, pos as int, index as nat), r),
    decreases ev@.len() - pos, 0int,
{
    if pos >= ev.len() {
        return Err(XmlError::UnexpectedEvent);
    }
    match &ev[pos] {
        XmlEvent::Start(tag) => {
            let a = parse_attrs(el, &tag.attributes)?;
            if tag.malformed {
                return Err(XmlError::MalformedAttribute);
            }
            let (c, p2) = parse_children(el, ev, pos + 1, tag.name.as_slice())?;
            let node = finish(el, a, c, index)?;
            Ok((node, p2))
        },
        XmlEvent::Empty(tag) => {
            let a = parse_attrs(el, &tag.attributes)?;
            if tag.malformed {
                return Err(XmlError::MalformedAttribute);
            }
            let node = finish(el, a, children_init(), index)?;
            Ok((node, pos + 1))
        },
        _ => Err(XmlError::UnexpectedEvent),
    }
}

/// Read a document's protocols from its events (see [`spec_document`]).
pub fn from_events(ev: &Vec<XmlEvent>) -> (r: Result<Vec<Protocol>, XmlError>)
    ensures
        match spec_document(ev@, 0, Seq::empty()) {
            Ok(v) => r matches Ok(ps) && ps.deep_view() == v,
            Err(e) => r matches Err(e2) && e2 == e,
        },
{
    let mut protocols: Vec<Protocol> = Vec::new();
    let mut p: usize = 0;
    assert(protocols.deep_view() =~= Seq::<ProtocolView>::empty());
    loop
        invariant
            spec_document(ev@, 0, Seq::empty()) == spec_document(
                ev@,
                p as int,
                protocols.deep_view(),
            ),
        decreases ev@.len() - p,
    {
        if p >= ev.len() {
            return Err(XmlError::UnexpectedEvent);
        }
        match &ev[p] {
            XmlEvent::Decl => {
                p = p + 1;
            },
            XmlEvent::Start(tag) | XmlEvent::Empty(tag) => {
                if !is_word(tag.name.as_slice(), Word::Protocol) {
                    return Err(XmlError::UnexpectedEvent);
                }
                let (node, p2) = parse_element(Element::Protocol, ev, p, 0)?;
                match node {
                    Node::Protocol(x) => {
                        if !(p < p2 && p2 <= ev.len()) {
                            return Err(XmlError::UnexpectedEvent);
                        }
                        let ghost before = protocols.deep_view();
                        let ghost xv = x.deep_view();
                        protocols.push(x);
                        assert(protocols.deep_view() =~= before.push(xv));
                        p = p2;
                    },
                    _ => {
                        return Err(XmlError::UnexpectedEvent);
                    },
                }
            },
            XmlEvent::Eof => {
                return Ok(protocols);
            },
            _ => {
                return Err(XmlError::UnexpectedEvent);
            },
        }
    }
}

/// Read the protocols of an XML document: the events the reader gives
/// over its bytes (see [`spec_tokens`]), then the protocols they describe
/// (see [`spec_document`]); `Syntax` where the reader refuses the text.
pub fn from_reader(bytes: &[u8]) -> (r: Result<Vec<Protocol>, XmlError>)
    ensures
        spec_lex_end(bytes@, 0) is None ==> r == Err::<Vec<Protocol>, XmlError>(XmlError::Syntax),
        r matches Ok(ps) ==> exists|ev: Seq<XmlEvent>|
            #[trigger] spec_tokens(bytes@, ev) && spec_document(ev, 0, Seq::empty()) == Ok::<
                Seq<ProtocolView>,
                XmlError,
            >(ps.deep_view()),
        r matches Err(e) ==> spec_lex_end(bytes@, 0) is None || exists|ev: Seq<XmlEvent>|
            #[trigger] spec_tokens(bytes@, ev) && spec_document(ev, 0, Seq::empty()) == Err::<
                Seq<ProtocolView>,
                XmlError,
            >(e),
{
    let events = tokenize(bytes)?;
    let r = from_events(&events);
    proof {
        match &r {
            Ok(ps) => {
                assert(spec_tokens(bytes@, events@) && spec_document(events@, 0, Seq::empty())
                    == Ok::<Seq<ProtocolView>, XmlError>(ps.deep_view()));
            },
            Err(e) => {
                assert(spec_tokens(bytes@, events@) && spec_document(events@, 0, Seq::empty())
                    == Err::<Seq<ProtocolView>, XmlError>(*e));
            },
        }
    }
    r
}

impl Protocol {
    /// Read the `protocol` element whose start tag is `events[start]`: what it
    /// yields and the position after its end tag (see [`spec_element`]).
    pub fn from_reader(events: &Vec<XmlEvent>, start: usize) -> (r: Result<(Protocol, usize), XmlError>)
        ensures
            match spec_element(Element::Protocol, events@, start as int, 0) {
                Ok((NodeView::Protocol(v), p)) => r matches Ok((x, q)) && x.deep_view() == v && q as int == p,
                Ok(_) => r matches Err(XmlError::UnexpectedEvent),
                Err(e) => r matches Err(e2) && e2 == e,
            },
    {
        let (node, p) = parse_element(Element::Protocol, events, start, 0)?;
        match node {
            Node::Protocol(x) => Ok((x, p)),
            _ => Err(XmlError::UnexpectedEvent),
        }
    }
}

impl Copyright {
    /// Read the `copyright` element whose start tag is `events[start]`: what it
    /// yields and the position after its end tag (see [`spec_element`]).
    pub fn from_reader(events: &Vec<XmlEvent>, start: usize) -> (r: Result<(Copyright, usize), XmlError>)
        ensures
            match spec_element(Element::Copyright, events@, start as int, 0) {
                Ok((NodeView::Copyright(v), p)) => r matches Ok((x, q)) && x.deep_view() == v && q as int == p,
                Ok(_) => r matches Err(XmlError::UnexpectedEvent),
                Err(e) => r matches Err(e2) && e2 == e,
            },
    {
        let (node, p) = parse_element(Element::Copyright, events, start, 0)?;
        match node {
            Node::Copyright(x) => Ok((x, p)),
            _ => Err(XmlError::UnexpectedEvent),
        }
    }
}

impl Interface {
    /// Read the `interface` element whose start tag is `events[start]`: what it
    /// yields and the position after its end tag (see [`spec_element`]).
    pub fn from_reader(events: &Vec<XmlEvent>, start: usize) -> (r: Result<(Interface, usize), XmlError>)
        ensures
            match spec_element(Element::Interface, events@, start as int, 0) {
                Ok((NodeView::Interface(v), p)) => r matches Ok((x, q)) && x.deep_view() == v && q as int == p,
                Ok(_) => r matches Err(XmlError::UnexpectedEvent),
                Err(e) => r matches Err(e2) && e2 == e,
            },
    {
        let (node, p) = parse_element(Element::Interface, events, start, 0)?;
        match node {
            Node::Interface(x) => Ok((x, p)),
            _ => Err(XmlError::UnexpectedEvent),
        }
    }
}

impl Enum {
    /// Read the `enum` element whose start tag is `events[start]`: what it
    /// yields and the position after its end tag (see [`spec_element`]).
    pub fn from_reader(events: &Vec<XmlEvent>, start: usize) -> (r: Result<(Enum, usize), XmlError>)
        ensures
            match spec_element(Element::Enum, events@, start as int, 0) {
                Ok((NodeView::Enum(v), p)) => r matches Ok((x, q)) && x.deep_view() == v && q as int == p,
                Ok(_) => r matches Err(XmlError::UnexpectedEvent),
                Err(e) => r matches Err(e2) && e2 == e,
            },
    {
        let (node, p) = parse_element(Element::Enum, events, start, 0)?;
        match node {
            Node::Enum(x) => Ok((x, p)),
            _ => Err(XmlError::UnexpectedEvent),
        }
    }
}

impl Entry {
    /// Read the `entry` element whose start tag is `events[start]`: what it
    /// yields and the position after its end tag (see [`spec_element`]).
    pub fn from_reader(events: &Vec<XmlEvent>, start: usize) -> (r: Result<(Entry, usize), XmlError>)
        ensures
            match spec_element(Element::Entry, events@, start as int, 0) {
                Ok((NodeView::Entry(v), p)) => r matches Ok((x, q)) && x.deep_view() == v && q as int == p,
                Ok(_) => r matches Err(XmlError::UnexpectedEvent),
                Err(e) => r matches Err(e2) && e2 == e,
            },
    {
        let (node, p) = parse_element(Element::Entry, events, start, 0)?;
        match node {
            Node::Entry(x) => Ok((x, p)),
            _ => Err(XmlError::UnexpectedEvent),
        }
    }
}

impl Arg {
    /// Read the `arg` element whose start tag is `events[start]`: what it
    /// yields and the position after its end tag (see [`spec_element`]).
    pub fn from_reader(events: &Vec<XmlEvent>, start: usize) -> (r: Result<(Arg, usize), XmlError>)
        ensures
            match spec_element(Element::Arg, events@, start as int, 0) {
                Ok((NodeView::Arg(v), p)) => r matches Ok((x, q)) && x.deep_view() == v && q as int == p,
                Ok(_) => r matches Err(XmlError::UnexpectedEvent),
                Err(e) => r matches Err(e2) && e2 == e,
            },
    {
        let (node, p) = parse_element(Element::Arg, events, start, 0)?;
        match node {
            Node::Arg(x) => Ok((x, p)),
            _ => Err(XmlError::UnexpectedEvent),
        }
    }
}

impl Description {
    /// Read the `description` element whose start tag is `events[start]`: what it
    /// yields and the position after its end tag (see [`spec_element`]).
    pub fn from_reader(events: &Vec<XmlEvent>, start: usize) -> (r: Result<(Description, usize), XmlError>)
        ensures
            match spec_element(Element::Description, events@, start as int, 0) {
                Ok((NodeView::Description(v), p)) => r matches Ok((x, q)) && x.deep_view() == v && q as int == p,
                Ok(_) => r matches Err(XmlError::UnexpectedEvent),
                Err(e) => r matches Err(e2) && e2 == e,
            },
    {
        let (node, p) = parse_element(Element::Description, events, start, 0)?;
        match node {
            Node::Description(x) => Ok((x, p)),
            _ => Err(XmlError::UnexpectedEvent),
        }
    }
}

/// The element that a message's start tag opens: an event where the tag
/// is named `event`, a request otherwise.
pub open spec fn spec_message_element(events: Seq<XmlEvent>, start: int) -> Element {
    if 0 <= start < events.len() && (events[start] matches XmlEvent::Start(tag) && tag.name@
        == spec_word_bytes(Word::Event)) {
        Element::Event
    } else {
        Element::Request
    }
}

impl Message {
    /// Read the message element whose start tag is `events[start]`, up to
    /// the end tag that closes it, as the message with the given opcode:
    /// an event where the tag is named `event`, a request otherwise. Gives
    /// the message and the position after its end (see [`spec_element`]).
    pub fn from_reader(events: &Vec<XmlEvent>, start: usize, opcode: u16) -> (r: Result<
        (Message, usize),
        XmlError,
    >)
        ensures
            match spec_element(spec_message_element(events@, start as int), events@, start as int, opcode as nat) {
                Ok((NodeView::Message(v), p)) => r matches Ok((x, q)) && x.deep_view() == v && q as int == p,
                Ok(_) => r matches Err(XmlError::UnexpectedEvent),
                Err(e) => r matches Err(e2) && e2 == e,
            },
    {
        let el = if start < events.len() {
            match &events[start] {
                XmlEvent::Start(tag) => if is_word(tag.name.as_slice(), Word::Event) {
                    Element::Event
                } else {
                    Element::Request
                },
                _ => Element::Request,
            }
        } else {
            Element::Request
        };
        let (node, p) = parse_element(el, events, start, opcode as usize)?;
        match node {
            Node::Message(x) => Ok((x, p)),
            _ => Err(XmlError::UnexpectedEvent),
        }
    }
}

} // verus!
