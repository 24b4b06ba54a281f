//! The code generator's view of a protocol description: each part with a
//! link to the part that holds it.

use vstd::prelude::*;

use crate::xml::schema;

verus! {

/// Whether a message is a request or an event.
#[derive(Debug, Clone, Copy, PartialEq, Eq)]
pub enum MessageType {
    Request,
    Event,
}

#[derive(Debug, Clone, Copy)]
pub struct Protocol<'a> {
    pub it: &'a schema::Protocol,
}

impl<'a> Protocol<'a> {
    pub fn name(&self) -> (r: &'a str)
        ensures
            r@ == self.it.name@,
    {
        self.it.name.as_str()
    }

    pub fn copyright(&self) -> (r: Option<Copyright<'a>>)
        ensures
            r is Some <==> self.it.copyright is Some,
            r matches Some(c) ==> *c.it == self.it.copyright->0 && c.parent == *self,
    {
        match &self.it.copyright {
            Some(it) => Some(Copyright { it, parent: *self }),
            None => None,
        }
    }

    /// The interfaces of the protocol, in order.
    pub fn interfaces(&self) -> (r: Vec<Interface<'a>>)
        ensures
            r@.len() == self.it.interfaces@.len(),
            forall|i: int|
                0 <= i < r@.len() ==> *(#[trigger] r@[i]).it == self.it.interfaces@[i]
                    && r@[i].parent == *self,
    {
        let items = &self.it.interfaces;
        let mut r: Vec<Interface<'a>> = Vec::new();
        let mut i: usize = 0;
        while i < items.len()
            invariant
                items == &self.it.interfaces,
                i <= items@.len(),
                r@.len() == i,
                forall|j: int|
                    0 <= j < i ==> *(#[trigger] r@[j]).it == items@[j] && r@[j].parent == *self,
            decreases items@.len() - i,
        {
            r.push(Interface { it: &items[i], parent: *self });
            i = i + 1;
        }
        r
    }
}

#[derive(Debug, Clone, Copy)]
pub struct Copyright<'a> {
    pub it: &'a schema::Copyright,
    pub parent: Protocol<'a>,
}

impl<'a> Copyright<'a> {
    pub fn protocol(&self) -> (r: Protocol<'a>)
        ensures
            r == self.parent,
    {
        self.parent
    }

    pub fn content(&self) -> (r: &'a str)
        ensures
            r@ == self.it.content@,
    {
        self.it.content.as_str()
    }
}

#[derive(Debug, Clone, Copy)]
pub struct Interface<'a> {
    pub it: &'a schema::Interface,
    pub parent: Protocol<'a>,
}

impl<'a> Interface<'a> {
    pub fn protocol(&self) -> (r: Protocol<'a>)
        ensures
            r == self.parent,
    {
        self.parent
    }

    pub fn name(&self) -> (r: &'a str)
        ensures
            r@ == self.it.name@,
    {
        self.it.name.as_str()
    }

    pub fn version(&self) -> (r: u32)
        ensures
            r == self.it.version,
    {
        self.it.version
    }

    /// The requests of the interface, in order.
    pub fn requests(&self) -> (r: Vec<Message<'a>>)
        ensures
            r@.len() == self.it.requests@.len(),
            forall|i: int|
                0 <= i < r@.len() ==> *(#[trigger] r@[i]).it == self.it.requests@[i]
                    && r@[i].parent == *self && r@[i].ctx == MessageType::Request,
    {
        self.messages(&self.it.requests, MessageType::Request)
    }

    /// The events of the interface, in order.
    pub fn events(&self) -> (r: Vec<Message<'a>>)
        ensures
            r@.len() == self.it.events@.len(),
            forall|i: int|
                0 <= i < r@.len() ==> *(#[trigger] r@[i]).it == self.it.events@[i]
                    && r@[i].parent == *self && r@[i].ctx == MessageType::Event,
    {
        self.messages(&self.it.events, MessageType::Event)
    }

    fn messages(&self, items: &'a Vec<schema::Message>, ctx: MessageType) -> (r: Vec<Message<'a>>)
        ensures
            r@.len() == items@.len(),
            forall|i: int|
                0 <= i < r@.len() ==> *(#[trigger] r@[i]).it == items@[i] && r@[i].parent
                    == *self && r@[i].ctx == ctx,
    {
        let mut r: Vec<Message<'a>> = Vec::new();
        let mut i: usize = 0;
        while i < items.len()
            invariant
                i <= items@.len(),
                r@.len() == i,
                forall|j: int|
                    0 <= j < i ==> *(#[trigger] r@[j]).it == items@[j] && r@[j].parent == *self
                        && r@[j].ctx == ctx,
            decreases items@.len() - i,
        {
            r.push(Message { it: &items[i], parent: *self, ctx });
            i = i + 1;
        }
        r
    }

    /// The enumerations of the interface, in order.
    pub fn enums(&self) -> (r: Vec<Enumeration<'a>>)
        ensures
            r@.len() == self.it.enums@.len(),
            forall|i: int|
                0 <= i < r@.len() ==> *(#[trigger] r@[i]).it == self.it.enums@[i]
                    && r@[i].parent == *self,
    {
        let items = &self.it.enums;
        let mut r: Vec<Enumeration<'a>> = Vec::new();
        let mut i: usize = 0;
        while i < items.len()
            invariant
                items == &self.it.enums,
                i <= items@.len(),
                r@.len() == i,
                forall|j: int|
                    0 <= j < i ==> *(#[trigger] r@[j]).it == items@[j] && r@[j].parent == *self,
            decreases items@.len() - i,
        {
            r.push(Enumeration { it: &items[i], parent: *self });
            i = i + 1;
        }
        r
    }
}

#[derive(Debug, Clone, Copy)]
pub struct Message<'a> {
    pub it: &'a schema::Message,
    pub parent: Interface<'a>,
    pub ctx: MessageType,
}

impl<'a> Message<'a> {
    pub fn protocol(&self) -> (r: Protocol<'a>)
        ensures
            r == self.parent.parent,
    {
        self.parent.parent
    }

    pub fn interface(&self) -> (r: Interface<'a>)
        ensures
            r == self.parent,
    {
        self.parent
    }

    pub fn name(&self) -> (r: &'a str)
        ensures
            r@ == self.it.name@,
    {
        self.it.name.as_str()
    }

    pub fn destructor(&self) -> (r: bool)
        ensures
            r == self.it.destructor,
    {
        self.it.destructor
    }

    pub fn since(&self) -> (r: u32)
        ensures
            r == self.it.since,
    {
        self.it.since
    }

    pub fn deprecated_since(&self) -> (r: Option<u32>)
        ensures
            r == self.it.deprecated_since,
    {
        self.it.deprecated_since
    }

    /// The arguments of the message, in order.
    pub fn args(&self) -> (r: Vec<Arg<'a>>)
        ensures
            r@.len() == self.it.args@.len(),
            forall|i: int|
                0 <= i < r@.len() ==> *(#[trigger] r@[i]).it == self.it.args@[i]
                    && r@[i].parent == *self,
    {
        let items = &self.it.args;
        let mut r: Vec<Arg<'a>> = Vec::new();
        let mut i: usize = 0;
        while i < items.len()
            invariant
                items == &self.it.args,
                i <= items@.len(),
                r@.len() == i,
                forall|j: int|
                    0 <= j < i ==> *(#[trigger] r@[j]).it == items@[j] && r@[j].parent == *self,
            decreases items@.len() - i,
        {
            r.push(Arg { it: &items[i], parent: *self });
            i = i + 1;
        }
        r
    }

    pub fn opcode(&self) -> (r: u16)
        ensures
            r == self.it.opcode,
    {
        self.it.opcode
    }
}

#[derive(Debug, Clone, Copy)]
pub struct Enumeration<'a> {
    pub it: &'a schema::Enum,
    pub parent: Interface<'a>,
}

impl<'a> Enumeration<'a> {
    pub fn protocol(&self) -> (r: Protocol<'a>)
        ensures
            r == self.parent.parent,
    {
        self.parent.parent
    }

    pub fn interface(&self) -> (r: Interface<'a>)
        ensures
            r == self.parent,
    {
        self.parent
    }

    pub fn name(&self) -> (r: &'a str)
        ensures
            r@ == self.it.name@,
    {
        self.it.name.as_str()
    }

    pub fn since(&self) -> (r: u32)
        ensures
            r == self.it.since,
    {
        self.it.since
    }

    pub fn bitfield(&self) -> (r: bool)
        ensures
            r == self.it.bitfield,
    {
        self.it.bitfield
    }

    /// The entries of the enumeration, in order.
    pub fn entries(&self) -> (r: Vec<Entry<'a>>)
        ensures
            r@.len() == self.it.entries@.len(),
            forall|i: int|
                0 <= i < r@.len() ==> *(#[trigger] r@[i]).it == self.it.entries@[i]
                    && r@[i].parent == *self,
    {
        let items = &self.it.entries;
        let mut r: Vec<Entry<'a>> = Vec::new();
        let mut i: usize = 0;
        while i < items.len()
            invariant
                items == &self.it.entries,
                i <= items@.len(),
                r@.len() == i,
                forall|j: int|
                    0 <= j < i ==> *(#[trigger] r@[j]).it == items@[j] && r@[j].parent == *self,
            decreases items@.len() - i,
        {
            r.push(Entry { it: &items[i], parent: *self });
            i = i + 1;
        }
        r
    }
}

#[derive(Debug, Clone, Copy)]
pub struct Entry<'a> {
    pub it: &'a schema::Entry,
    pub parent: Enumeration<'a>,
}

impl<'a> Entry<'a> {
    pub fn protocol(&self) -> (r: Protocol<'a>)
        ensures
            r == self.parent.parent.parent,
    {
        self.parent.parent.parent
    }

    pub fn interface(&self) -> (r: Interface<'a>)
        ensures
            r == self.parent.parent,
    {
        self.parent.parent
    }

    pub fn enu(&self) -> (r: Enumeration<'a>)
        ensures
            r == self.parent,
    {
        self.parent
    }

    pub fn name(&self) -> (r: &'a str)
        ensures
            r@ == self.it.name@,
    {
        self.it.name.as_str()
    }

    pub fn value(&self) -> (r: &'a str)
        ensures
            r@ == self.it.value@,
    {
        self.it.value.as_str()
    }

    pub fn summary(&self) -> (r: Option<&'a str>)
        ensures
            r is Some <==> self.it.summary is Some,
            r matches Some(s) ==> s@ == self.it.summary->0@,
    {
        match &self.it.summary {
            Some(s) => Some(s.as_str()),
            None => None,
        }
    }

    pub fn since(&self) -> (r: u32)
        ensures
            r == self.it.since,
    {
        self.it.since
    }

    pub fn deprecated_since(&self) -> (r: Option<u32>)
        ensures
            r == self.it.deprecated_since,
    {
        self.it.deprecated_since
    }
}

#[derive(Debug, Clone, Copy)]
pub struct Arg<'a> {
    pub it: &'a schema::Arg,
    pub parent: Message<'a>,
}

impl<'a> Arg<'a> {
    pub fn protocol(&self) -> (r: Protocol<'a>)
        ensures
            r == self.parent.parent.parent,
    {
        self.parent.parent.parent
    }

    pub fn interface(&self) -> (r: Interface<'a>)
        ensures
            r == self.parent.parent,
    {
        self.parent.parent
    }

    pub fn message(&self) -> (r: Message<'a>)
        ensures
            r == self.parent,
    {
        self.parent
    }

    pub fn name(&self) -> (r: &'a str)
        ensures
            r@ == self.it.name@,
    {
        self.it.name.as_str()
    }

    pub fn summary(&self) -> (r: Option<&'a str>)
        ensures
            r is Some <==> self.it.summary is Some,
            r matches Some(s) ==> s@ == self.it.summary->0@,
    {
        match &self.it.summary {
            Some(s) => Some(s.as_str()),
            None => None,
        }
    }

    pub fn typ(&self) -> (r: &'a schema::Type)
        ensures
            *r == self.it.typ,
    {
        &self.it.typ
    }
}

} // verus!
