//! The parts of a generated protocol module, each with the text of the
//! identifiers and paths it emits.

use vstd::prelude::*;

use crate::scanner::generator::{
    is_rust_ident, path_tail, spec_is_rust_ident, spec_last_segment, spec_second_last_segment,
    spec_variant_name, text_of, variant_name,
};
use crate::scanner::typ::{Type, TypeContext};
use crate::scanner::util::{push_str, snake_to_camel, spec_snake_to_camel, string_push};
use crate::xml::schema;

verus! {

/// An argument as a field or a parameter.
#[derive(Debug, Clone)]
pub struct ArgField<'a> {
    pub arg: &'a schema::Arg,
    pub ctx: TypeContext,
}

impl ArgField<'_> {
    /// The text of the field's identifier: the argument's name.
    pub fn name(&self) -> (r: String)
        ensures
            r@ == self.arg.name@,
    {
        text_of(self.arg.name.as_str())
    }

    pub fn typ(&self) -> (r: Type<'_>)
        ensures
            *r.typ == self.arg.typ,
            r.ctx == self.ctx,
    {
        Type { typ: &self.arg.typ, ctx: self.ctx }
    }
}

/// An enumeration.
#[derive(Debug, Clone)]
pub struct Enum<'a>(pub &'a schema::Enum);

/// The path of an enumeration named by a dotted path, from within an
/// interface module: through the protocol root where the path names an
/// interface, through the interface root otherwise.
pub open spec fn spec_enum_path(wl_path: Seq<char>) -> Seq<char> {
    let name = spec_snake_to_camel(spec_last_segment(wl_path));
    match spec_second_last_segment(wl_path) {
        Some(iface) => "__protocol_root::"@ + iface + "::"@ + name,
        None => "__interface_root::"@ + name,
    }
}

impl Enum<'_> {
    pub fn format_name(wl_name: &str) -> (r: String)
        ensures
            r@ == spec_snake_to_camel(wl_name@),
    {
        snake_to_camel(wl_name)
    }

    /// The text of the path of the enumeration `wl_path` (see
    /// [`spec_enum_path`]).
    pub fn resolve_path(wl_path: &str) -> (r: String)
        requires
            wl_path@.len() < i64::MAX,
        ensures
            r@ == spec_enum_path(wl_path@),
    {
        let (iface, last) = path_tail(wl_path);
        let enum_name = Self::format_name(last);
        let mut path = String::new();
        match iface {
            Some(iface) => {
                push_str(&mut path, "__protocol_root::");
                push_str(&mut path, iface);
                push_str(&mut path, "::");
                push_str(&mut path, enum_name.as_str());
                assert(path@ =~= "__protocol_root::"@ + iface@ + "::"@ + enum_name@);
            },
            None => {
                push_str(&mut path, "__interface_root::");
                push_str(&mut path, enum_name.as_str());
                assert(path@ =~= "__interface_root::"@ + enum_name@);
            },
        }
        path
    }

    pub fn name(&self) -> (r: String)
        ensures
            r@ == spec_snake_to_camel(self.0.name@),
    {
        Self::format_name(self.0.name.as_str())
    }

    /// The entries of the enumeration, in order.
    pub fn entries(&self) -> (r: Vec<Variant<'_>>)
        ensures
            r@.len() == self.0.entries@.len(),
            forall|i: int| 0 <= i < r@.len() ==> *(#[trigger] r@[i]).0 == self.0.entries@[i],
    {
        let items = &self.0.entries;
        let mut r: Vec<Variant<'_>> = Vec::new();
        let mut i: usize = 0;
        while i < items.len()
            invariant
                i <= items@.len(),
                r@.len() == i,
                forall|j: int| 0 <= j < i ==> *(#[trigger] r@[j]).0 == items@[j],
            decreases items@.len() - i,
        {
            r.push(Variant(&items[i]));
            i = i + 1;
        }
        r
    }
}

/// An entry of an enumeration.
#[derive(Debug, Clone)]
pub struct Variant<'a>(pub &'a schema::Entry);

impl Variant<'_> {
    /// The text of the variant's identifier (see [`spec_variant_name`]).
    pub fn name(&self) -> (r: String)
        requires
            spec_snake_to_camel(self.0.name@).len() > 0,
        ensures
            r@ == spec_variant_name(self.0.name@),
    {
        variant_name(self.0.name.as_str())
    }
}

/// The module of an interface.
#[derive(Debug, Clone)]
pub struct InterfaceModule<'a>(pub &'a schema::Interface);

impl InterfaceModule<'_> {
    pub fn format_name(wl_name: &str) -> (r: String)
        ensures
            r@ == wl_name@,
    {
        text_of(wl_name)
    }

    pub fn name(&self) -> (r: String)
        ensures
            r@ == self.0.name@,
    {
        Self::format_name(self.0.name.as_str())
    }
}

/// The struct of an interface.
#[derive(Debug, Clone)]
pub struct InterfaceStruct<'a>(pub &'a schema::Interface);

/// The path of the struct of the interface `wl_path`, through the
/// protocol root.
pub open spec fn spec_interface_struct_path(wl_path: Seq<char>) -> Seq<char> {
    "__protocol_root::"@ + wl_path + "::"@ + spec_snake_to_camel(wl_path)
}

impl InterfaceStruct<'_> {
    pub fn format_name(wl_name: &str) -> (r: String)
        ensures
            r@ == spec_snake_to_camel(wl_name@),
    {
        snake_to_camel(wl_name)
    }

    /// The text of the path of the interface struct (see
    /// [`spec_interface_struct_path`]).
    pub fn resolve_path(wl_path: &str) -> (r: String)
        ensures
            r@ == spec_interface_struct_path(wl_path@),
    {
        let module = InterfaceModule::format_name(wl_path);
        let name = InterfaceStruct::format_name(wl_path);
        let mut path = String::new();
        push_str(&mut path, "__protocol_root::");
        push_str(&mut path, module.as_str());
        push_str(&mut path, "::");
        push_str(&mut path, name.as_str());
        assert(path@ =~= "__protocol_root::"@ + wl_path@ + "::"@ + name@);
        path
    }

    pub fn name(&self) -> (r: String)
        ensures
            r@ == spec_snake_to_camel(self.0.name@),
    {
        Self::format_name(self.0.name.as_str())
    }
}

/// The struct of a message.
#[derive(Debug, Clone)]
pub struct MessageStruct<'a> {
    pub msg: &'a schema::Message,
    pub request: bool,
}

impl MessageStruct<'_> {
    pub fn format_name(wl_name: &str) -> (r: String)
        ensures
            r@ == spec_snake_to_camel(wl_name@),
    {
        snake_to_camel(wl_name)
    }

    pub fn name(&self) -> (r: String)
        ensures
            r@ == spec_snake_to_camel(self.msg.name@),
    {
        Self::format_name(self.msg.name.as_str())
    }
}

/// The module of a protocol.
#[derive(Debug, Clone)]
pub struct Protocol<'a>(pub &'a schema::Protocol);

impl Protocol<'_> {
    pub fn name(&self) -> (r: String)
        ensures
            r@ == self.0.name@,
    {
        text_of(self.0.name.as_str())
    }
}

/// The function that sends a request.
#[derive(Debug, Clone)]
pub struct RequestFunction<'a>(pub &'a schema::Message);

/// The text of a request function's identifier: the request's name,
/// followed by an underscore where the name is not an identifier (a
/// keyword).
pub open spec fn spec_request_function_name(name: Seq<char>) -> Seq<char> {
    if spec_is_rust_ident(name) {
        name
    } else {
        name.push('_')
    }
}

impl RequestFunction<'_> {
    pub fn name(&self) -> (r: String)
        ensures
            r@ == spec_request_function_name(self.0.name@),
    {
        let mut name = text_of(self.0.name.as_str());
        if !is_rust_ident(self.0.name.as_str()) {
            string_push(&mut name, '_');
        }
        name
    }
}

} // verus!
