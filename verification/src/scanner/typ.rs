//! The type of an argument as the generator writes it, in a struct field
//! or in a function parameter.

use vstd::prelude::*;

use crate::xml::schema;

verus! {

/// Where a type is written.
#[derive(Debug, Clone, Copy)]
pub enum TypeContext {
    /// A field of a message struct; `request` is false for an event.
    Struct { request: bool, lifetime: &'static str },
    /// A parameter of a request function.
    Function,
}

#[derive(Debug, Clone)]
pub struct Type<'a> {
    pub typ: &'a schema::Type,
    pub ctx: TypeContext,
}

/// The lifetime that the written type takes: the struct's lifetime for a
/// string or an array field, and for a file descriptor field of a request.
pub open spec fn spec_type_lifetime(typ: schema::Type, ctx: TypeContext) -> Option<&'static str> {
    match ctx {
        TypeContext::Struct { request, lifetime } => if typ is String || typ is Array || (
        typ is Fd && request) {
            Some(lifetime)
        } else {
            None
        },
        TypeContext::Function => None,
    }
}

impl<'a> Type<'a> {
    /// The text of the lifetime that the written type takes (see
    /// [`spec_type_lifetime`]).
    pub fn lifetime(&self) -> (r: Option<&'static str>)
        ensures
            r == spec_type_lifetime(*self.typ, self.ctx),
    {
        match self.typ {
            schema::Type::String { .. } => match self.ctx {
                TypeContext::Struct { lifetime, .. } => Some(lifetime),
                _ => None,
            },
            schema::Type::Array => match self.ctx {
                TypeContext::Struct { lifetime, .. } => Some(lifetime),
                _ => None,
            },
            schema::Type::Fd => match self.ctx {
                TypeContext::Struct { request, lifetime } => if request {
                    Some(lifetime)
                } else {
                    None
                },
                _ => None,
            },
            _ => None,
        }
    }
}

/// A string or array field borrows with its struct's lifetime, in a
/// request and in an event alike; a file descriptor field borrows only in
/// a request (an event owns its descriptor); no other field, and no
/// function parameter, takes the struct's lifetime.
pub proof fn lemma_field_lifetimes(typ: schema::Type, request: bool, lifetime: &'static str)
    ensures
        (typ is String || typ is Array) ==> spec_type_lifetime(
            typ,
            TypeContext::Struct { request, lifetime },
        ) == Some(lifetime),
        typ is Fd ==> (spec_type_lifetime(typ, TypeContext::Struct { request, lifetime })
            is Some <==> request),
        !(typ is String || typ is Array || typ is Fd) ==> spec_type_lifetime(
            typ,
            TypeContext::Struct { request, lifetime },
        ) is None,
        spec_type_lifetime(typ, TypeContext::Function) is None,
{
}

} // verus!
