//! A message argument as a plain value, its size on the wire and its
//! encoding.

use vstd::prelude::*;
use vstd::utf8::*;

use crate::primitive::{Fixed, Object};
use crate::wire::{spec_dynamic_wire, spec_str_wire, write_bytes, write_str, write_word, Wire, WireError};
use crate::packing::pad;

verus! {

/// One argument of a message. A file descriptor is carried apart from
/// the words, so only its number is held here.
#[derive(Debug, Clone, Copy, PartialEq, Eq)]
pub enum Argument<'msg> {
    Int(i32),
    Uint(u32),
    Fixed(Fixed),
    String(&'msg str),
    StringNullable(Option<&'msg str>),
    Object(Object),
    ObjectNullable(Option<Object>),
    NewId(Object),
    Array(&'msg [u8]),
    Fd(i32),
}

/// The words that encode an argument.
pub open spec fn spec_argument_wire(arg: Argument) -> Seq<u32> {
    match arg {
        Argument::Int(v) => seq![v as u32],
        Argument::Uint(v) => seq![v],
        Argument::Fixed(v) => seq![v@ as u32],
        Argument::String(s) => spec_str_wire(s@),
        Argument::StringNullable(Some(s)) => spec_str_wire(s@),
        Argument::StringNullable(None) => seq![0u32],
        Argument::Object(o) => seq![o@],
        Argument::ObjectNullable(Some(o)) => seq![o@],
        Argument::ObjectNullable(None) => seq![0u32],
        Argument::NewId(o) => seq![o@],
        Argument::Array(a) => spec_dynamic_wire(a@),
        Argument::Fd(_) => Seq::empty(),
    }
}

/// The argument can be sized: it is not an array (the size of an array is
/// not defined), and a string's bytes fit the machine's sizes.
pub open spec fn spec_argument_supported(arg: Argument) -> bool {
    match arg {
        Argument::Array(_) => false,
        Argument::String(s) => encode_utf8(s@).len() + 8 < usize::MAX,
        Argument::StringNullable(Some(s)) => encode_utf8(s@).len() + 8 < usize::MAX,
        _ => true,
    }
}

/// The argument can be written: its bytes fit the machine's sizes.
pub open spec fn spec_argument_writable(arg: Argument) -> bool {
    match arg {
        Argument::Array(a) => a@.len() + 8 < usize::MAX,
        Argument::String(s) => encode_utf8(s@).len() + 8 < usize::MAX,
        Argument::StringNullable(Some(s)) => encode_utf8(s@).len() + 8 < usize::MAX,
        _ => true,
    }
}

impl Argument<'_> {
    /// Calculate the size in words (u32) needed for this argument.
    pub fn size(self) -> (r: usize)
        requires
            spec_argument_supported(self),
        ensures
            r == spec_argument_wire(self).len(),
    {
        match self {
            Argument::Int(_) | Argument::Uint(_) | Argument::Fixed(_) => 1,
            Argument::Object(_) | Argument::ObjectNullable(_) | Argument::NewId(_) => 1,
            // The length word, then the bytes and the null byte in whole words.
            Argument::String(v) | Argument::StringNullable(Some(v)) => pad(v.len() + 1) + 1,
            Argument::StringNullable(None) => 1,
            Argument::Array(_) => 0,
            // file descriptors do not occupy any space on the main transport.
            Argument::Fd(_) => 0,
        }
    }

    /// Write this argument to the buffer, returning the remaining buffer.
    pub fn write<'buf>(&self, buf: &'buf mut [u32]) -> (rest: &'buf mut [u32])
        requires
            spec_argument_writable(*self),
            spec_argument_wire(*self).len() <= old(buf)@.len(),
        ensures
            rest@ == old(buf)@.skip(spec_argument_wire(*self).len() as int),
            final(buf)@ == spec_argument_wire(*self) + final(rest)@,
    {
        match self {
            Argument::Int(v) => write_word(buf, *v as u32),
            Argument::Uint(v) => write_word(buf, *v),
            Argument::Fixed(v) => write_word(buf, v.to_bits() as u32),
            Argument::String(v) => write_str(buf, v),
            Argument::StringNullable(Some(v)) => write_str(buf, v),
            Argument::StringNullable(None) => write_word(buf, 0),
            Argument::Object(v) => write_word(buf, v.get()),
            Argument::ObjectNullable(Some(v)) => write_word(buf, v.get()),
            Argument::ObjectNullable(None) => write_word(buf, 0),
            Argument::NewId(v) => write_word(buf, v.get()),
            Argument::Array(v) => write_bytes(buf, v),
            // Not sent through the main transport.
            Argument::Fd(_) => {
                assert(buf@.skip(0) =~= buf@);
                buf
            },
        }
    }
}

/// A message that lists its arguments.
pub trait Arguments {
    fn arguments(&self) -> Vec<Argument<'_>>;
}

/// The argument reads back from its words: an object id is not zero, a
/// string holds no null character, and a string's or an array's length
/// fits both the machine's sizes and the 32-bit length word.
pub open spec fn spec_argument_faithful(arg: Argument) -> bool {
    match arg {
        Argument::String(s) => !s@.contains('\0') && encode_utf8(s@).len() + 9 < usize::MAX
            && encode_utf8(s@).len() + 1 <= u32::MAX,
        Argument::StringNullable(Some(s)) => !s@.contains('\0') && encode_utf8(s@).len() + 9
            < usize::MAX && encode_utf8(s@).len() + 1 <= u32::MAX,
        Argument::Object(o) => o@ != 0,
        Argument::ObjectNullable(Some(o)) => o@ != 0,
        Argument::NewId(o) => o@ != 0,
        Argument::Array(a) => a@.len() <= u32::MAX && a@.len() + 8 < usize::MAX,
        _ => true,
    }
}

/// The words an argument is written as, followed by anything, read back
/// through the checked reader of its type as the argument itself, and the
/// reading takes exactly those words: a present nullable object reads as
/// that object, an absent one as none, a string as the same string. A file
/// descriptor takes no words.
pub proof fn lemma_argument_reads_back(arg: Argument, rest: Seq<u32>)
    requires
        spec_argument_faithful(arg),
    ensures
        ({
            let w = spec_argument_wire(arg);
            match arg {
                Argument::Int(v) => <i32 as Wire>::spec_wire_read(w + rest) == Ok::<(nat, i32), WireError>(
                    (w.len(), v),
                ),
                Argument::Uint(v) => <u32 as Wire>::spec_wire_read(w + rest) == Ok::<(nat, u32), WireError>(
                    (w.len(), v),
                ),
                Argument::Fixed(v) => <Fixed as Wire>::spec_wire_read(w + rest) == Ok::<
                    (nat, i32),
                    WireError,
                >((w.len(), v@)),
                Argument::String(s) => <String as Wire>::spec_wire_read(w + rest) == Ok::<
                    (nat, Seq<char>),
                    WireError,
                >((w.len(), s@)),
                Argument::StringNullable(s) => <Option<String> as Wire>::spec_wire_read(w + rest)
                    == Ok::<(nat, Option<Seq<char>>), WireError>(
                    (
                        w.len(),
                        match s {
                            Some(s) => Some(s@),
                            None => None,
                        },
                    ),
                ),
                Argument::Object(o) => <Object as Wire>::spec_wire_read(w + rest) == Ok::<
                    (nat, u32),
                    WireError,
                >((w.len(), o@)),
                Argument::ObjectNullable(o) => <Option<Object> as Wire>::spec_wire_read(w + rest)
                    == Ok::<(nat, Option<u32>), WireError>(
                    (
                        w.len(),
                        match o {
                            Some(o) => Some(o@),
                            None => None,
                        },
                    ),
                ),
                Argument::NewId(o) => <Object as Wire>::spec_wire_read(w + rest) == Ok::<
                    (nat, u32),
                    WireError,
                >((w.len(), o@)),
                Argument::Array(a) => <Vec<u8> as Wire>::spec_wire_read(w + rest) == Ok::<
                    (nat, Seq<u8>),
                    WireError,
                >((w.len(), a@)),
                Argument::Fd(_) => w.len() == 0,
            }
        }),
{
    match arg {
        Argument::Int(v) => {
            <i32 as Wire>::lemma_wire_roundtrip(v, rest);
        },
        Argument::Uint(v) => {
            <u32 as Wire>::lemma_wire_roundtrip(v, rest);
        },
        Argument::Fixed(v) => {
            <Fixed as Wire>::lemma_wire_roundtrip(v@, rest);
        },
        Argument::String(s) => {
            <String as Wire>::lemma_wire_roundtrip(s@, rest);
        },
        Argument::StringNullable(s) => {
            match s {
                Some(s) => {
                    let p = encode_utf8(s@).push(0u8);
                    assert(spec_dynamic_wire(p)[0] == p.len() as u32);
                    <Option<String> as Wire>::lemma_wire_roundtrip(Some(s@), rest);
                },
                None => {
                    <Option<String> as Wire>::lemma_wire_roundtrip(None, rest);
                },
            }
        },
        Argument::Object(o) => {
            <Object as Wire>::lemma_wire_roundtrip(o@, rest);
        },
        Argument::ObjectNullable(o) => {
            match o {
                Some(o) => {
                    <Option<Object> as Wire>::lemma_wire_roundtrip(Some(o@), rest);
                },
                None => {
                    <Option<Object> as Wire>::lemma_wire_roundtrip(None, rest);
                },
            }
        },
        Argument::NewId(o) => {
            <Object as Wire>::lemma_wire_roundtrip(o@, rest);
        },
        Argument::Array(a) => {
            <Vec<u8> as Wire>::lemma_wire_roundtrip(a@, rest);
        },
        Argument::Fd(_) => {},
    }
}

} // verus!
