//! Unchecked word-buffer writers and readers: each one handles the value
//! at the front of the buffer and hands back the rest of it.
//!
//! These functions trust their input: where a read could fail, the caller
//! must know that it succeeds. [`crate::wire::Wire`] is the checked
//! counterpart.

use vstd::prelude::*;
use vstd::utf8::*;

use crate::packing::{lemma_unpack_pack, pack_bytes, pad, spec_pad, unpack_from, unpack_words};
use crate::primitive::{Fixed, Header, Object};
use crate::wire::{
    lemma_utf8_no_nul, header_word, spec_cstr_ok, spec_header_word, spec_str_wire, write_str,
    write_word,
};

verus! {

/// Make `buf` exactly `count` words long, keeping the words it has up to
/// that length and adding zero words.
pub fn prepare_buf(buf: &mut Vec<u32>, count: usize)
    ensures
        final(buf)@.len() == count,
        forall|i: int| 0 <= i < count && i < old(buf)@.len() ==> final(buf)@[i] == old(buf)@[i],
        forall|i: int| old(buf)@.len() <= i < count ==> final(buf)@[i] == 0,
{
    if count <= buf.len() {
        buf.truncate(count);
    } else {
        let ghost start = buf@;
        while buf.len() < count
            invariant
                start.len() <= buf@.len() <= count,
                forall|i: int| 0 <= i < start.len() ==> buf@[i] == start[i],
                forall|i: int| start.len() <= i < buf@.len() ==> buf@[i] == 0,
            decreases count - buf@.len(),
        {
            buf.push(0);
        }
    }
}

/// The bytes of the words, each word's bytes from its least significant.
pub fn bytes(buf: &[u32]) -> (r: Vec<u8>)
    requires
        4 * buf@.len() <= usize::MAX,
    ensures
        r@ == unpack_words(buf@, 4 * buf@.len() as int),
{
    let n = 4 * buf.len();
    assert(spec_pad(n as int) == buf@.len());
    unpack_from(buf, n)
}

pub fn write_int<'buf>(buf: &'buf mut [u32], value: i32) -> (rest: &'buf mut [u32])
    requires
        old(buf)@.len() >= 1,
    ensures
        rest@ == old(buf)@.skip(1),
        final(buf)@ == seq![value as u32] + final(rest)@,
{
    write_word(buf, value as u32)
}

pub fn write_uint<'buf>(buf: &'buf mut [u32], value: u32) -> (rest: &'buf mut [u32])
    requires
        old(buf)@.len() >= 1,
    ensures
        rest@ == old(buf)@.skip(1),
        final(buf)@ == seq![value] + final(rest)@,
{
    write_word(buf, value)
}

pub fn write_fixed<'buf>(buf: &'buf mut [u32], value: Fixed) -> (rest: &'buf mut [u32])
    requires
        old(buf)@.len() >= 1,
    ensures
        rest@ == old(buf)@.skip(1),
        final(buf)@ == seq![value@ as u32] + final(rest)@,
{
    write_word(buf, value.to_bits() as u32)
}

/// Write a string: its length with the null byte, then its bytes and the
/// null byte padded with zeros to whole words.
pub fn write_string<'buf>(buf: &'buf mut [u32], value: &str) -> (rest: &'buf mut [u32])
    requires
        encode_utf8(value@).len() + 8 < usize::MAX,
        spec_str_wire(value@).len() <= old(buf)@.len(),
    ensures
        rest@ == old(buf)@.skip(spec_str_wire(value@).len() as int),
        final(buf)@ == spec_str_wire(value@) + final(rest)@,
{
    write_str(buf, value)
}

/// Write a string, or a zero word for none.
pub fn write_string_nullable<'buf>(buf: &'buf mut [u32], value: Option<&str>) -> (rest:
    &'buf mut [u32])
    requires
        match value {
            Some(s) => encode_utf8(s@).len() + 8 < usize::MAX && spec_str_wire(s@).len()
                <= old(buf)@.len(),
            None => old(buf)@.len() >= 1,
        },
    ensures
        match value {
            Some(s) => rest@ == old(buf)@.skip(spec_str_wire(s@).len() as int) && final(buf)@
                == spec_str_wire(s@) + final(rest)@,
            None => rest@ == old(buf)@.skip(1) && final(buf)@ == seq![0u32] + final(rest)@,
        },
{
    match value {
        Some(value) => write_string(buf, value),
        None => write_uint(buf, 0),
    }
}

pub fn write_object<'buf>(buf: &'buf mut [u32], value: Object) -> (rest: &'buf mut [u32])
    requires
        old(buf)@.len() >= 1,
    ensures
        rest@ == old(buf)@.skip(1),
        final(buf)@ == seq![value@] + final(rest)@,
{
    write_word(buf, value.get())
}

/// Write an object id, or zero for none.
pub fn write_object_nullable<'buf>(buf: &'buf mut [u32], value: Option<Object>) -> (rest:
    &'buf mut [u32])
    requires
        old(buf)@.len() >= 1,
    ensures
        rest@ == old(buf)@.skip(1),
        final(buf)@ == seq![
            match value {
                Some(o) => o@,
                None => 0u32,
            },
        ] + final(rest)@,
{
    let word = match value {
        Some(o) => o.get(),
        None => 0,
    };
    write_word(buf, word)
}

pub fn write_new_id<'buf>(buf: &'buf mut [u32], value: Object) -> (rest: &'buf mut [u32])
    requires
        old(buf)@.len() >= 1,
    ensures
        rest@ == old(buf)@.skip(1),
        final(buf)@ == seq![value@] + final(rest)@,
{
    write_word(buf, value.get())
}

/// Write a header: the object id, then the size (upper 16 bits) and the
/// opcode (lower 16 bits) in one word.
pub fn write_header<'buf>(buf: &'buf mut [u32], value: Header) -> (rest: &'buf mut [u32])
    requires
        old(buf)@.len() >= 2,
    ensures
        rest@ == old(buf)@.skip(2),
        final(buf)@ == seq![value.object@, spec_header_word(value.size, value.opcode)]
            + final(rest)@,
{
    let buf = write_object(buf, value.object);
    let buf = write_uint(buf, header_word(value.size, value.opcode));
    buf
}

pub fn read_int<'buf>(buf: &'buf [u32]) -> (r: (&'buf [u32], i32))
    requires
        buf@.len() >= 1,
    ensures
        r.0@ == buf@.skip(1),
        r.1 == buf@[0] as i32,
{
    let (head, tail) = buf.split_at(1);
    (tail, head[0] as i32)
}

pub fn read_uint<'buf>(buf: &'buf [u32]) -> (r: (&'buf [u32], u32))
    requires
        buf@.len() >= 1,
    ensures
        r.0@ == buf@.skip(1),
        r.1 == buf@[0],
{
    let (head, tail) = buf.split_at(1);
    (tail, head[0])
}

pub fn read_fixed<'buf>(buf: &'buf [u32]) -> (r: (&'buf [u32], Fixed))
    requires
        buf@.len() >= 1,
    ensures
        r.0@ == buf@.skip(1),
        r.1@ == buf@[0] as i32,
{
    let (head, tail) = buf.split_at(1);
    (tail, Fixed::from_bits(head[0] as i32))
}

/// The string that a byte sequence encodes, each invalid UTF-8 sequence
/// replaced by U+FFFD.
pub uninterp spec fn utf8_lossy(bytes: Seq<u8>) -> Seq<char>;

/// Calls `String::from_utf8_lossy`. Claimed: the result is `utf8_lossy` of
/// the bytes, and for valid UTF-8 it is the string the bytes encode (as its
/// documentation says: valid UTF-8 is returned unchanged).
#[verifier::external_body]
fn string_from_utf8_lossy(bytes: &[u8]) -> (r: String)
    ensures
        r@ == utf8_lossy(bytes@),
        valid_utf8(bytes@) ==> r@ == decode_utf8(bytes@),
{
    String::from_utf8_lossy(bytes).into_owned()
}

/// The string held in `size` bytes at the front of `buf`.
pub open spec fn spec_sized_bytes(buf: Seq<u32>, size: int) -> Seq<u8> {
    unpack_words(buf, size)
}

/// Read a string of `size` bytes (with its null byte) from the front of
/// `buf`; invalid UTF-8 is replaced, not refused.
fn read_string_sized<'buf>(buf: &'buf [u32], size: usize) -> (r: (&'buf [u32], String))
    requires
        spec_pad(size as int) <= buf@.len(),
        spec_cstr_ok(spec_sized_bytes(buf@, size as int)),
    ensures
        r.0@ == buf@.skip(spec_pad(size as int)),
        r.1@ == utf8_lossy(spec_sized_bytes(buf@, size as int).drop_last()),
        valid_utf8(spec_sized_bytes(buf@, size as int).drop_last()) ==> r.1@ == decode_utf8(
            spec_sized_bytes(buf@, size as int).drop_last(),
        ),
{
    let data = unpack_from(buf, size);
    let text = vstd::slice::slice_subrange(data.as_slice(), 0, size - 1);
    assert(text@ =~= data@.drop_last());
    let string = string_from_utf8_lossy(text);
    let padding = pad(size);
    let (_, rest) = buf.split_at(padding);
    (rest, string)
}

/// The precondition of reading a string from the front of `buf`: the size
/// word, then the bytes it counts, which form a C string.
pub open spec fn spec_string_readable(buf: Seq<u32>) -> bool {
    &&& buf.len() >= 1
    &&& spec_pad(buf[0] as int) <= buf.len() - 1
    &&& spec_cstr_ok(spec_sized_bytes(buf.skip(1), buf[0] as int))
}

/// Read a string: its size word, then its bytes. Invalid UTF-8 is replaced.
pub fn read_string<'buf>(buf: &'buf [u32]) -> (r: (&'buf [u32], String))
    requires
        spec_string_readable(buf@),
    ensures
        r.0@ == buf@.skip(1 + spec_pad(buf@[0] as int)),
        r.1@ == utf8_lossy(spec_sized_bytes(buf@.skip(1), buf@[0] as int).drop_last()),
        valid_utf8(spec_sized_bytes(buf@.skip(1), buf@[0] as int).drop_last()) ==> r.1@
            == decode_utf8(spec_sized_bytes(buf@.skip(1), buf@[0] as int).drop_last()),
{
    let (buf2, size) = read_uint(buf);
    let (rest, string) = read_string_sized(buf2, size as usize);
    assert(rest@ =~= buf@.skip(1 + spec_pad(buf@[0] as int)));
    (rest, string)
}

/// Read a string, or none where the size word is zero.
pub fn read_string_nullable<'buf>(buf: &'buf [u32]) -> (r: (&'buf [u32], Option<String>))
    requires
        buf@.len() >= 1,
        buf@[0] != 0 ==> spec_string_readable(buf@),
    ensures
        buf@[0] == 0 ==> r.0@ == buf@.skip(1) && r.1 is None,
        buf@[0] != 0 ==> r.0@ == buf@.skip(1 + spec_pad(buf@[0] as int)) && (r.1 matches Some(s)
            && s@ == utf8_lossy(spec_sized_bytes(buf@.skip(1), buf@[0] as int).drop_last())
            && (valid_utf8(spec_sized_bytes(buf@.skip(1), buf@[0] as int).drop_last()) ==> s@
            == decode_utf8(spec_sized_bytes(buf@.skip(1), buf@[0] as int).drop_last()))),
{
    let (buf2, size) = read_uint(buf);
    if size == 0 {
        (buf2, None)
    } else {
        let (rest, string) = read_string_sized(buf2, size as usize);
        assert(rest@ =~= buf@.skip(1 + spec_pad(buf@[0] as int)));
        (rest, Some(string))
    }
}

pub fn read_object<'buf>(buf: &'buf [u32]) -> (r: (&'buf [u32], Object))
    requires
        buf@.len() >= 1,
        buf@[0] != 0,
    ensures
        r.0@ == buf@.skip(1),
        r.1@ == buf@[0],
{
    let (head, tail) = buf.split_at(1);
    (tail, Object::new_unchecked(head[0]))
}

/// Read an object id, or none where it is zero.
pub fn read_object_nullable<'buf>(buf: &'buf [u32]) -> (r: (&'buf [u32], Option<Object>))
    requires
        buf@.len() >= 1,
    ensures
        r.0@ == buf@.skip(1),
        r.1 is Some <==> buf@[0] != 0,
        r.1 matches Some(o) ==> o@ == buf@[0],
{
    let (head, tail) = buf.split_at(1);
    (tail, Object::new(head[0]))
}

pub fn read_new_id<'buf>(buf: &'buf [u32]) -> (r: (&'buf [u32], Object))
    requires
        buf@.len() >= 1,
        buf@[0] != 0,
    ensures
        r.0@ == buf@.skip(1),
        r.1@ == buf@[0],
{
    read_object(buf)
}

/// Read a header: the object id, then the size (upper 16 bits) and the
/// opcode (lower 16 bits) of one word.
pub fn read_header<'buf>(buf: &'buf [u32]) -> (r: (&'buf [u32], Header))
    requires
        buf@.len() >= 2,
        buf@[0] != 0,
    ensures
        r.0@ == buf@.skip(2),
        r.1@ == (buf@[0], (buf@[1] / 0x1_0000) as u16, (buf@[1] % 0x1_0000) as u16),
{
    let (buf2, object) = read_object(buf);
    let (rest, word) = read_uint(buf2);
    let size: u16 = (word >> 16u32) as u16;
    let opcode: u16 = (word & 0xFFFF) as u16;
    assert(size == (word / 0x1_0000) as u16 && opcode == (word % 0x1_0000) as u16) by (bit_vector)
        requires
            size == (word >> 16u32) as u16,
            opcode == (word & 0xFFFF) as u16,
    ;
    assert(rest@ =~= buf@.skip(2));
    (rest, Header { object, size, opcode })
}

/// A string that `write_string` wrote, followed by anything, can be read
/// back by `read_string`: it is readable, its bytes are the UTF-8 encoding
/// of the string (which `read_string` decodes back to it), and the reading
/// ends where the writing did.
pub proof fn lemma_string_roundtrip(s: Seq<char>, rest: Seq<u32>)
    requires
        !s.contains('\0'),
        encode_utf8(s).len() + 1 <= u32::MAX,
    ensures
        spec_string_readable(spec_str_wire(s) + rest),
        spec_sized_bytes((spec_str_wire(s) + rest).skip(1), (spec_str_wire(s) + rest)[0] as int).drop_last()
            == encode_utf8(s),
        decode_utf8(encode_utf8(s)) == s,
        (spec_str_wire(s) + rest).skip(1 + spec_pad((spec_str_wire(s) + rest)[0] as int)) == rest,
{
    let payload = encode_utf8(s).push(0u8);
    let w = spec_str_wire(s) + rest;
    let packed = pack_bytes(payload);
    let size = payload.len() as int;
    assert(w[0] as int == size);
    assert(w.skip(1) =~= packed + rest);
    assert(spec_sized_bytes(w.skip(1), size) == payload) by {
        lemma_unpack_pack(payload, rest);
    }
    assert(payload.drop_last() =~= encode_utf8(s));
    assert(spec_cstr_ok(payload)) by {
        lemma_utf8_no_nul(s);
    }
    encode_utf8_decode_utf8(s);
    assert(packed.len() == spec_pad(size));
    assert(w.skip(1 + spec_pad(size)) =~= rest);
}

} // verus!
