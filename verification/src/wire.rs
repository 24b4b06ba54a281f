//! Wire format serialization for Wayland protocol types.
//!
//! - All values are serialized as 32-bit words.
//! - Strings and arrays are prefixed with their length in bytes, and their
//!   bytes are padded with zeros to a whole number of words (see
//!   [`crate::packing`]).
//! - A string carries a terminating null byte, counted in its length.
//! - File descriptors are transmitted apart from the words.
//!
//! Every type here states its encoding (`spec_wire`) and what reading
//! gives back (`spec_wire_read`), and proves that reading what was written
//! gives back the value and consumes exactly the words written.

pub mod helper;

use vstd::prelude::*;
use vstd::string::StringSliceAdditionalSpecFns;
use vstd::utf8::*;

use crate::packing::{
    lemma_pack_trailing_zero, lemma_unpack_pack, pack_bytes, pack_into,
    pack_words, pad, spec_pad, unpack_from, unpack_words,
};
use crate::primitive::{Enum, EnumParseError, Fixed, Header, Int, Object, Uint};
use crate::wire::helper::{WireDynamicMarker, WireHelper, WirePrimitiveMarker};

verus! {

broadcast use {encode_utf8_valid_utf8, encode_utf8_decode_utf8};

/// Errors that can happen during deserialization from the wire format.
#[derive(Debug, Clone, Copy, PartialEq, Eq)]
pub enum WireError {
    /// Not enough words available to read the complete value.
    UnexpectedEof {
        /// Number of 32-bit words needed to complete the read.
        needed: usize,
        /// Number of 32-bit words actually available in the buffer.
        available: usize,
    },
    /// Improperly serialized value: a zero object id, a string without its
    /// null terminator or with invalid UTF-8, an unknown enumeration value.
    Malformed,
}

impl vstd::std_specs::convert::FromSpecImpl<EnumParseError> for WireError {
    open spec fn obeys_from_spec() -> bool {
        true
    }

    open spec fn from_spec(v: EnumParseError) -> Self {
        WireError::Malformed
    }
}

impl From<EnumParseError> for WireError {
    fn from(value: EnumParseError) -> (r: Self) {
        WireError::Malformed
    }
}

/// The error of a read that needs one word and finds none.
pub open spec fn eof_one() -> WireError {
    WireError::UnexpectedEof { needed: 1, available: 0 }
}

/// `res`, the outcome of reading from `buf`, is what `spec` says: on
/// success the value and the rest of `buf` after the words consumed.
pub open spec fn read_outcome<'a, T: DeepView>(
    buf: Seq<u32>,
    spec: Result<(nat, <T as DeepView>::V), WireError>,
    res: Result<(&'a [u32], T), WireError>,
) -> bool {
    match spec {
        Ok((n, v)) => res matches Ok((rest, x)) && n <= buf.len() && rest@ == buf.skip(n as int)
            && x.deep_view() == v,
        Err(e) => res matches Err(e2) && e2 == e,
    }
}

/// Trait for types that can be serialized to and from the Wayland wire
/// format.
pub trait Wire: DeepView + Sized {
    /// The words that encode `v`.
    spec fn spec_wire(v: <Self as DeepView>::V) -> Seq<u32>;

    /// Writing `v` is possible (it does not panic).
    spec fn spec_wire_writable(v: <Self as DeepView>::V) -> bool;

    /// The outcome of reading from `words`: the number of words consumed
    /// and the value, or the error.
    spec fn spec_wire_read(words: Seq<u32>) -> Result<(nat, <Self as DeepView>::V), WireError>;

    /// Reading gives `v` back after writing it.
    spec fn spec_wire_faithful(v: <Self as DeepView>::V) -> bool;

    /// The size in words this value occupies when written.
    fn wire_size(&self) -> (n: usize)
        requires
            Self::spec_wire_writable(self.deep_view()),
        ensures
            n == Self::spec_wire(self.deep_view()).len(),
    ;

    /// Write this value to the front of the buffer, returning the remaining
    /// buffer slice.
    fn wire_write<'buf>(&self, buf: &'buf mut [u32]) -> (rest: &'buf mut [u32])
        requires
            Self::spec_wire_writable(self.deep_view()),
            Self::spec_wire(self.deep_view()).len() <= old(buf)@.len(),
        ensures
            rest@ == old(buf)@.skip(Self::spec_wire(self.deep_view()).len() as int),
            final(buf)@ == Self::spec_wire(self.deep_view()) + final(rest)@,
    ;

    /// Read a value from the front of the buffer, returning the remaining
    /// buffer and the value.
    fn wire_read<'buf>(buf: &'buf [u32]) -> (res: Result<(&'buf [u32], Self), WireError>)
        ensures
            read_outcome(buf@, Self::spec_wire_read(buf@), res),
    ;

    /// Reading what was written, followed by anything, gives the value back
    /// and consumes exactly the words written.
    proof fn lemma_wire_roundtrip(v: <Self as DeepView>::V, rest: Seq<u32>)
        requires
            Self::spec_wire_writable(v),
            Self::spec_wire_faithful(v),
        ensures
            Self::spec_wire_read(Self::spec_wire(v) + rest) == Ok::<(nat, <Self as DeepView>::V), WireError>(
                (Self::spec_wire(v).len(), v),
            ),
    ;
}

/// The outcome of reading one word.
pub open spec fn spec_read_word(words: Seq<u32>) -> Result<(nat, u32), WireError> {
    if words.len() == 0 {
        Err(eof_one())
    } else {
        Ok((1, words[0]))
    }
}

/// Write one word to the front of `buf`.
pub fn write_word<'buf>(buf: &'buf mut [u32], value: u32) -> (rest: &'buf mut [u32])
    requires
        old(buf)@.len() >= 1,
    ensures
        rest@ == old(buf)@.skip(1),
        final(buf)@ == seq![value] + final(rest)@,
{
    let (head, tail) = buf.split_at_mut(1);
    head[0] = value;
    tail
}

/// Read one word from the front of `buf`.
pub fn read_word<'buf>(buf: &'buf [u32]) -> (res: Result<(&'buf [u32], u32), WireError>)
    ensures
        read_outcome(buf@, spec_read_word(buf@), res),
{
    if buf.len() == 0 {
        return Err(WireError::UnexpectedEof { needed: 1, available: buf.len() });
    }
    let (head, tail) = buf.split_at(1);
    Ok((tail, head[0]))
}

/// Trait for Wayland types that occupy exactly one word in the wire format:
/// integers, fixed-point numbers, object ids and enumerations. They are
/// stored directly as 32-bit values, without any length prefix.
pub trait WirePrimitive: Copy + DeepView {
    /// The word that encodes `v`.
    spec fn spec_value(v: <Self as DeepView>::V) -> u32;

    /// The value that a word encodes; none where the word is invalid for
    /// this type (a zero object id, an unknown enumeration value).
    spec fn spec_parse(value: u32) -> Option<<Self as DeepView>::V>;

    /// Parsing the word of `v` gives `v` back.
    spec fn spec_primitive_faithful(v: <Self as DeepView>::V) -> bool;

    /// Convert this value to its wire format representation.
    fn value(self) -> (w: u32)
        ensures
            w == Self::spec_value(self.deep_view()),
    ;

    /// Parse a value from its wire format representation.
    fn parse(value: u32) -> (r: Option<Self>)
        ensures
            r.deep_view() == Self::spec_parse(value),
    ;

    /// Parsing the word that encodes a value gives the value back.
    proof fn lemma_parse_value(v: <Self as DeepView>::V)
        requires
            Self::spec_primitive_faithful(v),
        ensures
            Self::spec_parse(Self::spec_value(v)) == Some(v),
    ;
}

impl WirePrimitive for i32 {
    open spec fn spec_value(v: i32) -> u32 {
        v as u32
    }

    open spec fn spec_parse(value: u32) -> Option<i32> {
        Some(value as i32)
    }

    open spec fn spec_primitive_faithful(v: i32) -> bool {
        true
    }

    fn value(self) -> (w: u32) {
        self as u32
    }

    fn parse(value: u32) -> (r: Option<i32>) {
        Some(value as i32)
    }

    proof fn lemma_parse_value(v: i32) {
        assert(((v as u32) as i32) == v) by (bit_vector);
    }
}

impl WirePrimitive for u32 {
    open spec fn spec_value(v: u32) -> u32 {
        v
    }

    open spec fn spec_parse(value: u32) -> Option<u32> {
        Some(value)
    }

    open spec fn spec_primitive_faithful(v: u32) -> bool {
        true
    }

    fn value(self) -> (w: u32) {
        self
    }

    fn parse(value: u32) -> (r: Option<u32>) {
        Some(value)
    }

    proof fn lemma_parse_value(v: u32) {
    }
}

impl WirePrimitive for Fixed {
    /// The raw bits, as a word.
    open spec fn spec_value(v: i32) -> u32 {
        v as u32
    }

    open spec fn spec_parse(value: u32) -> Option<i32> {
        Some(value as i32)
    }

    open spec fn spec_primitive_faithful(v: i32) -> bool {
        true
    }

    fn value(self) -> (w: u32) {
        self.to_bits() as u32
    }

    fn parse(value: u32) -> (r: Option<Fixed>) {
        Some(Fixed::from_bits(value as i32))
    }

    proof fn lemma_parse_value(v: i32) {
        assert(((v as u32) as i32) == v) by (bit_vector);
    }
}

impl WirePrimitive for Object {
    open spec fn spec_value(v: u32) -> u32 {
        v
    }

    /// A zero word is no object id.
    open spec fn spec_parse(value: u32) -> Option<u32> {
        if value == 0 {
            None
        } else {
            Some(value)
        }
    }

    /// An object id is never zero.
    open spec fn spec_primitive_faithful(v: u32) -> bool {
        v != 0
    }

    fn value(self) -> (w: u32) {
        self.get()
    }

    fn parse(value: u32) -> (r: Option<Object>) {
        Object::new(value)
    }

    proof fn lemma_parse_value(v: u32) {
    }
}

impl<T: Enum> DeepView for Int<T> {
    type V = Int<T>;

    open spec fn deep_view(&self) -> Int<T> {
        *self
    }
}

impl<T: Enum> DeepView for Uint<T> {
    type V = Uint<T>;

    open spec fn deep_view(&self) -> Uint<T> {
        *self
    }
}

proof fn lemma_cast_roundtrip(w: u32)
    ensures
        ((w as i32) as u32) == w,
{
    assert(((w as i32) as u32) == w) by (bit_vector);
}

impl<T: Enum> WirePrimitive for Int<T> {
    /// The entry's value.
    open spec fn spec_value(v: Int<T>) -> u32 {
        v.0.spec_uint()
    }

    /// The entry that the word names.
    open spec fn spec_parse(value: u32) -> Option<Int<T>> {
        match T::spec_from_uint(value) {
            Some(e) => Some(Int(e)),
            None => None,
        }
    }

    /// The entry's value names the entry.
    open spec fn spec_primitive_faithful(v: Int<T>) -> bool {
        T::spec_from_uint(v.0.spec_uint()) == Some(v.0)
    }

    fn value(self) -> (w: u32) {
        let value = self.0.int_value();
        proof {
            lemma_cast_roundtrip(self.0.spec_uint());
        }
        value as u32
    }

    fn parse(value: u32) -> (r: Option<Int<T>>) {
        match T::from_uint(value) {
            Ok(e) => Some(Int(e)),
            Err(_) => None,
        }
    }

    proof fn lemma_parse_value(v: Int<T>) {
    }
}

impl<T: Enum> WirePrimitive for Uint<T> {
    /// The entry's value.
    open spec fn spec_value(v: Uint<T>) -> u32 {
        v.0.spec_uint()
    }

    /// The entry that the word names.
    open spec fn spec_parse(value: u32) -> Option<Uint<T>> {
        match T::spec_from_uint(value) {
            Some(e) => Some(Uint(e)),
            None => None,
        }
    }

    /// The entry's value names the entry.
    open spec fn spec_primitive_faithful(v: Uint<T>) -> bool {
        T::spec_from_uint(v.0.spec_uint()) == Some(v.0)
    }

    fn value(self) -> (w: u32) {
        self.0.uint()
    }

    fn parse(value: u32) -> (r: Option<Uint<T>>) {
        match T::from_uint(value) {
            Ok(e) => Some(Uint(e)),
            Err(_) => None,
        }
    }

    proof fn lemma_parse_value(v: Uint<T>) {
    }
}

/// The outcome of reading a one-word value: the word, parsed.
pub open spec fn spec_read_primitive<T: WirePrimitive>(words: Seq<u32>) -> Result<
    (nat, <T as DeepView>::V),
    WireError,
> {
    match spec_read_word(words) {
        Ok((n, w)) => match T::spec_parse(w) {
            Some(v) => Ok((n, v)),
            None => Err(WireError::Malformed),
        },
        Err(e) => Err(e),
    }
}

impl<T: WirePrimitive> WireHelper<WirePrimitiveMarker> for T {
    /// The value's word.
    open spec fn spec_wire(v: <T as DeepView>::V) -> Seq<u32> {
        seq![T::spec_value(v)]
    }

    open spec fn spec_wire_writable(v: <T as DeepView>::V) -> bool {
        true
    }

    open spec fn spec_wire_read(words: Seq<u32>) -> Result<(nat, <T as DeepView>::V), WireError> {
        spec_read_primitive::<T>(words)
    }

    open spec fn spec_wire_faithful(v: <T as DeepView>::V) -> bool {
        T::spec_primitive_faithful(v)
    }

    fn wire_size(&self) -> (n: usize) {
        1
    }

    fn wire_write<'buf>(&self, buf: &'buf mut [u32]) -> (rest: &'buf mut [u32]) {
        write_word(buf, self.value())
    }

    fn wire_read<'buf>(buf: &'buf [u32]) -> (res: Result<(&'buf [u32], T), WireError>) {
        let (rest, w) = read_word(buf)?;
        match T::parse(w) {
            Some(value) => Ok((rest, value)),
            None => Err(WireError::Malformed),
        }
    }

    proof fn lemma_wire_roundtrip(v: <T as DeepView>::V, rest: Seq<u32>) {
        T::lemma_parse_value(v);
    }
}

/// The words of a length-prefixed payload: its length in bytes (wrapped
/// to 32 bits), then its bytes padded with zeros to whole words.
pub open spec fn spec_dynamic_wire(payload: Seq<u8>) -> Seq<u32> {
    seq![payload.len() as u32] + pack_bytes(payload)
}

/// The outcome of reading a length-prefixed payload.
pub open spec fn spec_read_dynamic(words: Seq<u32>) -> Result<(nat, Seq<u8>), WireError> {
    if words.len() == 0 {
        Err(eof_one())
    } else {
        let size = words[0] as int;
        let nwords = spec_pad(size);
        if words.len() - 1 < nwords {
            Err(
                WireError::UnexpectedEof {
                    needed: nwords as usize,
                    available: (words.len() - 1) as usize,
                },
            )
        } else {
            Ok(((1 + nwords) as nat, unpack_words(words.subrange(1, 1 + nwords), size)))
        }
    }
}

/// The bytes form a C string: they end with a null byte and hold no other.
pub open spec fn spec_cstr_ok(data: Seq<u8>) -> bool {
    data.len() >= 1 && data.last() == 0 && !data.drop_last().contains(0)
}

/// Reading a length-prefixed payload that was written gives it back.
pub proof fn lemma_dynamic_roundtrip(payload: Seq<u8>, rest: Seq<u32>)
    requires
        payload.len() <= u32::MAX,
    ensures
        spec_read_dynamic(spec_dynamic_wire(payload) + rest) == Ok::<(nat, Seq<u8>), WireError>(
            (spec_dynamic_wire(payload).len(), payload),
        ),
{
    let packed = pack_bytes(payload);
    let enc = spec_dynamic_wire(payload);
    let words = enc + rest;
    let size = payload.len() as int;
    let nw = spec_pad(size);
    assert(packed.len() == nw);
    assert(enc.len() == 1 + nw);
    assert(words[0] == payload.len() as u32);
    assert(words[0] as int == size);
    let sub = words.subrange(1, 1 + nw);
    assert(sub =~= packed);
    lemma_unpack_pack(payload, Seq::empty());
    assert(packed + Seq::<u32>::empty() =~= packed);
    assert(unpack_words(sub, size) == payload);
}

/// Write a length-prefixed payload of `size` bytes whose first bytes are
/// `data` and whose other bytes are zero.
fn write_dynamic<'buf>(buf: &'buf mut [u32], data: &[u8], size: usize) -> (rest: &'buf mut [u32])
    requires
        data@.len() <= size,
        size + 4 < usize::MAX,
        1 + spec_pad(size as int) <= old(buf)@.len(),
    ensures
        rest@ == old(buf)@.skip(1 + spec_pad(size as int)),
        final(buf)@ == seq![size as u32] + pack_words(data@, spec_pad(size as int) as nat)
            + final(rest)@,
{
    let buf = write_word(buf, size as u32);
    let words = pad(size);
    assert(4 * words <= size + 3) by (nonlinear_arith)
        requires
            words == (size + 3) / 4,
    ;
    let (dest, rest) = buf.split_at_mut(words);
    pack_into(dest, data);
    rest
}

/// Write a byte array: its length, then its bytes padded with zeros to
/// whole words.
pub fn write_bytes<'buf>(buf: &'buf mut [u32], data: &[u8]) -> (rest: &'buf mut [u32])
    requires
        data@.len() + 8 < usize::MAX,
        spec_dynamic_wire(data@).len() <= old(buf)@.len(),
    ensures
        rest@ == old(buf)@.skip(spec_dynamic_wire(data@).len() as int),
        final(buf)@ == spec_dynamic_wire(data@) + final(rest)@,
{
    write_dynamic(buf, data, data.len())
}

/// Read a length-prefixed payload.
fn read_dynamic<'buf>(buf: &'buf [u32]) -> (res: Result<(&'buf [u32], Vec<u8>), WireError>)
    ensures
        read_outcome(buf@, spec_read_dynamic(buf@), res),
{
    let (rest, size) = read_word(buf)?;
    let n = size as usize;
    let words = pad(n);
    if rest.len() < words {
        return Err(WireError::UnexpectedEof { needed: words, available: rest.len() });
    }
    let (data_words, rest) = rest.split_at(words);
    let data = unpack_from(data_words, n);
    proof {
        assert(data_words@ =~= buf@.subrange(1, 1 + words));
        assert(rest@ =~= buf@.skip(1 + words));
        assert(data.deep_view() =~= data@);
    }
    Ok((rest, data))
}

/// Whether the bytes form a C string.
pub fn cstr_check(data: &[u8]) -> (r: bool)
    ensures
        r == spec_cstr_ok(data@),
{
    let n = data.len();
    if n == 0 || data[n - 1] != 0 {
        return false;
    }
    let mut i: usize = 0;
    while i < n - 1
        invariant
            n == data@.len(),
            n >= 1,
            i <= n - 1,
            forall|j: int| 0 <= j < i ==> data@[j] != 0,
        decreases n - 1 - i,
    {
        if data[i] == 0 {
            assert(data@.drop_last()[i as int] == 0);
            return false;
        }
        i = i + 1;
    }
    assert(!data@.drop_last().contains(0)) by {
        assert forall|j: int| 0 <= j < data@.drop_last().len() implies data@.drop_last()[j]
            != 0 by {
            assert(data@.drop_last()[j] == data@[j]);
        }
    }
    true
}

/// The string that the bytes encode in UTF-8, if they are valid UTF-8.
#[verifier::external_body]
pub(crate) fn str_from_utf8(v: &[u8]) -> (r: Option<&str>)
    ensures
        r is Some <==> valid_utf8(v@),
        r matches Some(s) ==> s.spec_bytes() == v@,
{
    std::str::from_utf8(v).ok()
}

/// A scalar other than zero encodes to bytes that are all non-zero.
proof fn lemma_scalar_nonzero_bytes(c: char)
    requires
        c != '\0',
    ensures
        !encode_scalar(c as u32).contains(0),
{
    let s = c as u32;
    assert(s != 0);
    assert(is_scalar(s));
    let e = encode_scalar(s);
    assert(0 < s <= 0x7F ==> (s & 0x7F) as u8 != 0) by (bit_vector);
    assert((0xC0 | ((s >> 6) & 0x1F) as u8) != 0) by (bit_vector);
    assert((0xE0 | ((s >> 12) & 0x0F) as u8) != 0) by (bit_vector);
    assert((0xF0 | ((s >> 18) & 0x7) as u8) != 0) by (bit_vector);
    assert((0x80 | (s & 0x3F) as u8) != 0) by (bit_vector);
    assert((0x80 | ((s >> 6) & 0x3F) as u8) != 0) by (bit_vector);
    assert((0x80 | ((s >> 12) & 0x3F) as u8) != 0) by (bit_vector);
    assert forall|i: int| 0 <= i < e.len() implies e[i] != 0 by {}
}

/// The UTF-8 encoding of characters other than '\0' holds no zero byte.
pub proof fn lemma_utf8_no_nul(chars: Seq<char>)
    requires
        !chars.contains('\0'),
    ensures
        !encode_utf8(chars).contains(0),
    decreases chars.len(),
{
    if chars.len() > 0 {
        assert(chars[0] != '\0');
        lemma_scalar_nonzero_bytes(chars[0]);
        assert(!chars.drop_first().contains('\0')) by {
            assert forall|i: int| 0 <= i < chars.drop_first().len() implies chars.drop_first()[i]
                != '\0' by {
                assert(chars.drop_first()[i] == chars[i + 1]);
            }
        }
        lemma_utf8_no_nul(chars.drop_first());
        let a = encode_scalar(chars[0] as u32);
        let b = encode_utf8(chars.drop_first());
        assert forall|i: int| 0 <= i < (a + b).len() implies (a + b)[i] != 0 by {
            if i < a.len() {
                assert((a + b)[i] == a[i]);
            } else {
                assert((a + b)[i] == b[i - a.len()]);
            }
        }
    }
}

/// The words of a string: its UTF-8 bytes and a null byte, length-prefixed.
pub open spec fn spec_str_wire(chars: Seq<char>) -> Seq<u32> {
    spec_dynamic_wire(encode_utf8(chars).push(0u8))
}

/// Write a string: its length with the null byte, then its bytes and the
/// null byte padded with zeros to whole words.
pub fn write_str<'buf>(buf: &'buf mut [u32], value: &str) -> (rest: &'buf mut [u32])
    requires
        encode_utf8(value@).len() + 8 < usize::MAX,
        spec_str_wire(value@).len() <= old(buf)@.len(),
    ensures
        rest@ == old(buf)@.skip(spec_str_wire(value@).len() as int),
        final(buf)@ == spec_str_wire(value@) + final(rest)@,
{
    let bytes = value.as_bytes();
    let size = bytes.len() + 1;
    proof {
        lemma_pack_trailing_zero(bytes@);
    }
    write_dynamic(buf, bytes, size)
}

/// Trait for dynamically sized Wayland types: strings and byte arrays.
/// They are stored as their length in bytes, then their bytes padded with
/// zeros to whole words.
pub trait WireDynamic: DeepView + Sized {
    /// The bytes of `v`'s data.
    spec fn spec_data(v: <Self as DeepView>::V) -> Seq<u8>;

    /// The bytes that `v` is written as: its data, and a string's null
    /// byte.
    spec fn spec_payload(v: <Self as DeepView>::V) -> Seq<u8>;

    /// The value that the bytes of a payload read as, or the error.
    spec fn spec_dynamic_read(data: Seq<u8>) -> Result<<Self as DeepView>::V, WireError>;

    /// Writing `v` is possible (it does not panic).
    spec fn spec_dynamic_writable(v: <Self as DeepView>::V) -> bool;

    /// Reading the payload of `v` gives `v` back.
    spec fn spec_dynamic_faithful(v: <Self as DeepView>::V) -> bool;

    /// Get the raw byte data for this value.
    fn data(&self) -> (d: &[u8])
        ensures
            d@ == Self::spec_data(self.deep_view()),
    ;

    /// Get the size of the payload in bytes.
    fn dynamic_size(&self) -> (n: usize)
        requires
            Self::spec_dynamic_writable(self.deep_view()),
        ensures
            n == Self::spec_payload(self.deep_view()).len(),
    ;

    /// Write the payload to `buf`, which is exactly as long and zeroed.
    fn dynamic_write(&self, buf: &mut [u8])
        requires
            Self::spec_dynamic_writable(self.deep_view()),
            old(buf)@.len() == Self::spec_payload(self.deep_view()).len(),
            forall|i: int| 0 <= i < old(buf)@.len() ==> old(buf)@[i] == 0,
        ensures
            final(buf)@ == Self::spec_payload(self.deep_view()),
    ;

    /// Parse a value from the bytes of a payload (its length prefix told
    /// how many, without the padding).
    fn dynamic_read(buf: &[u8]) -> (r: Result<Self, WireError>)
        ensures
            match Self::spec_dynamic_read(buf@) {
                Ok(v) => r matches Ok(x) && x.deep_view() == v,
                Err(e) => r matches Err(e2) && e2 == e,
            },
    ;

    /// A value that can be written has a payload whose size fits the
    /// machine's sizes.
    proof fn lemma_payload_size(v: <Self as DeepView>::V)
        requires
            Self::spec_dynamic_writable(v),
        ensures
            Self::spec_payload(v).len() + 8 < usize::MAX,
    ;

    /// Reading the payload of a value gives the value back, and the
    /// payload's size fits the 32-bit length prefix.
    proof fn lemma_dynamic_roundtrip(v: <Self as DeepView>::V)
        requires
            Self::spec_dynamic_writable(v),
            Self::spec_dynamic_faithful(v),
        ensures
            Self::spec_payload(v).len() <= u32::MAX,
            Self::spec_dynamic_read(Self::spec_payload(v)) == Ok::<<Self as DeepView>::V, WireError>(v),
    ;
}

/// `n` zero bytes.
fn zero_bytes(n: usize) -> (r: Vec<u8>)
    ensures
        r@.len() == n,
        forall|i: int| 0 <= i < n ==> r@[i] == 0,
{
    let mut r: Vec<u8> = Vec::new();
    while r.len() < n
        invariant
            r@.len() <= n,
            forall|i: int| 0 <= i < r@.len() ==> r@[i] == 0,
        decreases n - r@.len(),
    {
        r.push(0);
    }
    r
}

/// The bytes of `data`, copied.
fn copy_bytes(data: &[u8]) -> (r: Vec<u8>)
    ensures
        r@ == data@,
{
    let mut r: Vec<u8> = Vec::new();
    let mut i: usize = 0;
    while i < data.len()
        invariant
            i <= data@.len(),
            r@ == data@.subrange(0, i as int),
        decreases data@.len() - i,
    {
        r.push(data[i]);
        i = i + 1;
        assert(r@ =~= data@.subrange(0, i as int));
    }
    assert(data@.subrange(0, data@.len() as int) =~= data@);
    r
}

impl WireDynamic for String {
    /// The string's UTF-8 bytes.
    open spec fn spec_data(v: Seq<char>) -> Seq<u8> {
        encode_utf8(v)
    }

    /// The UTF-8 bytes, then the null byte.
    open spec fn spec_payload(v: Seq<char>) -> Seq<u8> {
        encode_utf8(v).push(0u8)
    }

    /// A C string whose bytes before the null byte are valid UTF-8.
    open spec fn spec_dynamic_read(data: Seq<u8>) -> Result<Seq<char>, WireError> {
        if spec_cstr_ok(data) && valid_utf8(data.drop_last()) {
            Ok(decode_utf8(data.drop_last()))
        } else {
            Err(WireError::Malformed)
        }
    }

    open spec fn spec_dynamic_writable(v: Seq<char>) -> bool {
        encode_utf8(v).len() + 9 < usize::MAX
    }

    /// The string holds no null character, and its length (with the null
    /// byte) fits in the 32-bit length prefix.
    open spec fn spec_dynamic_faithful(v: Seq<char>) -> bool {
        !v.contains('\0') && encode_utf8(v).len() + 1 <= u32::MAX
    }

    fn data(&self) -> (d: &[u8]) {
        self.as_str().as_bytes()
    }

    fn dynamic_size(&self) -> (n: usize) {
        // +1 for the null byte
        self.as_str().as_bytes().len() + 1
    }

    fn dynamic_write(&self, buf: &mut [u8]) {
        // The last byte stays zero: it is the null byte.
        let bytes = self.as_str().as_bytes();
        let mut i: usize = 0;
        while i < bytes.len()
            invariant
                bytes@ == encode_utf8(self@),
                buf@.len() == bytes@.len() + 1,
                i <= bytes@.len(),
                forall|j: int| 0 <= j < i ==> buf@[j] == bytes@[j],
                forall|j: int| i <= j < buf@.len() ==> buf@[j] == 0,
            decreases bytes@.len() - i,
        {
            buf[i] = bytes[i];
            i = i + 1;
        }
        assert(buf@ =~= encode_utf8(self@).push(0u8));
    }

    fn dynamic_read(buf: &[u8]) -> (r: Result<String, WireError>) {
        if !cstr_check(buf) {
            return Err(WireError::Malformed);
        }
        let n = buf.len();
        let text = vstd::slice::slice_subrange(buf, 0, n - 1);
        assert(text@ =~= buf@.drop_last());
        match str_from_utf8(text) {
            Some(s) => {
                let value = s.to_owned();
                assert(decode_utf8(encode_utf8(s@)) == s@);
                Ok(value)
            },
            None => Err(WireError::Malformed),
        }
    }

    proof fn lemma_payload_size(v: Seq<char>) {
    }

    proof fn lemma_dynamic_roundtrip(v: Seq<char>) {
        let payload = encode_utf8(v).push(0u8);
        assert(payload.drop_last() =~= encode_utf8(v));
        lemma_utf8_no_nul(v);
    }
}

impl WireDynamic for Vec<u8> {
    open spec fn spec_data(v: Seq<u8>) -> Seq<u8> {
        v
    }

    /// The bytes themselves.
    open spec fn spec_payload(v: Seq<u8>) -> Seq<u8> {
        v
    }

    open spec fn spec_dynamic_read(data: Seq<u8>) -> Result<Seq<u8>, WireError> {
        Ok(data)
    }

    /// Its size fits the machine's sizes.
    open spec fn spec_dynamic_writable(v: Seq<u8>) -> bool {
        v.len() + 8 < usize::MAX
    }

    /// The length fits in the 32-bit length prefix.
    open spec fn spec_dynamic_faithful(v: Seq<u8>) -> bool {
        v.len() <= u32::MAX
    }

    fn data(&self) -> (d: &[u8]) {
        self.as_slice()
    }

    fn dynamic_size(&self) -> (n: usize) {
        self.len()
    }

    fn dynamic_write(&self, buf: &mut [u8]) {
        let mut i: usize = 0;
        while i < self.len()
            invariant
                buf@.len() == self@.len(),
                i <= self@.len(),
                forall|j: int| 0 <= j < i ==> buf@[j] == self@[j],
            decreases self@.len() - i,
        {
            buf[i] = self[i];
            i = i + 1;
        }
        assert(buf@ =~= self@);
    }

    fn dynamic_read(buf: &[u8]) -> (r: Result<Vec<u8>, WireError>) {
        let v = copy_bytes(buf);
        assert(v.deep_view() =~= v@);
        Ok(v)
    }

    proof fn lemma_payload_size(v: Seq<u8>) {
    }

    proof fn lemma_dynamic_roundtrip(v: Seq<u8>) {
    }
}

/// The outcome of reading a dynamic value: a length-prefixed payload,
/// parsed.
pub open spec fn spec_read_dynamic_value<T: WireDynamic>(words: Seq<u32>) -> Result<
    (nat, <T as DeepView>::V),
    WireError,
> {
    match spec_read_dynamic(words) {
        Ok((n, data)) => match T::spec_dynamic_read(data) {
            Ok(v) => Ok((n, v)),
            Err(e) => Err(e),
        },
        Err(e) => Err(e),
    }
}

impl<T: WireDynamic> WireHelper<WireDynamicMarker> for T {
    /// The payload's length, then its bytes padded to whole words.
    open spec fn spec_wire(v: <T as DeepView>::V) -> Seq<u32> {
        spec_dynamic_wire(T::spec_payload(v))
    }

    open spec fn spec_wire_writable(v: <T as DeepView>::V) -> bool {
        T::spec_dynamic_writable(v)
    }

    open spec fn spec_wire_read(words: Seq<u32>) -> Result<(nat, <T as DeepView>::V), WireError> {
        spec_read_dynamic_value::<T>(words)
    }

    open spec fn spec_wire_faithful(v: <T as DeepView>::V) -> bool {
        T::spec_dynamic_faithful(v)
    }

    fn wire_size(&self) -> (n: usize) {
        proof {
            T::lemma_payload_size(self.deep_view());
        }
        1 + pad(self.dynamic_size())
    }

    fn wire_write<'buf>(&self, buf: &'buf mut [u32]) -> (rest: &'buf mut [u32]) {
        proof {
            T::lemma_payload_size(self.deep_view());
        }
        let size = self.dynamic_size();
        let mut bytes = zero_bytes(size);
        self.dynamic_write(bytes.as_mut_slice());
        write_dynamic(buf, bytes.as_slice(), size)
    }

    fn wire_read<'buf>(buf: &'buf [u32]) -> (res: Result<(&'buf [u32], T), WireError>) {
        let (rest, data) = read_dynamic(buf)?;
        proof {
            assert(data.deep_view() =~= data@);
        }
        let value = T::dynamic_read(data.as_slice())?;
        Ok((rest, value))
    }

    proof fn lemma_wire_roundtrip(v: <T as DeepView>::V, rest: Seq<u32>) {
        T::lemma_payload_size(v);
        T::lemma_dynamic_roundtrip(v);
        lemma_dynamic_roundtrip(T::spec_payload(v), rest);
    }
}

/// The word that packs a header's size (upper 16 bits) and opcode (lower
/// 16 bits).
pub open spec fn spec_header_word(size: u16, opcode: u16) -> u32 {
    (size as int * 0x1_0000 + opcode as int) as u32
}

/// The header word packs the size and the opcode.
pub fn header_word(size: u16, opcode: u16) -> (r: u32)
    ensures
        r == spec_header_word(size, opcode),
        r >> 16u32 == size as u32,
        r & 0xFFFF == opcode as u32,
{
    let r: u32 = ((size as u32) << 16u32) | (opcode as u32);
    assert(r == (size as int * 0x1_0000 + opcode as int) as u32 && r >> 16u32 == size as u32 && r
        & 0xFFFF == opcode as u32) by (bit_vector)
        requires
            r == ((size as u32) << 16u32) | (opcode as u32),
    ;
    r
}

/// Unpacking the header word gives back the size and the opcode packed
/// into it.
pub proof fn lemma_header_word_roundtrip(size: u16, opcode: u16)
    ensures
        (spec_header_word(size, opcode) / 0x1_0000) as u16 == size,
        (spec_header_word(size, opcode) % 0x1_0000) as u16 == opcode,
{
    let w = spec_header_word(size, opcode);
    assert((w / 0x1_0000) as u16 == size && (w % 0x1_0000) as u16 == opcode) by (bit_vector)
        requires
            w == (size as int * 0x1_0000 + opcode as int) as u32,
    ;
}

impl Wire for Header {
    /// The object id, then the size and opcode in one word.
    open spec fn spec_wire(v: (u32, u16, u16)) -> Seq<u32> {
        seq![v.0, spec_header_word(v.1, v.2)]
    }

    open spec fn spec_wire_writable(v: (u32, u16, u16)) -> bool {
        true
    }

    open spec fn spec_wire_read(words: Seq<u32>) -> Result<(nat, (u32, u16, u16)), WireError> {
        if words.len() == 0 {
            Err(eof_one())
        } else if words[0] == 0 {
            Err(WireError::Malformed)
        } else if words.len() == 1 {
            Err(eof_one())
        } else {
            Ok((2, (words[0], (words[1] / 0x1_0000) as u16, (words[1] % 0x1_0000) as u16)))
        }
    }

    /// The object id is never zero.
    open spec fn spec_wire_faithful(v: (u32, u16, u16)) -> bool {
        v.0 != 0
    }

    fn wire_size(&self) -> (n: usize) {
        2
    }

    fn wire_write<'buf>(&self, buf: &'buf mut [u32]) -> (rest: &'buf mut [u32]) {
        let word = header_word(self.size, self.opcode);
        let buf = Wire::wire_write(&self.object, buf);
        write_word(buf, word)
    }

    fn wire_read<'buf>(buf: &'buf [u32]) -> (res: Result<(&'buf [u32], Header), WireError>) {
        let (buf2, object) = <Object as Wire>::wire_read(buf)?;
        let (rest, word) = read_word(buf2)?;
        let size: u16 = (word >> 16u32) as u16;
        let opcode: u16 = (word & 0xFFFF) as u16;
        assert(size == (word / 0x1_0000) as u16 && opcode == (word % 0x1_0000) as u16)
            by (bit_vector)
            requires
                size == (word >> 16u32) as u16,
                opcode == (word & 0xFFFF) as u16,
        ;
        proof {
            assert(rest@ =~= buf@.skip(2));
        }
        Ok((rest, Header { object, size, opcode }))
    }

    proof fn lemma_wire_roundtrip(v: (u32, u16, u16), rest: Seq<u32>) {
        lemma_header_word_roundtrip(v.1, v.2);
    }
}

impl<T: Wire> Wire for Option<T> {
    /// A zero word for `None`.
    open spec fn spec_wire(v: Option<<T as DeepView>::V>) -> Seq<u32> {
        match v {
            None => seq![0u32],
            Some(x) => T::spec_wire(x),
        }
    }

    open spec fn spec_wire_writable(v: Option<<T as DeepView>::V>) -> bool {
        match v {
            None => true,
            Some(x) => T::spec_wire_writable(x),
        }
    }

    /// A zero word reads as `None`; anything else is read as the value.
    open spec fn spec_wire_read(words: Seq<u32>) -> Result<(nat, Option<<T as DeepView>::V>), WireError> {
        if words.len() == 0 {
            Err(eof_one())
        } else if words[0] == 0 {
            Ok((1, None))
        } else {
            match T::spec_wire_read(words) {
                Ok((n, x)) => Ok((n, Some(x))),
                Err(e) => Err(e),
            }
        }
    }

    /// A present value does not start with a zero word, which would read
    /// as `None`.
    open spec fn spec_wire_faithful(v: Option<<T as DeepView>::V>) -> bool {
        match v {
            None => true,
            Some(x) => T::spec_wire_faithful(x) && T::spec_wire(x).len() > 0 && T::spec_wire(x)[0]
                != 0,
        }
    }

    fn wire_size(&self) -> (n: usize) {
        match self {
            None => 1,
            Some(value) => <T as Wire>::wire_size(value),
        }
    }

    fn wire_write<'buf>(&self, buf: &'buf mut [u32]) -> (rest: &'buf mut [u32]) {
        match self {
            None => write_word(buf, 0),
            Some(value) => <T as Wire>::wire_write(value, buf),
        }
    }

    fn wire_read<'buf>(buf: &'buf [u32]) -> (res: Result<(&'buf [u32], Option<T>), WireError>) {
        let (rest, value) = read_word(buf)?;
        if value == 0 {
            return Ok((rest, None));
        }
        let (rest, value) = <T as Wire>::wire_read(buf)?;
        Ok((rest, Some(value)))
    }

    proof fn lemma_wire_roundtrip(v: Option<<T as DeepView>::V>, rest: Seq<u32>) {
        match v {
            None => {},
            Some(x) => {
                T::lemma_wire_roundtrip(x, rest);
                assert((T::spec_wire(x) + rest)[0] == T::spec_wire(x)[0]);
            },
        }
    }
}

/// Trait for values that travel beside the words of a message, as
/// ancillary data of the socket (file descriptors).
pub trait WireAncillary: Sized {
}

} // verus!
