//! The primitive values that travel in a Wayland message: enumeration
//! wrappers, 24.8 fixed-point numbers, object ids and message headers.

use vstd::prelude::*;

verus! {

/// Error returned when a wire value names no entry of an enumeration.
#[derive(Debug, Clone, Copy, PartialEq, Eq)]
pub struct EnumParseError {
    pub received: u32,
    pub interface: &'static str,
    pub enu: &'static str,
}

/// An enumeration of a protocol, as the scanner generates it.
///
/// `spec_uint` is the value that an entry carries on the wire and
/// `spec_from_uint` the entry (if any) that a wire value names.
pub trait Enum: Sized + Copy {
    spec fn spec_uint(self) -> u32;

    spec fn spec_from_uint(value: u32) -> Option<Self>;

    /// The entry's value, read as a signed integer.
    fn int_value(self) -> (r: i32)
        ensures
            r == self.spec_uint() as i32,
    ;

    /// The entry's value.
    fn uint(self) -> (r: u32)
        ensures
            r == self.spec_uint(),
    ;

    /// The entry that `value` names, or the error that reports it.
    fn from_uint(value: u32) -> (r: Result<Self, EnumParseError>)
        ensures
            r is Ok <==> Self::spec_from_uint(value) is Some,
            r matches Ok(e) ==> Self::spec_from_uint(value) == Some(e),
            r matches Err(err) ==> err.received == value,
    ;
}

/// An enumeration carried in a signed `int` argument.
#[derive(Debug, Clone, Copy, PartialEq, Eq, PartialOrd, Ord, Hash)]
pub struct Int<T>(pub T) where T: Enum;

impl<T> Int<T> where T: Enum {
    pub fn new(value: T) -> (r: Self)
        ensures
            r.0 == value,
    {
        Int(value)
    }
}

/// An enumeration carried in an unsigned `uint` argument.
#[derive(Debug, Clone, Copy, PartialEq, Eq, PartialOrd, Ord, Hash)]
pub struct Uint<T>(pub T) where T: Enum;

impl<T> Uint<T> where T: Enum {
    pub fn new(value: T) -> (r: Self)
        ensures
            r.0 == value,
    {
        Uint(value)
    }
}

/// Wayland fixed-point number (24.8 format): the raw bits are the value
/// times 256.
#[derive(Debug, Clone, Copy, PartialEq, Eq, PartialOrd, Ord, Hash)]
pub struct Fixed(i32);

impl View for Fixed {
    type V = i32;

    closed spec fn view(&self) -> i32 {
        self.0
    }
}

/// The raw bits of the fixed-point number whose integer part is `integer`
/// and whose fraction is `fractional / 256`, wrapped to 32 bits.
pub open spec fn spec_fixed_from_parts(integer: i32, fractional: u8) -> i32 {
    (integer * 256 + fractional) as i32
}

impl DeepView for Fixed {
    type V = i32;

    open spec fn deep_view(&self) -> i32 {
        self@
    }
}

impl Fixed {
    /// Create a Fixed from a raw i32 value
    pub fn from_bits(bits: i32) -> (r: Self)
        ensures
            r@ == bits,
    {
        Fixed(bits)
    }

    /// Get the raw i32 bits
    pub fn to_bits(self) -> (r: i32)
        ensures
            r == self@,
    {
        self.0
    }

    /// Create a Fixed from integer and fractional parts
    pub fn from_parts(integer: i32, fractional: u8) -> (r: Self)
        ensures
            r@ == spec_fixed_from_parts(integer, fractional),
    {
        let f: i32 = fractional as i32;
        let bits: i32 = (integer << 8u32) | f;
        assert(bits == (integer * 256 + f) as i32) by (bit_vector)
            requires
                bits == (integer << 8u32) | f,
                0 <= f < 256,
        ;
        Fixed(bits)
    }

    /// Get the integer part: the bits divided by 256, rounded down.
    pub fn integer_part(self) -> (r: i32)
        ensures
            r as int == self@ as int / 256,
    {
        let bits = self.0;
        let r: i32 = bits >> 8u32;
        assert(r as int == bits as int / 256) by (bit_vector)
            requires
                r == bits >> 8u32,
        ;
        r
    }

    /// Get the fractional part (0-255): the bits modulo 256.
    pub fn fractional_part(self) -> (r: u8)
        ensures
            r as int == self@ as int % 256,
    {
        let bits = self.0;
        let r: u8 = (bits & 0xFF) as u8;
        assert(r as int == bits as int % 256) by (bit_vector)
            requires
                r == (bits & 0xFF) as u8,
        ;
        r
    }
}

/// The parts of a fixed-point number put back together give the number:
/// `from_parts(x.integer_part(), x.fractional_part()) == x` for every `x`.
pub proof fn lemma_fixed_parts_recompose(bits: i32)
    ensures
        bits as int / 256 >= i32::MIN,
        bits as int / 256 <= i32::MAX,
        spec_fixed_from_parts((bits as int / 256) as i32, (bits as int % 256) as u8) == bits,
{
    let i: i32 = (bits as int / 256) as i32;
    let f: u8 = (bits as int % 256) as u8;
    assert(bits as int / 256 >= i32::MIN && bits as int / 256 <= i32::MAX) by (bit_vector);
    assert(i == (bits as int / 256) as i32 && f == (bits as int % 256) as u8 ==> (i * 256 + f)
        as i32 == bits) by (bit_vector);
}

/// Splitting a fixed-point number built from parts gives the parts back,
/// the integer part as long as it fits in 24 bits: for every `integer` in
/// `-2^23 .. 2^23` and every `fractional`, `from_parts(integer, fractional)`
/// has integer part `integer` and fractional part `fractional`.
pub proof fn lemma_fixed_parts_split(integer: i32, fractional: u8)
    ensures
        spec_fixed_from_parts(integer, fractional) as int % 256 == fractional,
        -0x80_0000 <= integer < 0x80_0000 ==> spec_fixed_from_parts(integer, fractional) as int
            / 256 == integer,
{
    assert(((integer * 256 + fractional) as i32) as int % 256 == fractional) by (bit_vector);
    assert(-0x80_0000 <= integer < 0x80_0000 ==> ((integer * 256 + fractional) as i32) as int / 256
        == integer) by (bit_vector);
}

/// Wayland object ID: never zero.
#[derive(Debug, Clone, Copy, PartialEq, Eq, PartialOrd, Ord, Hash)]
pub struct Object {
    id: u32,
}

impl View for Object {
    type V = u32;

    closed spec fn view(&self) -> u32 {
        self.id
    }
}

impl DeepView for Object {
    type V = u32;

    open spec fn deep_view(&self) -> u32 {
        self@
    }
}

impl Object {
    #[verifier::type_invariant]
    closed spec fn object_inv(self) -> bool {
        self.id != 0
    }

    /// Create a new ObjectId, with validation that it's non-zero
    pub fn new(id: u32) -> (r: Option<Self>)
        ensures
            r is Some <==> id != 0,
            r matches Some(o) ==> o@ == id,
    {
        if id == 0 {
            None
        } else {
            Some(Object { id })
        }
    }

    /// Create a new ObjectId from an id known to be non-zero.
    pub fn new_unchecked(id: u32) -> (r: Self)
        requires
            id != 0,
        ensures
            r@ == id,
    {
        Object { id }
    }

    /// Get the raw u32 value
    pub fn get(self) -> (r: u32)
        ensures
            r == self@,
            r != 0,
    {
        proof {
            use_type_invariant(&self);
        }
        self.id
    }
}

/// A message header: the object it is addressed to, the size of the
/// message in bytes, and the opcode.
#[derive(Debug, Clone, Copy, PartialEq, Eq, Hash)]
pub struct Header {
    pub object: Object,
    pub size: u16,
    pub opcode: u16,
}

impl View for Header {
    type V = (u32, u16, u16);

    open spec fn view(&self) -> (u32, u16, u16) {
        (self.object@, self.size, self.opcode)
    }
}

impl DeepView for Header {
    type V = (u32, u16, u16);

    open spec fn deep_view(&self) -> (u32, u16, u16) {
        self@
    }
}

impl Header {
    pub fn new(object: Object, size: u16, opcode: u16) -> (r: Self)
        ensures
            r@ == (object@, size, opcode),
            r.object == object,
    {
        Header { object, size, opcode }
    }
}

} // verus!
