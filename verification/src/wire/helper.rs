//! How a type gets its [`Wire`] implementation: through its kind
//! ([`Marker`]), from the one-word encoding of a [`crate::wire::WirePrimitive`]
//! or the length-prefixed encoding of a [`crate::wire::WireDynamic`].

use vstd::prelude::*;

use crate::primitive::{Fixed, Int, Object, Uint, Enum};
use crate::wire::{read_outcome, Wire, WireError};

verus! {

/// The encoding of a type of the kind `M`, with the same items as
/// [`Wire`].
pub trait WireHelper<M>: DeepView + Sized {
    /// The words that encode `v`.
    spec fn spec_wire(v: <Self as DeepView>::V) -> Seq<u32>;

    /// Writing `v` is possible (it does not panic).
    spec fn spec_wire_writable(v: <Self as DeepView>::V) -> bool;

    /// The outcome of reading from `words`: the number of words consumed
    /// and the value, or the error.
    spec fn spec_wire_read(words: Seq<u32>) -> Result<(nat, <Self as DeepView>::V), WireError>;

    /// Reading gives `v` back after writing it.
    spec fn spec_wire_faithful(v: <Self as DeepView>::V) -> bool;

    fn wire_size(&self) -> (n: usize)
        requires
            Self::spec_wire_writable(self.deep_view()),
        ensures
            n == Self::spec_wire(self.deep_view()).len(),
    ;

    fn wire_write<'buf>(&self, buf: &'buf mut [u32]) -> (rest: &'buf mut [u32])
        requires
            Self::spec_wire_writable(self.deep_view()),
            Self::spec_wire(self.deep_view()).len() <= old(buf)@.len(),
        ensures
            rest@ == old(buf)@.skip(Self::spec_wire(self.deep_view()).len() as int),
            final(buf)@ == Self::spec_wire(self.deep_view()) + final(rest)@,
    ;

    fn wire_read<'buf>(buf: &'buf [u32]) -> (res: Result<(&'buf [u32], Self), WireError>)
        ensures
            read_outcome(buf@, Self::spec_wire_read(buf@), res),
    ;

    proof fn lemma_wire_roundtrip(v: <Self as DeepView>::V, rest: Seq<u32>)
        requires
            Self::spec_wire_writable(v),
            Self::spec_wire_faithful(v),
        ensures
            Self::spec_wire_read(Self::spec_wire(v) + rest) == Ok::<(nat, <Self as DeepView>::V), WireError>(
                (Self::spec_wire(v).len(), v),
            ),
    ;
}

/// The kind of a type's encoding.
pub trait Marker {
    type Marker;
}

/// The kind of the types that take one word.
pub struct WirePrimitiveMarker;

/// The kind of the types that take a length and padded bytes.
pub struct WireDynamicMarker;

impl<T> Wire for T where T: Marker + WireHelper<<T as Marker>::Marker> {
    open spec fn spec_wire(v: <T as DeepView>::V) -> Seq<u32> {
        <T as WireHelper<<T as Marker>::Marker>>::spec_wire(v)
    }

    open spec fn spec_wire_writable(v: <T as DeepView>::V) -> bool {
        <T as WireHelper<<T as Marker>::Marker>>::spec_wire_writable(v)
    }

    open spec fn spec_wire_read(words: Seq<u32>) -> Result<(nat, <T as DeepView>::V), WireError> {
        <T as WireHelper<<T as Marker>::Marker>>::spec_wire_read(words)
    }

    open spec fn spec_wire_faithful(v: <T as DeepView>::V) -> bool {
        <T as WireHelper<<T as Marker>::Marker>>::spec_wire_faithful(v)
    }

    fn wire_size(&self) -> (n: usize) {
        <T as WireHelper<<T as Marker>::Marker>>::wire_size(self)
    }

    fn wire_write<'buf>(&self, buf: &'buf mut [u32]) -> (rest: &'buf mut [u32]) {
        <T as WireHelper<<T as Marker>::Marker>>::wire_write(self, buf)
    }

    fn wire_read<'buf>(buf: &'buf [u32]) -> (res: Result<(&'buf [u32], T), WireError>) {
        <T as WireHelper<<T as Marker>::Marker>>::wire_read(buf)
    }

    proof fn lemma_wire_roundtrip(v: <T as DeepView>::V, rest: Seq<u32>) {
        <T as WireHelper<<T as Marker>::Marker>>::lemma_wire_roundtrip(v, rest)
    }
}

impl Marker for i32 {
    type Marker = WirePrimitiveMarker;
}

impl Marker for u32 {
    type Marker = WirePrimitiveMarker;
}

impl<T> Marker for Int<T> where T: Enum {
    type Marker = WirePrimitiveMarker;
}

impl<T> Marker for Uint<T> where T: Enum {
    type Marker = WirePrimitiveMarker;
}

impl Marker for Fixed {
    type Marker = WirePrimitiveMarker;
}

impl Marker for Object {
    type Marker = WirePrimitiveMarker;
}

impl Marker for String {
    type Marker = WireDynamicMarker;
}

impl Marker for Vec<u8> {
    type Marker = WireDynamicMarker;
}

} // verus!
