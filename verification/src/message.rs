//! Whole messages: their encoding and the opcode that names them.

use vstd::prelude::*;

use core::mem::MaybeUninit;

use crate::wire::WireError;

verus! {

/// A message that can be written to and read from the wire format, as the
/// scanner generates it for each request and event.
///
/// `spec_message_words` holds the words the arguments are written as, and
/// `spec_message_read` the message that the words at the front of a buffer
/// hold, or the error that reading them meets.
pub trait MessageWire: Sized {
    spec fn spec_message_words(&self) -> Vec<u32>;

    spec fn spec_message_read(buf: &[u32]) -> Result<Self, WireError>;

    /// Write the arguments to the front of `buf`, which must have room for
    /// them; the length of `buf` does not change.
    fn message_write(&self, buf: &mut [u32])
        requires
            self.spec_message_words()@.len() <= old(buf)@.len(),
        ensures
            final(buf)@.len() == old(buf)@.len(),
            final(buf)@.take(self.spec_message_words()@.len() as int) == self.spec_message_words()@,
    ;

    /// Read the arguments from `buf` into `msg`: on success `msg` holds the
    /// message the words hold.
    fn message_read_into(buf: &[u32], msg: &mut MaybeUninit<Self>) -> (r: Result<(), WireError>)
        ensures
            match Self::spec_message_read(buf) {
                Ok(m) => r is Ok && final(msg).as_option() == Some(m),
                Err(e) => r == Err::<(), WireError>(e),
            },
    ;

    /// The size of the arguments in words.
    fn message_size(&self) -> (n: usize)
        ensures
            n == self.spec_message_words()@.len(),
    ;

    /// Read a message from `buf`: a fresh message filled by
    /// `message_read_into`, or its error.
    fn message_read(buf: &[u32]) -> (r: Result<MaybeUninit<Self>, WireError>)
        ensures
            match Self::spec_message_read(buf) {
                Ok(m) => r matches Ok(x) && x.as_option() == Some(m),
                Err(e) => r matches Err(e2) && e2 == e,
            },
    {
        let mut msg = MaybeUninit::uninit();
        match Self::message_read_into(buf, &mut msg) {
            Ok(()) => Ok(msg),
            Err(e) => Err(e),
        }
    }
}

/// The opcode of a message within its interface.
pub trait MessageOpcode {
    const OPCODE: u16;
}

} // verus!
