//! The decisions of a client connection: where the compositor's socket
//! is, and the words of a request as it is sent.

use vstd::prelude::*;

use crate::message::{MessageOpcode, MessageWire};
use crate::primitive::{Header, Object};
use crate::raw::{prepare_buf, write_header};
use crate::wire::{spec_header_word, Wire, WireError};

verus! {

#[verifier::external_type_specification]
#[verifier::external_body]
pub struct ExIoError(std::io::Error);

/// Errors that can happen while connecting to the compositor.
#[derive(Debug)]
pub enum ConnectError {
    /// failed to connect to the wayland socket
    Io(std::io::Error),
    /// invalid XDG_RUNTIME_DIR path
    XdgInvalid,
}

/// A path is absolute when it starts with the separator `/`.
pub open spec fn spec_is_absolute(path: Seq<u8>) -> bool {
    path.len() > 0 && path[0] == 0x2f
}

/// `dir` with the relative path `name` pushed onto it: a separator goes
/// between them unless `dir` is empty or already ends with one.
pub open spec fn spec_push(dir: Seq<u8>, name: Seq<u8>) -> Seq<u8> {
    if dir.len() > 0 && dir.last() != 0x2f {
        dir.push(0x2f) + name
    } else {
        dir + name
    }
}

/// The socket name used when `WAYLAND_DISPLAY` is not set.
pub open spec fn spec_default_display() -> Seq<u8> {
    seq![0x77u8, 0x61, 0x79, 0x6c, 0x61, 0x6e, 0x64, 0x2d, 0x30]
}

/// The path of the compositor's socket, given the values of
/// `WAYLAND_DISPLAY` and `XDG_RUNTIME_DIR`: an absolute display name is the
/// path; a relative one is pushed onto the runtime directory, which must be
/// set and absolute.
pub open spec fn spec_socket_path(display: Option<Seq<u8>>, runtime_dir: Option<Seq<u8>>) -> Option<
    Seq<u8>,
> {
    let name = match display {
        Some(d) => d,
        None => spec_default_display(),
    };
    if spec_is_absolute(name) {
        Some(name)
    } else {
        match runtime_dir {
            Some(dir) => if spec_is_absolute(dir) {
                Some(spec_push(dir, name))
            } else {
                None
            },
            None => None,
        }
    }
}

fn is_absolute(path: &Vec<u8>) -> (r: bool)
    ensures
        r == spec_is_absolute(path@),
{
    path.len() > 0 && path[0] == 0x2f
}

/// Append `tail` to `out`.
fn append(out: &mut Vec<u8>, tail: &Vec<u8>)
    ensures
        final(out)@ == old(out)@ + tail@,
{
    let mut i: usize = 0;
    let ghost start = out@;
    while i < tail.len()
        invariant
            i <= tail@.len(),
            out@ == start + tail@.subrange(0, i as int),
        decreases tail@.len() - i,
    {
        out.push(tail[i]);
        i = i + 1;
        assert(out@ =~= start + tail@.subrange(0, i as int));
    }
    assert(tail@.subrange(0, tail@.len() as int) =~= tail@);
}

/// The path of the compositor's socket, from the values of the
/// `WAYLAND_DISPLAY` and `XDG_RUNTIME_DIR` variables; `XdgInvalid` where a
/// relative display name meets a runtime directory that is unset or not
/// absolute.
pub fn socket_path(display: Option<Vec<u8>>, runtime_dir: Option<Vec<u8>>) -> (r: Result<
    Vec<u8>,
    ConnectError,
>)
    ensures
        match spec_socket_path(
            match display {
                Some(d) => Some(d@),
                None => None,
            },
            match runtime_dir {
                Some(d) => Some(d@),
                None => None,
            },
        ) {
            Some(p) => r matches Ok(v) && v@ == p,
            None => r matches Err(ConnectError::XdgInvalid),
        },
{
    let name = match display {
        Some(d) => d,
        None => {
            let v: Vec<u8> = vec![0x77u8, 0x61, 0x79, 0x6c, 0x61, 0x6e, 0x64, 0x2d, 0x30];
            assert(v@ =~= spec_default_display());
            v
        },
    };
    if is_absolute(&name) {
        return Ok(name);
    }
    match runtime_dir {
        Some(dir) => {
            if !is_absolute(&dir) {
                return Err(ConnectError::XdgInvalid);
            }
            let mut path = dir;
            let n = path.len();
            if path[n - 1] != 0x2f {
                path.push(0x2f);
            }
            append(&mut path, &name);
            Ok(path)
        },
        None => Err(ConnectError::XdgInvalid),
    }
}

/// Where the compositor's socket is. A display name that starts with `/` is
/// the path itself, whatever the runtime directory. A relative one, given or
/// the default `wayland-0`, is joined to an absolute runtime directory with
/// exactly one `/` between them; with no runtime directory, or a relative
/// one, there is no path.
pub proof fn lemma_socket_path_joins(display: Option<Seq<u8>>, runtime_dir: Option<Seq<u8>>)
    ensures
        ({
            let name = match display {
                Some(d) => d,
                None => seq![0x77u8, 0x61, 0x79, 0x6c, 0x61, 0x6e, 0x64, 0x2d, 0x30],
            };
            &&& (name.len() > 0 && name[0] == 0x2f) ==> spec_socket_path(display, runtime_dir)
                == Some(name)
            &&& !(name.len() > 0 && name[0] == 0x2f) ==> match runtime_dir {
                Some(dir) => if dir.len() > 0 && dir[0] == 0x2f {
                    if dir.last() == 0x2f {
                        spec_socket_path(display, runtime_dir) == Some(dir + name)
                    } else {
                        spec_socket_path(display, runtime_dir) == Some(dir + seq![0x2fu8] + name)
                    }
                } else {
                    spec_socket_path(display, runtime_dir) == None::<Seq<u8>>
                },
                None => spec_socket_path(display, runtime_dir) == None::<Seq<u8>>,
            }
        }),
{
    let name = match display {
        Some(d) => d,
        None => spec_default_display(),
    };
    assert(spec_default_display() =~= seq![0x77u8, 0x61, 0x79, 0x6c, 0x61, 0x6e, 0x64, 0x2d, 0x30]);
    match runtime_dir {
        Some(dir) => {
            if dir.len() > 0 && dir.last() != 0x2f {
                assert(dir.push(0x2f) + name =~= dir + seq![0x2fu8] + name);
            }
        },
        None => {},
    }
}

/// The size in bytes of a message whose arguments take `body_words`
/// words: the two header words and the arguments.
pub open spec fn spec_message_bytes(body_words: int) -> int {
    4 * (2 + body_words)
}

/// Lay out a request in `buf`: the header (object, size in bytes, opcode)
/// and then the arguments, `buf` made exactly that long. Returns the
/// number of words of the arguments, or `None` (leaving `buf` alone) where
/// the message's size in bytes does not fit the header's 16 bits.
pub fn encode_message<M: MessageWire + MessageOpcode>(buf: &mut Vec<u32>, object: Object, msg: &M) -> (r:
    Option<usize>)
    ensures
        r is None <==> spec_message_bytes(msg.spec_message_words()@.len() as int) > u16::MAX,
        match r {
            Some(n) => n == msg.spec_message_words()@.len() && final(buf)@.len() == 2 + n
                && final(buf)@.skip(2) == msg.spec_message_words()@ && spec_message_bytes(n as int) <= u16::MAX
                && final(buf)@[0] == object@ && final(buf)@[1] == spec_header_word(
                spec_message_bytes(n as int) as u16,
                M::OPCODE,
            ),
            None => *final(buf) == *old(buf),
        },
{
    let body = msg.message_size();
    if body > (u16::MAX as usize) / 4 - 2 {
        return None;
    }
    let size = 2 + body;
    let header = Header::new(object, size as u16 * 4, M::OPCODE);
    prepare_buf(buf, size);
    let (head, rest) = buf.as_mut_slice().split_at_mut(2);
    let _ = write_header(head, header);
    msg.message_write(rest);
    proof {
        assert(buf@.skip(2) =~= msg.spec_message_words()@);
    }
    Some(body)
}

/// Reading the header words that `encode_message` lays out gives back the
/// object, the message's size in bytes and the opcode.
pub proof fn lemma_encoded_header_reads_back(
    object: u32,
    body_words: int,
    opcode: u16,
    rest: Seq<u32>,
)
    requires
        object != 0,
        0 <= body_words,
        spec_message_bytes(body_words) <= u16::MAX,
    ensures
        <Header as Wire>::spec_wire_read(
            seq![object, spec_header_word(spec_message_bytes(body_words) as u16, opcode)] + rest,
        ) == Ok::<(nat, (u32, u16, u16)), WireError>(
            (2, (object, spec_message_bytes(body_words) as u16, opcode)),
        ),
{
    let v = (object, spec_message_bytes(body_words) as u16, opcode);
    <Header as Wire>::lemma_wire_roundtrip(v, rest);
    assert(<Header as Wire>::spec_wire(v) =~= seq![object, spec_header_word(v.1, opcode)]);
}

/// Why a message header cannot start a message.
#[derive(Debug, Clone, Copy, PartialEq, Eq)]
pub enum HeaderError {
    /// The size is not a whole number of words.
    Unaligned,
    /// The size does not cover the two header words.
    TooShort,
}

/// The number of words of the arguments that follow a header: its size in
/// bytes, without the eight of the header, in words. The size must be a
/// whole number of words and cover the header.
pub fn body_words(header: Header) -> (r: Result<usize, HeaderError>)
    ensures
        header.size % 4 != 0 ==> r == Err::<usize, HeaderError>(HeaderError::Unaligned),
        header.size % 4 == 0 && header.size < 8 ==> r == Err::<usize, HeaderError>(
            HeaderError::TooShort,
        ),
        header.size % 4 == 0 && header.size >= 8 ==> r == Ok::<usize, HeaderError>(
            ((header.size - 8) / 4) as usize,
        ),
{
    if header.size % 4 != 0 {
        Err(HeaderError::Unaligned)
    } else if header.size < 8 {
        Err(HeaderError::TooShort)
    } else {
        Ok(((header.size as usize) - 8 + 3) / 4)
    }
}

/// The events a client that has asked for the registry (object `registry`)
/// and for a callback (object `callback`) of the display (object `display`)
/// tells apart.
#[derive(Debug, Clone, Copy, PartialEq, Eq)]
pub enum ClientEvent {
    /// `wl_registry.global`: a global the compositor offers.
    Global,
    /// `wl_callback.done`: the compositor has handled every request before
    /// the callback; the exchange is over.
    Done,
    /// `wl_display.error`: a fatal error.
    Error,
    /// Any other event, which is ignored.
    Unexpected,
}

/// Which event a header announces: opcode 0 of the registry, of the
/// callback or of the display, or another.
pub fn classify_event(header: Header, display: Object, registry: Object, callback: Object) -> (r:
    ClientEvent)
    ensures
        r == (if header.opcode != 0 {
            ClientEvent::Unexpected
        } else if header.object@ == registry@ {
            ClientEvent::Global
        } else if header.object@ == callback@ {
            ClientEvent::Done
        } else if header.object@ == display@ {
            ClientEvent::Error
        } else {
            ClientEvent::Unexpected
        }),
{
    let object = header.object.get();
    if header.opcode != 0 {
        ClientEvent::Unexpected
    } else if object == registry.get() {
        ClientEvent::Global
    } else if object == callback.get() {
        ClientEvent::Done
    } else if object == display.get() {
        ClientEvent::Error
    } else {
        ClientEvent::Unexpected
    }
}

} // verus!
