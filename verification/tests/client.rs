use std::mem::MaybeUninit;

use wayland::client::{body_words, classify_event, encode_message, socket_path, ClientEvent, ConnectError, HeaderError};
use wayland::primitive::Header;
use wayland::message::{MessageOpcode, MessageWire};
use wayland::primitive::Object;
use wayland::wire::{Wire, WireError};

#[derive(Debug)]
struct GetRegistry {
    registry: Object,
}

impl MessageOpcode for GetRegistry {
    const OPCODE: u16 = 1;
}

impl MessageWire for GetRegistry {
    fn spec_message_words(&self) -> Vec<u32> {
        let mut words = vec![0u32; self.message_size()];
        self.message_write(&mut words);
        words
    }

    fn spec_message_read(buf: &[u32]) -> Result<Self, WireError> {
        let (_, registry) = Object::wire_read(buf)?;
        Ok(GetRegistry { registry })
    }

    fn message_write(&self, buf: &mut [u32]) {
        let _ = self.registry.wire_write(buf);
    }

    fn message_read_into(buf: &[u32], msg: &mut MaybeUninit<Self>) -> Result<(), WireError> {
        let (_, registry) = Object::wire_read(buf)?;
        msg.write(GetRegistry { registry });
        Ok(())
    }

    fn message_size(&self) -> usize {
        self.registry.wire_size()
    }
}

#[test]
fn encodes_a_request() {
    let mut buf = vec![7u32; 10];
    let msg = GetRegistry { registry: Object::new(2).unwrap() };
    assert_eq!(encode_message(&mut buf, Object::new(1).unwrap(), &msg), Some(1));
    assert_eq!(buf, vec![1, (12 << 16) | 1, 2]);
}

#[test]
fn reads_a_message() {
    assert!(GetRegistry::message_read(&[2u32]).is_ok());
    assert!(matches!(GetRegistry::message_read(&[0u32]), Err(WireError::Malformed)));
    assert!(matches!(
        GetRegistry::message_read(&[]),
        Err(WireError::UnexpectedEof { needed: 1, available: 0 })
    ));
}

#[test]
fn socket_paths() {
    let p = socket_path(Some(b"/tmp/sock".to_vec()), None).unwrap();
    assert_eq!(p, b"/tmp/sock");
    let p = socket_path(None, Some(b"/run/user/1000".to_vec())).unwrap();
    assert_eq!(p, b"/run/user/1000/wayland-0");
    let p = socket_path(Some(b"wayland-1".to_vec()), Some(b"/run/".to_vec())).unwrap();
    assert_eq!(p, b"/run/wayland-1");
    assert!(matches!(socket_path(None, None), Err(ConnectError::XdgInvalid)));
    assert!(matches!(socket_path(None, Some(b"relative".to_vec())), Err(ConnectError::XdgInvalid)));
}

#[test]
fn header_body_sizes() {
    let o = Object::new(1).unwrap();
    assert_eq!(body_words(Header::new(o, 8, 0)), Ok(0));
    assert_eq!(body_words(Header::new(o, 20, 0)), Ok(3));
    assert_eq!(body_words(Header::new(o, 10, 0)), Err(HeaderError::Unaligned));
    assert_eq!(body_words(Header::new(o, 4, 0)), Err(HeaderError::TooShort));
}

#[test]
fn events_are_classified() {
    let display = Object::new(1).unwrap();
    let registry = Object::new(2).unwrap();
    let callback = Object::new(3).unwrap();
    let at = |id: u32, opcode: u16| Header::new(Object::new(id).unwrap(), 8, opcode);
    assert_eq!(classify_event(at(2, 0), display, registry, callback), ClientEvent::Global);
    assert_eq!(classify_event(at(3, 0), display, registry, callback), ClientEvent::Done);
    assert_eq!(classify_event(at(1, 0), display, registry, callback), ClientEvent::Error);
    assert_eq!(classify_event(at(2, 1), display, registry, callback), ClientEvent::Unexpected);
    assert_eq!(classify_event(at(9, 0), display, registry, callback), ClientEvent::Unexpected);
}
