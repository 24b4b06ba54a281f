use wayland::packing::pad;
use wayland::primitive::{Enum, EnumParseError, Fixed, Header, Int, Object, Uint};
use wayland::wire::{cstr_check, header_word, Wire, WireDynamic, WireError, WirePrimitive};

#[derive(Debug, Clone, Copy, PartialEq, Eq)]
enum Mode {
    Current,
    Preferred,
}

impl Enum for Mode {
    fn spec_uint(self) -> u32 {
        self.uint()
    }

    fn spec_from_uint(value: u32) -> Option<Self> {
        Self::from_uint(value).ok()
    }

    fn int_value(self) -> i32 {
        self.uint() as i32
    }

    fn uint(self) -> u32 {
        match self {
            Mode::Current => 1,
            Mode::Preferred => 2,
        }
    }

    fn from_uint(value: u32) -> Result<Self, EnumParseError> {
        match value {
            1 => Ok(Mode::Current),
            2 => Ok(Mode::Preferred),
            _ => Err(EnumParseError { received: value, interface: "wl_output", enu: "mode" }),
        }
    }
}

fn roundtrip<T: Wire + std::fmt::Debug>(value: &T, words: usize) -> (Vec<u32>, T) {
    assert_eq!(value.wire_size(), words);
    let mut buf = vec![0xdead_beefu32; words + 2];
    let rest = value.wire_write(&mut buf);
    assert_eq!(rest.len(), 2);
    let (rest, back) = T::wire_read(&buf).unwrap();
    assert_eq!(rest.len(), 2);
    (buf, back)
}

#[test]
fn int_roundtrip_and_encoding() {
    let (buf, back) = roundtrip(&-2i32, 1);
    assert_eq!(buf[0], 0xffff_fffe);
    assert_eq!(back, -2);
}

#[test]
fn uint_roundtrip() {
    let (buf, back) = roundtrip(&0x1234_5678u32, 1);
    assert_eq!(buf[0], 0x1234_5678);
    assert_eq!(back, 0x1234_5678);
}

#[test]
fn fixed_roundtrip() {
    let f = Fixed::from_bits(-256);
    let (buf, back) = roundtrip(&f, 1);
    assert_eq!(buf[0], 0xffff_ff00);
    assert_eq!(back.to_bits(), -256);
}

#[test]
fn fixed_parts() {
    let f = Fixed::from_parts(3, 0x80);
    assert_eq!(f.to_bits(), 3 * 256 + 128);
    assert_eq!(f.integer_part(), 3);
    assert_eq!(f.fractional_part(), 0x80);
    let g = Fixed::from_parts(-1, 0x40);
    assert_eq!(g.to_bits(), -256 + 64);
    assert_eq!(g.integer_part(), -1);
    assert_eq!(g.fractional_part(), 0x40);
    let h = Fixed::from_bits(-1);
    assert_eq!(h.integer_part(), -1);
    assert_eq!(h.fractional_part(), 255);
    let back = Fixed::from_parts(h.integer_part(), h.fractional_part());
    assert_eq!(back.to_bits(), -1);
}

#[test]
fn object_roundtrip_and_zero_is_malformed() {
    let o = Object::new(7).unwrap();
    let (_, back) = roundtrip(&o, 1);
    assert_eq!(back.get(), 7);
    assert!(Object::new(0).is_none());
    assert_eq!(Object::wire_read(&[0u32, 1]).unwrap_err(), WireError::Malformed);
}

#[test]
fn read_from_empty_buffer_is_eof() {
    let empty: [u32; 0] = [];
    assert_eq!(u32::wire_read(&empty).unwrap_err(), WireError::UnexpectedEof { needed: 1, available: 0 });
    assert_eq!(Header::wire_read(&empty).unwrap_err(), WireError::UnexpectedEof { needed: 1, available: 0 });
}

#[test]
fn header_roundtrip() {
    let h = Header::new(Object::new(1).unwrap(), 12, 1);
    let (buf, back) = roundtrip(&h, 2);
    assert_eq!(buf[0], 1);
    assert_eq!(buf[1], (12 << 16) | 1);
    assert_eq!(back.object.get(), 1);
    assert_eq!(back.size, 12);
    assert_eq!(back.opcode, 1);
    assert_eq!(header_word(0xabcd, 0x1234), 0xabcd_1234);
}

#[test]
fn header_with_one_word_is_eof() {
    assert_eq!(Header::wire_read(&[3u32]).unwrap_err(), WireError::UnexpectedEof { needed: 1, available: 0 });
}

#[test]
fn string_encoding() {
    let s = String::from("abc");
    let (buf, back) = roundtrip(&s, 2);
    assert_eq!(buf[0], 4);
    assert_eq!(buf[1], u32::from_le_bytes([b'a', b'b', b'c', 0]));
    assert_eq!(back, "abc");
    let s = String::from("abcd");
    let (buf, back) = roundtrip(&s, 3);
    assert_eq!(buf[0], 5);
    assert_eq!(buf[2], 0);
    assert_eq!(back, "abcd");
    let s = String::new();
    let (buf, back) = roundtrip(&s, 2);
    assert_eq!(buf[0], 1);
    assert_eq!(buf[1], 0);
    assert_eq!(back, "");
    let s = String::from("héllo");
    let (_, back) = roundtrip(&s, 3);
    assert_eq!(back, "héllo");
}

#[test]
fn string_errors() {
    // A length that overruns the buffer.
    assert_eq!(
        String::wire_read(&[9u32, 0]).unwrap_err(),
        WireError::UnexpectedEof { needed: 3, available: 1 }
    );
    // No null terminator.
    let word = u32::from_le_bytes([b'a', b'b', b'c', b'd']);
    assert_eq!(String::wire_read(&[4u32, word]).unwrap_err(), WireError::Malformed);
    // Invalid UTF-8 before the terminator.
    let word = u32::from_le_bytes([0xff, 0xfe, 0, 0]);
    assert_eq!(String::wire_read(&[3u32, word]).unwrap_err(), WireError::Malformed);
    // A zero length is no C string.
    assert_eq!(String::wire_read(&[0u32]).unwrap_err(), WireError::Malformed);
}

#[test]
fn array_roundtrip() {
    let v: Vec<u8> = vec![1, 2, 3, 4, 5];
    let (buf, back) = roundtrip(&v, 3);
    assert_eq!(buf[0], 5);
    assert_eq!(buf[1], 0x0403_0201);
    assert_eq!(buf[2], 5);
    assert_eq!(back, v);
    let empty_array: Vec<u8> = Vec::new();
    assert_eq!(empty_array.wire_size(), 1);
    let mut out = [9u32, 9];
    let rest = empty_array.wire_write(&mut out);
    assert_eq!(rest.len(), 1);
    assert_eq!(out, [0, 9]);
    let (rest, empty) = Vec::<u8>::wire_read(&[0u32, 9]).unwrap();
    assert!(empty.is_empty());
    assert_eq!(rest, &[9u32]);
}

#[test]
fn option_roundtrip() {
    let none: Option<Object> = None;
    let (buf, back) = roundtrip(&none, 1);
    assert_eq!(buf[0], 0);
    assert!(back.is_none());
    let some = Some(Object::new(5).unwrap());
    let (_, back) = roundtrip(&some, 1);
    assert_eq!(back.unwrap().get(), 5);
    let some = Some(String::from("x"));
    let (_, back) = roundtrip(&some, 2);
    assert_eq!(back.unwrap(), "x");
}

#[test]
fn option_of_zero_reads_as_none() {
    let (_, back) = roundtrip(&Some(0u32), 1);
    assert!(back.is_none());
}

#[test]
fn enum_wrappers() {
    let (buf, back) = roundtrip(&Uint::new(Mode::Preferred), 1);
    assert_eq!(buf[0], 2);
    assert_eq!(back.0, Mode::Preferred);
    let (_, back) = roundtrip(&Int::new(Mode::Current), 1);
    assert_eq!(back.0, Mode::Current);
    assert_eq!(Uint::<Mode>::wire_read(&[7u32]).unwrap_err(), WireError::Malformed);
    assert_eq!(WireError::from(EnumParseError { received: 7, interface: "a", enu: "b" }), WireError::Malformed);
}

#[test]
fn padding_and_cstr() {
    assert_eq!(pad(0), 0);
    assert_eq!(pad(1), 1);
    assert_eq!(pad(4), 1);
    assert_eq!(pad(5), 2);
    assert!(cstr_check(b"ab\0"));
    assert!(!cstr_check(b"a\0b\0"));
    assert!(!cstr_check(b"ab"));
    assert!(!cstr_check(b""));
}

#[test]
fn primitive_values_and_parsing() {
    assert_eq!((-1i32).value(), u32::MAX);
    assert_eq!(i32::parse(u32::MAX), Some(-1));
    assert_eq!(7u32.value(), 7);
    assert_eq!(Fixed::from_bits(-256).value(), 0xFFFF_FF00);
    assert_eq!(Object::parse(0), None);
    assert_eq!(Object::parse(5).map(Object::get), Some(5));
    assert_eq!(Object::new(9).unwrap().value(), 9);
    assert_eq!(Int(Mode::Preferred).value(), 2);
    assert_eq!(Uint::<Mode>::parse(1), Some(Uint(Mode::Current)));
    assert_eq!(Uint::<Mode>::parse(3), None);
}

#[test]
fn dynamic_payloads() {
    let s = String::from("hi");
    assert_eq!(s.data(), b"hi");
    assert_eq!(s.dynamic_size(), 3);
    let mut buf = [0u8; 3];
    s.dynamic_write(&mut buf);
    assert_eq!(&buf, b"hi\0");
    assert_eq!(String::dynamic_read(b"hi\0").unwrap(), "hi");
    assert_eq!(String::dynamic_read(b"hi").unwrap_err(), WireError::Malformed);
    assert_eq!(String::dynamic_read(b"h\0i\0").unwrap_err(), WireError::Malformed);
    let v = vec![1u8, 2, 3, 4, 5];
    assert_eq!(v.dynamic_size(), 5);
    let mut out = [0u8; 5];
    v.dynamic_write(&mut out);
    assert_eq!(out, [1, 2, 3, 4, 5]);
    assert_eq!(Vec::<u8>::dynamic_read(&[9, 8]).unwrap(), vec![9, 8]);
}
