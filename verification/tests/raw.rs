use wayland::argument::Argument;
use wayland::primitive::{Fixed, Header, Object};
use wayland::raw::{
    bytes, prepare_buf, read_fixed, read_header, read_int, read_new_id, read_object,
    read_object_nullable, read_string, read_string_nullable, read_uint, write_fixed, write_header,
    write_int, write_new_id, write_object, write_object_nullable, write_string,
    write_string_nullable, write_uint,
};

#[test]
fn prepare_buf_resizes() {
    let mut buf = vec![1u32, 2, 3];
    prepare_buf(&mut buf, 5);
    assert_eq!(buf, vec![1, 2, 3, 0, 0]);
    prepare_buf(&mut buf, 2);
    assert_eq!(buf, vec![1, 2]);
}

#[test]
fn bytes_are_little_endian_words() {
    assert_eq!(bytes(&[0x0403_0201u32, 0x0807_0605]), vec![1, 2, 3, 4, 5, 6, 7, 8]);
}

#[test]
fn scalars_write_and_read() {
    let mut buf = [0u32; 6];
    let rest = write_int(&mut buf, -1);
    let rest = write_uint(rest, 42);
    let rest = write_fixed(rest, Fixed::from_bits(512));
    let rest = write_object(rest, Object::new(9).unwrap());
    let rest = write_object_nullable(rest, None);
    let rest = write_new_id(rest, Object::new(10).unwrap());
    assert!(rest.is_empty());
    assert_eq!(buf, [0xffff_ffff, 42, 512, 9, 0, 10]);
    let (rest, a) = read_int(&buf);
    let (rest, b) = read_uint(rest);
    let (rest, c) = read_fixed(rest);
    let (rest, d) = read_object(rest);
    let (rest, e) = read_object_nullable(rest);
    let (rest, f) = read_new_id(rest);
    assert!(rest.is_empty());
    assert_eq!((a, b, c.to_bits(), d.get(), e.is_none(), f.get()), (-1, 42, 512, 9, true, 10));
}

#[test]
fn header_write_and_read() {
    let mut buf = [0u32; 2];
    let rest = write_header(&mut buf, Header::new(Object::new(1).unwrap(), 12, 1));
    assert!(rest.is_empty());
    assert_eq!(buf, [1, 0x000c_0001]);
    let (_, h) = read_header(&buf);
    assert_eq!((h.object.get(), h.size, h.opcode), (1, 12, 1));
}

#[test]
fn strings_write_and_read() {
    let mut buf = [0xffff_ffffu32; 4];
    let rest = write_string(&mut buf, "hello");
    let rest = write_string_nullable(rest, None);
    assert!(rest.is_empty());
    assert_eq!(buf[0], 6);
    assert_eq!(buf[2], u32::from_le_bytes([b'o', 0, 0, 0]));
    assert_eq!(buf[3], 0);
    let (rest, s) = read_string(&buf);
    assert_eq!(s, "hello");
    let (rest, none) = read_string_nullable(rest);
    assert!(none.is_none());
    assert!(rest.is_empty());
}

#[test]
fn read_string_replaces_invalid_utf8() {
    let word = u32::from_le_bytes([b'a', 0xff, 0, 0]);
    let (_, s) = read_string(&[3u32, word]);
    assert_eq!(s, "a\u{fffd}");
}

#[test]
fn argument_sizes_and_writes() {
    let o = Object::new(3).unwrap();
    let args = [
        Argument::Int(-1),
        Argument::Uint(2),
        Argument::Fixed(Fixed::from_bits(1)),
        Argument::String("abc"),
        Argument::StringNullable(None),
        Argument::Object(o),
        Argument::ObjectNullable(None),
        Argument::NewId(o),
        Argument::Fd(4),
    ];
    let sizes: Vec<usize> = args.iter().map(|a| a.size()).collect();
    assert_eq!(sizes, vec![1, 1, 1, 2, 1, 1, 1, 1, 0]);
    let mut buf = [0u32; 9];
    let mut rest: &mut [u32] = &mut buf;
    for a in args.iter() {
        rest = a.write(rest);
    }
    assert!(rest.is_empty());
    assert_eq!(buf[..3], [0xffff_ffff, 2, 1]);
    assert_eq!(buf[3], 4);
    assert_eq!(buf[5..], [0, 3, 0, 3]);
}

#[test]
fn array_arguments_are_written() {
    let mut buf = [9u32; 4];
    let rest = Argument::Array(&[1, 2, 3, 4, 5]).write(&mut buf);
    assert_eq!(rest.len(), 1);
    assert_eq!(buf, [5, 0x0403_0201, 5, 9]);
    let mut buf = [9u32; 2];
    let rest = Argument::Array(&[]).write(&mut buf);
    assert_eq!(rest.len(), 1);
    assert_eq!(buf, [0, 9]);
}
