# wayland

A Wayland protocol library written in Verus: the wire format of messages,
the protocol description read from XML, and the naming rules of the code
generator, each with its contract proved.

## Layout

- `src/` — the verified library.
  - `primitive`, `packing`, `wire`, `raw`, `argument`, `message`, `meta`:
    the values of the protocol and their encoding in 32-bit words, with a
    read-after-write law for every wire type.
  - `client`: where the compositor's socket is, and how a request is laid
    out (header word, size, opcode).
  - `xml`: the events of an XML document (read with `quick-xml`), and the
    protocol description they make, element by element and attribute by
    attribute (`spec_document` and the functions it calls): elements may be
    self-closing, boolean attributes take `true` or `false`, an end tag
    must close its start tag, and every refusal is an `XmlError`. Every
    message's opcode is its index in its interface.
  - `scanner`: the code generator's view of a description and the text of
    every identifier and path it emits.
- `tests/` — tests of the library on concrete values.
- `app/` — the program around it: reading files, the socket connection,
  file descriptors, floating point conversions, and the code generator's
  token output (built with `quote` and `syn`).

## Design notes

- Words are packed from bytes little-endian: byte `4 * w + i` of a string
  or array is bits `8 * i .. 8 * i + 8` of word `w`. This is the host's
  byte order on the little-endian machines Wayland runs on; the verified
  code does not depend on the machine, so the order is fixed rather than
  taken from the host.
- Reading gives owned values (`String`, `Vec<u8>`), not values borrowed
  from the buffer. `Wire::wire_read` gives back `Self`, so:
  - the unsized `str` and `[u8]` have no `Wire` implementation, and a
    reference `&T` cannot be one either (reading cannot hand out a
    reference to a value it has just made);
  - a zero-copy read (a `&str`, or a `Cow` borrowing the buffer) would
    reinterpret the `u32` words as bytes, which takes `unsafe` code;
  - `CStr` lives in `std::ffi`, which the library does not use; a string
    is read and checked as bytes instead (`WireDynamic for String`).
- The XML tokenizer reads through `src/xml/quick.rs`: the reader carries,
  as ghost state that only the calls there set and advance, the document,
  its configuration and the number of events it has given, and every
  payload carries the position it was read at. What those calls claim of
  an event is claimed of that position, named by a function of the
  document, the configuration and the index.
