use wayland::xml::event::{tokenize, XmlError, XmlEvent};
use wayland::xml::names::{parse_u32, word_of, Word};
use wayland::xml::reader::from_reader;
use wayland::xml::schema::{Arg, Enum, Message};
use wayland::xml::schema::Type;

const SAMPLE: &str = r#"<?xml version="1.0" encoding="UTF-8"?>
<protocol name="sample">
  <copyright>
    Copyright &amp; friends
  </copyright>
  <description summary="a sample">Some text</description>
  <interface name="wl_thing" version="3">
    <description summary="a thing"></description>
    <request name="destroy" type="destructor"></request>
    <request name="set" since="2">
      <arg name="value" type="uint" enum="mode"></arg>
      <arg name="label" type="string" allow-null="true" summary="a label"></arg>
    </request>
    <event name="done">
      <!-- a comment -->
      <arg name="id" type="new_id" interface="wl_other"></arg>
      <arg name="fd" type="fd"></arg>
    </event>
    <enum name="mode" bitfield="true" since="2">
      <entry name="current" value="0x1" summary="current"></entry>
      <entry name="preferred" value="0x2" deprecated-since="4"></entry>
    </enum>
  </interface>
</protocol>
"#;

#[test]
fn reads_a_protocol() {
    let protocols = from_reader(SAMPLE.as_bytes()).unwrap();
    assert_eq!(protocols.len(), 1);
    let p = &protocols[0];
    assert_eq!(p.name, "sample");
    assert_eq!(p.copyright.as_ref().unwrap().content, "Copyright&friends");
    let d = p.description.as_ref().unwrap();
    assert_eq!(d.summary, "a sample");
    assert_eq!(d.content.as_deref(), Some("Some text"));
    assert_eq!(p.interfaces.len(), 1);
    let i = &p.interfaces[0];
    assert_eq!(i.name, "wl_thing");
    assert_eq!(i.version, 3);
    assert!(!i.frozen);
    assert_eq!(i.requests.len(), 2);
    assert!(i.requests[0].destructor);
    assert_eq!(i.requests[0].opcode, 0);
    assert_eq!(i.requests[0].since, 1);
    assert_eq!(i.requests[1].opcode, 1);
    assert_eq!(i.requests[1].since, 2);
    assert!(matches!(&i.requests[1].args[0].typ, Type::Uint { enu: Some(e) } if e == "mode"));
    assert!(matches!(i.requests[1].args[1].typ, Type::String { nullable: true }));
    assert_eq!(i.requests[1].args[1].summary.as_deref(), Some("a label"));
    assert_eq!(i.events.len(), 1);
    assert_eq!(i.events[0].opcode, 0);
    assert!(matches!(&i.events[0].args[0].typ, Type::NewId { interface: Some(n) } if n == "wl_other"));
    assert!(matches!(i.events[0].args[1].typ, Type::Fd));
    let e = &i.enums[0];
    assert!(e.bitfield);
    assert_eq!(e.since, 2);
    assert_eq!(e.entries[0].value, "0x1");
    assert_eq!(e.entries[1].deprecated_since, Some(4));
}

fn err(text: &str) -> XmlError {
    from_reader(text.as_bytes()).unwrap_err()
}

#[test]
fn refusals() {
    assert_eq!(err("<protocol name=\"p\"></protocol>"), XmlError::NoInterfaces);
    assert_eq!(err("<protocol name=\"p\"><interface name=\"i\" version=\"1\"></interface></protocol>"), XmlError::EmptyInterface);
    assert_eq!(err("<protocol><interface name=\"i\" version=\"1\"><enum name=\"e\"></enum></interface></protocol>"), XmlError::MissingAttribute);
    assert_eq!(err("<protocol name=\"p\" foo=\"x\"></protocol>"), XmlError::UnexpectedAttribute);
    assert_eq!(err("<protocol name=\"p\"><interface name=\"i\" version=\"x\"></interface></protocol>"), XmlError::InvalidNumber);
    assert_eq!(err("<protocol name=\"p\"><interface name=\"i\" version=\"1\"><request name=\"r\"><arg name=\"a\" type=\"float\"></arg></request></interface></protocol>"), XmlError::UnknownType);
    assert_eq!(err("<protocol name=\"p\"><copyright>a &lt; b &bogus;</copyright></protocol>"), XmlError::UnknownEntity);
    assert_eq!(err("<protocol name=\"p\"><description summary=\"a\"></description><description summary=\"b\"></description></protocol>"), XmlError::DuplicateElement);
    assert_eq!(err("<protocol name=\"p\"><copyright></copyright></protocol>"), XmlError::MissingContent);
    assert_eq!(err("<protocol name=\"p\"><interface name=\"i\" version=\"1\"><bogus/></interface></protocol>"), XmlError::UnexpectedEvent);
    assert_eq!(err("<protocol name=\"p\"><interface name=\"i\" version=\"1\"><enum name=\"e\" bitfield=\"yes\"/></interface></protocol>"), XmlError::UnexpectedAttribute);
    assert_eq!(err("<protocol name=\"p\"></interface>"), XmlError::Syntax);
    assert_eq!(err("<protocol name=\"p\" name></protocol>"), XmlError::MalformedAttribute);
    assert_eq!(from_reader(b"<protocol name=\"\xff\"></protocol>").unwrap_err(), XmlError::InvalidUtf8);
}

#[test]
fn empty_document_has_no_protocol() {
    assert_eq!(from_reader(b"").unwrap().len(), 0);
}

#[test]
fn tokenizer_ends_with_eof() {
    let events = tokenize(b"<a x=\"1\">t</a>").unwrap();
    assert!(matches!(events.last(), Some(XmlEvent::Eof)));
    match &events[0] {
        XmlEvent::Start(tag) => {
            assert_eq!(tag.name, b"a");
            assert_eq!(tag.attributes[0].key, b"x");
            assert_eq!(tag.attributes[0].value, b"1");
            assert!(!tag.malformed);
        }
        _ => panic!("expected a start tag"),
    }
    assert!(matches!(&events[1], XmlEvent::Text(t) if t == b"t"));
    assert!(matches!(&events[2], XmlEvent::End(n) if n == b"a"));
}

#[test]
fn numbers_and_words() {
    assert_eq!(parse_u32(b"42"), Some(42));
    assert_eq!(parse_u32(b"+7"), Some(7));
    assert_eq!(parse_u32(b"4294967295"), Some(u32::MAX));
    assert_eq!(parse_u32(b"4294967296"), None);
    assert_eq!(parse_u32(b"-1"), None);
    assert_eq!(parse_u32(b"+"), None);
    assert_eq!(parse_u32(b""), None);
    assert_eq!(parse_u32(b"1a"), None);
    assert_eq!(word_of(b"new_id"), Some(Word::NewId));
    assert_eq!(word_of(b"deprecated-since"), Some(Word::DeprecatedSince));
    assert_eq!(word_of(b"other"), None);
}

#[test]
fn tokenizer_reads_attributes_in_order_and_references() {
    let events = tokenize(b"<a x=\"1\" y=\"22\"/><b>&amp;</b>").unwrap();
    match &events[0] {
        XmlEvent::Empty(tag) => {
            assert_eq!(tag.name, b"a");
            assert_eq!(tag.attributes.len(), 2);
            assert_eq!(tag.attributes[1].key, b"y");
            assert_eq!(tag.attributes[1].value, b"22");
            assert!(!tag.malformed);
        }
        _ => panic!("expected an empty tag"),
    }
    assert!(matches!(&events[2], XmlEvent::GeneralRef(r) if r == b"amp"));
    assert!(matches!(events.last(), Some(XmlEvent::Eof)));
    assert_eq!(tokenize(b"<a></b>").unwrap_err(), XmlError::Syntax);
}

#[test]
fn self_closing_elements_are_read() {
    let text = "<protocol name=\"p\"><interface name=\"i\" version=\"1\">\
        <request name=\"destroy\" type=\"destructor\"/>\
        <event name=\"done\"><arg name=\"callback_data\" type=\"uint\"/></event>\
        </interface></protocol>";
    let p = &from_reader(text.as_bytes()).unwrap()[0];
    let i = &p.interfaces[0];
    assert_eq!(i.requests.len(), 1);
    assert!(i.requests[0].destructor);
    assert!(i.requests[0].args.is_empty());
    assert_eq!(i.events[0].args.len(), 1);
    assert_eq!(i.events[0].args[0].name, "callback_data");
    assert!(matches!(i.events[0].args[0].typ, Type::Uint { enu: None }));
}

#[test]
fn message_with_a_self_closing_arg() {
    let events = tokenize(b"<event name='done'><arg name='callback_data' type='uint'/></event>").unwrap();
    let (m, next) = Message::from_reader(&events, 0, 0).unwrap();
    assert_eq!(next, 3);
    assert_eq!(m.name, "done");
    assert!(!m.destructor);
    assert_eq!(m.since, 1);
    assert!(m.deprecated_since.is_none());
    assert!(m.description.is_none());
    assert_eq!(m.args.len(), 1);
    assert_eq!(m.args[0].name, "callback_data");
    assert!(matches!(m.args[0].typ, Type::Uint { enu: None }));
}

#[test]
fn boolean_attributes_take_true_and_false() {
    let events = tokenize(b"<arg name='s' type='object' interface='wl_surface' allow-null='false'></arg>").unwrap();
    let (a, _) = Arg::from_reader(&events, 0).unwrap();
    assert_eq!(a.name, "s");
    assert!(matches!(&a.typ, Type::Object { interface: Some(n), nullable: false } if n == "wl_surface"));
    let events = tokenize(b"<arg name='s' type='string' allow-null='true'/>").unwrap();
    let (a, _) = Arg::from_reader(&events, 0).unwrap();
    assert!(matches!(a.typ, Type::String { nullable: true }));
    let events = tokenize(b"<enum name='error' bitfield='false'></enum>").unwrap();
    let (e, _) = Enum::from_reader(&events, 0).unwrap();
    assert_eq!(e.name, "error");
    assert!(!e.bitfield);
    assert_eq!(e.since, 1);
    assert!(e.entries.is_empty());
    assert!(e.description.is_none());
}

#[test]
fn end_tag_matches_the_start_tag() {
    let events = tokenize(b"<message name='m'></message>").unwrap();
    let (m, _) = Message::from_reader(&events, 0, 4).unwrap();
    assert_eq!(m.name, "m");
    assert_eq!(m.opcode, 4);
}
