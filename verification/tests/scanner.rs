use wayland::scanner::generator::{path_tail, variant_name, FieldType, WireForm};
use wayland::scanner::parts::{Enum as EnumPart, InterfaceStruct, RequestFunction};
use wayland::scanner::typ::{Type, TypeContext};
use wayland::scanner::util::snake_to_camel;
use wayland::scanner::wayland::{MessageType, Protocol};
use wayland::xml::reader::from_reader;
use wayland::xml::schema;

#[test]
fn snake_to_camel_cases() {
    assert_eq!(snake_to_camel("wl_display"), "WlDisplay");
    assert_eq!(snake_to_camel("a__b_"), "AB");
    assert_eq!(snake_to_camel(""), "");
    assert_eq!(snake_to_camel("_x"), "X");
    assert_eq!(snake_to_camel("éa_b"), "éaB");
}

#[test]
fn variant_names() {
    assert_eq!(variant_name("current"), "Current");
    assert_eq!(variant_name("2x"), "_2x");
    assert_eq!(variant_name("self"), "_Self");
    assert_eq!(variant_name("fn"), "Fn");
    assert_eq!(variant_name("٣x"), "_٣x");
}

#[test]
fn paths() {
    assert_eq!(path_tail("wl_output.transform"), (Some("wl_output"), "transform"));
    assert_eq!(path_tail("a.b.c"), (Some("b"), "c"));
    assert_eq!(path_tail("mode"), (None, "mode"));
    assert_eq!(EnumPart::resolve_path("wl_output.transform"), "__protocol_root::wl_output::Transform");
    assert_eq!(EnumPart::resolve_path("mode"), "__interface_root::Mode");
    assert_eq!(InterfaceStruct::resolve_path("wl_surface"), "__protocol_root::wl_surface::WlSurface");
}

#[test]
fn request_function_names() {
    let msg = schema::Message {
        name: "move".to_string(),
        destructor: false,
        since: 1,
        deprecated_since: None,
        description: None,
        args: vec![],
        opcode: 0,
    };
    assert_eq!(RequestFunction(&msg).name(), "move_");
    let msg = schema::Message { name: "attach".to_string(), ..msg };
    assert_eq!(RequestFunction(&msg).name(), "attach");
}

#[test]
fn type_lifetimes() {
    let s = schema::Type::String { nullable: false };
    let fd = schema::Type::Fd;
    let request = TypeContext::Struct { request: true, lifetime: "'a" };
    let event = TypeContext::Struct { request: false, lifetime: "'a" };
    assert_eq!(Type { typ: &s, ctx: request }.lifetime(), Some("'a"));
    assert_eq!(Type { typ: &s, ctx: TypeContext::Function }.lifetime(), None);
    assert_eq!(Type { typ: &fd, ctx: request }.lifetime(), Some("'a"));
    assert_eq!(Type { typ: &fd, ctx: event }.lifetime(), None);
}

const SAMPLE: &str = r#"<protocol name="sample">
  <interface name="wl_thing" version="3">
    <request name="set"><arg name="label" type="string"></arg></request>
    <event name="done"><arg name="fd" type="fd"></arg></event>
    <enum name="mode"><entry name="current" value="1"></entry></enum>
  </interface>
</protocol>"#;

#[test]
fn views_of_a_protocol() {
    let protocols = from_reader(SAMPLE.as_bytes()).unwrap();
    let p = Protocol { it: &protocols[0] };
    assert_eq!(p.name(), "sample");
    assert_eq!(p.module_ident(), "sample");
    assert!(p.copyright().is_none());
    let i = p.interfaces()[0];
    assert_eq!(i.name(), "wl_thing");
    assert_eq!(i.version(), 3);
    assert_eq!(i.struct_ident(), "WlThing");
    assert_eq!(i.module_ident(), "wl_thing");
    assert_eq!(i.resolve_enumeration_struct_path("mode"), ("wl_thing".to_string(), "Mode".to_string()));
    assert_eq!(i.resolve_enumeration_struct_path("wl_output.transform"), ("wl_output".to_string(), "Transform".to_string()));
    let r = i.requests()[0];
    assert_eq!(r.ctx, MessageType::Request);
    assert_eq!(r.struct_ident(), "Set");
    assert_eq!(r.generate_lifetime_generics(), (true, false));
    assert_eq!(r.opcode(), 0);
    let a = r.args()[0];
    assert!(a.has_lifetime_generic_buf());
    assert!(!a.is_fd());
    assert_eq!(a.field_ident(), "label");
    let e = i.events()[0];
    assert_eq!(e.ctx, MessageType::Event);
    assert_eq!(e.generate_lifetime_generics(), (false, true));
    assert!(e.args()[0].is_fd());
    let en = i.enums()[0];
    assert_eq!(en.struct_ident(), "Mode");
    let entry = en.entries()[0];
    assert_eq!(entry.variant_ident(), "Current");
    assert_eq!(entry.value(), "1");
    assert_eq!(entry.interface().name(), "wl_thing");
    assert_eq!(entry.protocol().name(), "sample");
}

const TYPES: &str = r#"<protocol name="sample">
  <interface name="wl_thing" version="1">
    <request name="set">
      <arg name="a" type="int"/>
      <arg name="b" type="uint" enum="wl_output.transform"/>
      <arg name="c" type="int" enum="mode"/>
      <arg name="d" type="object" interface="wl_surface" allow-null="true"/>
      <arg name="e" type="new_id" interface="wl_callback"/>
      <arg name="f" type="object"/>
      <arg name="g" type="fd"/>
      <arg name="h" type="array"/>
      <arg name="i" type="string" allow-null="true"/>
      <arg name="j" type="fixed"/>
      <arg name="k" type="object" interface="wl_output"/>
    </request>
  </interface>
</protocol>"#;

#[test]
fn field_types_and_wire_forms() {
    let protocols = from_reader(TYPES.as_bytes()).unwrap();
    let p = Protocol { it: &protocols[0] };
    let args = p.interfaces()[0].requests()[0].args();
    let types: Vec<FieldType> = args.iter().map(|a| a.field_type()).collect();
    let s = |x: &str| x.to_string();
    assert_eq!(types, vec![
        FieldType::Int,
        FieldType::UintEnum { module: s("wl_output"), name: s("Transform") },
        FieldType::IntEnum { module: s("wl_thing"), name: s("Mode") },
        FieldType::Object { interface: Some((s("wl_surface"), s("WlSurface"))), nullable: true },
        FieldType::NewId { interface: Some((s("wl_callback"), s("WlCallback"))) },
        FieldType::Object { interface: None, nullable: false },
        FieldType::Fd,
        FieldType::Array,
        FieldType::String { nullable: true },
        FieldType::Fixed,
        FieldType::Object { interface: Some((s("wl_output"), s("WlOutput"))), nullable: false },
    ]);
    let forms: Vec<WireForm> = types.iter().map(|t| t.wire_form()).collect();
    assert_eq!(forms, vec![
        WireForm::Direct,
        WireForm::Direct,
        WireForm::Direct,
        WireForm::NullableInterface,
        WireForm::Interface,
        WireForm::Direct,
        WireForm::Ancillary,
        WireForm::Direct,
        WireForm::Direct,
        WireForm::Direct,
        WireForm::Interface,
    ]);
}
