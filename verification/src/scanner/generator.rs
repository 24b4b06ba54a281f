//! The naming and typing decisions of the code generator: the text of the
//! identifiers and paths it emits, and what each argument needs.

use vstd::prelude::*;

use crate::scanner::util::{push_str, snake_to_camel, spec_snake_to_camel, string_push};
use crate::scanner::wayland::{Arg, Entry, Enumeration, Interface, Message, Protocol};
use crate::xml::schema;

verus! {

/// Whether the text is a Rust identifier that is not a keyword, as `syn`
/// parses it.
pub uninterp spec fn spec_is_rust_ident(text: Seq<char>) -> bool;

/// Calls `syn::parse_str::<syn::Ident>` and reports whether it succeeds.
/// Claimed: the answer is `spec_is_rust_ident` of the text.
#[verifier::external_body]
pub(crate) fn is_rust_ident(text: &str) -> (r: bool)
    ensures
        r == spec_is_rust_ident(text@),
{
    syn::parse_str::<syn::Ident>(text).is_ok()
}

/// Whether a character is in one of Unicode's number categories.
pub uninterp spec fn spec_char_is_numeric(c: char) -> bool;

/// Calls `char::is_numeric`. Claimed: the answer is `spec_char_is_numeric`
/// of the character, and true for the ASCII digits, as its documentation
/// says.
#[verifier::external_body]
pub(crate) fn char_is_numeric(c: char) -> (r: bool)
    ensures
        r == spec_char_is_numeric(c),
        '0' <= c <= '9' ==> r,
{
    c.is_numeric()
}

/// A copy of the text.
pub fn text_of(s: &str) -> (r: String)
    ensures
        r@ == s@,
{
    s.to_owned()
}

/// The index of the last `.` in `s`, or -1.
pub open spec fn spec_last_dot(s: Seq<char>) -> int
    decreases s.len(),
{
    if s.len() == 0 {
        -1
    } else if s.last() == '.' {
        s.len() - 1
    } else {
        spec_last_dot(s.drop_last())
    }
}

proof fn lemma_last_dot_bounds(s: Seq<char>)
    ensures
        -1 <= spec_last_dot(s) < s.len(),
        spec_last_dot(s) >= 0 ==> s[spec_last_dot(s)] == '.',
    decreases s.len(),
{
    if s.len() > 0 && s.last() != '.' {
        lemma_last_dot_bounds(s.drop_last());
    }
}

/// The part of `s` after its last `.` (all of `s` if it has none).
pub open spec fn spec_last_segment(s: Seq<char>) -> Seq<char> {
    s.subrange(spec_last_dot(s) + 1, s.len() as int)
}

/// The part of `s` between its last two `.` (or from its start), if it
/// has a `.` at all.
pub open spec fn spec_second_last_segment(s: Seq<char>) -> Option<Seq<char>> {
    let d = spec_last_dot(s);
    if d < 0 {
        None
    } else {
        Some(spec_last_segment(s.take(d)))
    }
}

/// The index of the last `.` among the first `n` characters of `s`, or -1.
fn last_dot(s: &str, n: usize) -> (r: i64)
    requires
        n <= s@.len(),
        s@.len() < i64::MAX,
    ensures
        r == spec_last_dot(s@.take(n as int)),
{
    let mut i = n;
    while i > 0
        invariant
            i <= n <= s@.len(),
            s@.len() < i64::MAX,
            spec_last_dot(s@.take(n as int)) == spec_last_dot(s@.take(i as int)),
        decreases i,
    {
        let c = s.get_char(i - 1);
        assert(s@.take(i as int).drop_last() =~= s@.take(i - 1));
        if c == '.' {
            return (i - 1) as i64;
        }
        i = i - 1;
    }
    -1
}

/// The segments of a dotted path that name a thing: the last one, and
/// the one before it if there is one.
pub fn path_tail(wl_path: &str) -> (r: (Option<&str>, &str))
    requires
        wl_path@.len() < i64::MAX,
    ensures
        r.1@ == spec_last_segment(wl_path@),
        r.0 is Some <==> spec_second_last_segment(wl_path@) is Some,
        r.0 matches Some(m) ==> m@ == spec_second_last_segment(wl_path@)->0,
{
    let n = wl_path.unicode_len();
    proof {
        lemma_last_dot_bounds(wl_path@);
        assert(wl_path@.take(n as int) =~= wl_path@);
    }
    let d = last_dot(wl_path, n);
    let last = wl_path.substring_char((d + 1) as usize, n);
    if d < 0 {
        return (None, last);
    }
    let du = d as usize;
    proof {
        lemma_last_dot_bounds(wl_path@.take(d as int));
        assert(wl_path@.take(d as int).take(du as int) =~= wl_path@.take(d as int));
    }
    let head = wl_path.substring_char(0, du);
    assert(head@ =~= wl_path@.take(d as int));
    let d2 = last_dot(head, du);
    let second = head.substring_char((d2 + 1) as usize, du);
    (Some(second), last)
}

/// The text of a variant's identifier: `name` in CamelCase, behind an
/// underscore where that text starts with a numeric character or is not
/// an identifier (a keyword).
pub open spec fn spec_variant_name(name: Seq<char>) -> Seq<char> {
    let camel = spec_snake_to_camel(name);
    if spec_char_is_numeric(camel[0]) || !spec_is_rust_ident(camel) {
        seq!['_'] + camel
    } else {
        camel
    }
}

/// The text of a variant's identifier (see [`spec_variant_name`]).
pub fn variant_name(name: &str) -> (r: String)
    requires
        spec_snake_to_camel(name@).len() > 0,
    ensures
        r@ == spec_variant_name(name@),
{
    let camel = snake_to_camel(name);
    let first = camel.as_str().get_char(0);
    if char_is_numeric(first) || !is_rust_ident(camel.as_str()) {
        let mut r = String::new();
        string_push(&mut r, '_');
        push_str(&mut r, camel.as_str());
        assert(r@ =~= seq!['_'] + camel@);
        r
    } else {
        camel
    }
}

/// The argument's value borrows from the message buffer: a string or an
/// array.
pub open spec fn spec_needs_buf_lifetime(t: schema::Type) -> bool {
    t is String || t is Array
}

/// The argument is a file descriptor.
pub open spec fn spec_is_fd(t: schema::Type) -> bool {
    t is Fd
}

impl<'a> Protocol<'a> {
    /// The text of the protocol module's identifier: the protocol's name.
    pub fn module_ident(&self) -> (r: String)
        ensures
            r@ == self.it.name@,
    {
        text_of(self.name())
    }
}

impl<'a> Interface<'a> {
    /// The text of an interface module's identifier: the interface's name.
    pub fn format_module_ident(wl_name: &str) -> (r: String)
        ensures
            r@ == wl_name@,
    {
        text_of(wl_name)
    }

    /// The text of an interface struct's identifier: the interface's name
    /// in CamelCase.
    pub fn format_struct_ident(wl_name: &str) -> (r: String)
        ensures
            r@ == spec_snake_to_camel(wl_name@),
    {
        snake_to_camel(wl_name)
    }

    pub fn module_ident(&self) -> (r: String)
        ensures
            r@ == self.it.name@,
    {
        Self::format_module_ident(self.name())
    }

    pub fn struct_ident(&self) -> (r: String)
        ensures
            r@ == spec_snake_to_camel(self.it.name@),
    {
        Self::format_struct_ident(self.name())
    }

    /// The module and the struct that an enumeration path names: the
    /// struct from the path's last segment in CamelCase, the module from
    /// the segment before it, or this interface's module where there is
    /// none.
    pub fn resolve_enumeration_struct_path(&self, wl_path: &str) -> (r: (String, String))
        requires
            wl_path@.len() < i64::MAX,
        ensures
            r.1@ == spec_snake_to_camel(spec_last_segment(wl_path@)),
            r.0@ == match spec_second_last_segment(wl_path@) {
                Some(m) => m,
                None => self.it.name@,
            },
    {
        let (module, last) = path_tail(wl_path);
        let enum_struct_ident = Self::format_struct_ident(last);
        let interface_module_ident = match module {
            Some(m) => Interface::format_module_ident(m),
            None => self.module_ident(),
        };
        (interface_module_ident, enum_struct_ident)
    }

    /// The module and the struct of the interface named `wl_path`.
    pub fn resolve_interface_struct_path(&self, wl_path: &str) -> (r: (String, String))
        ensures
            r.0@ == wl_path@,
            r.1@ == spec_snake_to_camel(wl_path@),
    {
        (Interface::format_module_ident(wl_path), Interface::format_struct_ident(wl_path))
    }
}

impl<'a> Enumeration<'a> {
    pub fn format_struct_ident(wl_name: &str) -> (r: String)
        ensures
            r@ == spec_snake_to_camel(wl_name@),
    {
        snake_to_camel(wl_name)
    }

    pub fn struct_ident(&self) -> (r: String)
        ensures
            r@ == spec_snake_to_camel(self.it.name@),
    {
        Self::format_struct_ident(self.name())
    }
}

impl<'a> Entry<'a> {
    /// The text of the entry's variant identifier (see
    /// [`spec_variant_name`]).
    pub fn variant_ident(&self) -> (r: String)
        requires
            spec_snake_to_camel(self.it.name@).len() > 0,
        ensures
            r@ == spec_variant_name(self.it.name@),
    {
        variant_name(self.name())
    }
}

impl<'a> Message<'a> {
    pub fn struct_ident(&self) -> (r: String)
        ensures
            r@ == spec_snake_to_camel(self.it.name@),
    {
        snake_to_camel(self.name())
    }

    /// Which lifetime generics the message struct takes: one for the
    /// buffer where an argument borrows from it, one for file descriptors
    /// where an argument is one.
    pub fn generate_lifetime_generics(&self) -> (r: (bool, bool))
        ensures
            r.0 == exists|i: int|
                0 <= i < self.it.args@.len() && spec_needs_buf_lifetime(
                    #[trigger] self.it.args@[i].typ,
                ),
            r.1 == exists|i: int|
                0 <= i < self.it.args@.len() && spec_is_fd(#[trigger] self.it.args@[i].typ),
    {
        let args = self.args();
        let mut buf = false;
        let mut fd = false;
        let mut i: usize = 0;
        while i < args.len()
            invariant
                args@.len() == self.it.args@.len(),
                forall|j: int| 0 <= j < args@.len() ==> *(#[trigger] args@[j]).it == self.it.args@[j],
                i <= args@.len(),
                buf == exists|j: int|
                    0 <= j < i && spec_needs_buf_lifetime(#[trigger] self.it.args@[j].typ),
                fd == exists|j: int| 0 <= j < i && spec_is_fd(#[trigger] self.it.args@[j].typ),
            decreases args@.len() - i,
        {
            let arg = args[i];
            if arg.has_lifetime_generic_buf() {
                buf = true;
            }
            if arg.has_lifetime_generic_fd() {
                fd = true;
            }
            i = i + 1;
        }
        (buf, fd)
    }
}

impl<'a> Arg<'a> {
    /// The text of the field's identifier: the argument's name.
    pub fn field_ident(&self) -> (r: String)
        ensures
            r@ == self.it.name@,
    {
        text_of(self.name())
    }

    pub fn has_lifetime_generic_buf(&self) -> (r: bool)
        ensures
            r == spec_needs_buf_lifetime(self.it.typ),
    {
        match self.typ() {
            schema::Type::String { .. } | schema::Type::Array => true,
            _ => false,
        }
    }

    pub fn has_lifetime_generic_fd(&self) -> (r: bool)
        ensures
            r == spec_is_fd(self.it.typ),
    {
        match self.typ() {
            schema::Type::Fd => true,
            _ => false,
        }
    }

    pub fn is_fd(&self) -> (r: bool)
        ensures
            r == spec_is_fd(self.it.typ),
    {
        match self.typ() {
            schema::Type::Fd => true,
            _ => false,
        }
    }
}

/// The type of a message struct's field, as the generator writes it. An
/// enumeration or an interface is named by its module and its struct.
#[derive(Debug, Clone, PartialEq, Eq)]
pub enum FieldType {
    Int,
    Uint,
    IntEnum { module: String, name: String },
    UintEnum { module: String, name: String },
    Fixed,
    String { nullable: bool },
    Object { interface: Option<(String, String)>, nullable: bool },
    NewId { interface: Option<(String, String)> },
    Array,
    Fd,
}

/// The abstract value of a [`FieldType`].
pub enum FieldTypeView {
    Int,
    Uint,
    IntEnum { module: Seq<char>, name: Seq<char> },
    UintEnum { module: Seq<char>, name: Seq<char> },
    Fixed,
    String { nullable: bool },
    Object { interface: Option<(Seq<char>, Seq<char>)>, nullable: bool },
    NewId { interface: Option<(Seq<char>, Seq<char>)> },
    Array,
    Fd,
}

impl DeepView for FieldType {
    type V = FieldTypeView;

    open spec fn deep_view(&self) -> FieldTypeView {
        match self {
            FieldType::Int => FieldTypeView::Int,
            FieldType::Uint => FieldTypeView::Uint,
            FieldType::IntEnum { module, name } => FieldTypeView::IntEnum {
                module: module@,
                name: name@,
            },
            FieldType::UintEnum { module, name } => FieldTypeView::UintEnum {
                module: module@,
                name: name@,
            },
            FieldType::Fixed => FieldTypeView::Fixed,
            FieldType::String { nullable } => FieldTypeView::String { nullable: *nullable },
            FieldType::Object { interface, nullable } => FieldTypeView::Object {
                interface: match interface {
                    Some((m, n)) => Some((m@, n@)),
                    None => None,
                },
                nullable: *nullable,
            },
            FieldType::NewId { interface } => FieldTypeView::NewId {
                interface: match interface {
                    Some((m, n)) => Some((m@, n@)),
                    None => None,
                },
            },
            FieldType::Array => FieldTypeView::Array,
            FieldType::Fd => FieldTypeView::Fd,
        }
    }
}

/// The module of the enumeration named by `path` from within the interface
/// `iface`: the segment before the last, or the interface itself.
pub open spec fn spec_enum_module(iface: Seq<char>, path: Seq<char>) -> Seq<char> {
    match spec_second_last_segment(path) {
        Some(m) => m,
        None => iface,
    }
}

/// The module and the struct of the interface named `name`.
pub open spec fn spec_interface_path(name: Option<String>) -> Option<(Seq<char>, Seq<char>)> {
    match name {
        Some(n) => Some((n@, spec_snake_to_camel(n@))),
        None => None,
    }
}

/// The field type of an argument of type `t` in the interface named
/// `iface`.
pub open spec fn spec_field_type(iface: Seq<char>, t: schema::Type) -> FieldTypeView {
    match t {
        schema::Type::Int { enu: None } => FieldTypeView::Int,
        schema::Type::Uint { enu: None } => FieldTypeView::Uint,
        schema::Type::Int { enu: Some(e) } => FieldTypeView::IntEnum {
            module: spec_enum_module(iface, e@),
            name: spec_snake_to_camel(spec_last_segment(e@)),
        },
        schema::Type::Uint { enu: Some(e) } => FieldTypeView::UintEnum {
            module: spec_enum_module(iface, e@),
            name: spec_snake_to_camel(spec_last_segment(e@)),
        },
        schema::Type::Fixed => FieldTypeView::Fixed,
        schema::Type::String { nullable } => FieldTypeView::String { nullable },
        schema::Type::Object { interface, nullable } => FieldTypeView::Object {
            interface: spec_interface_path(interface),
            nullable,
        },
        schema::Type::NewId { interface } => FieldTypeView::NewId {
            interface: spec_interface_path(interface),
        },
        schema::Type::Array => FieldTypeView::Array,
        schema::Type::Fd => FieldTypeView::Fd,
    }
}

/// A string argument's field is a string and an object argument's field an
/// object, each optional exactly when the argument allows null; a new id is
/// never optional, and no other argument gives a string, an object or a new
/// id.
pub proof fn lemma_field_type_nullability(iface: Seq<char>, t: schema::Type)
    ensures
        t matches schema::Type::String { nullable } ==> spec_field_type(iface, t)
            == (FieldTypeView::String { nullable }),
        t matches schema::Type::Object { nullable, .. } ==> spec_field_type(iface, t) matches FieldTypeView::Object { nullable: n, .. } && n == nullable,
        t is NewId ==> spec_field_type(iface, t) is NewId,
        spec_field_type(iface, t) is String ==> t is String,
        spec_field_type(iface, t) is Object ==> t is Object,
        spec_field_type(iface, t) is NewId ==> t is NewId,
{
}

/// An enumeration path that the type names is short enough to be split.
pub open spec fn spec_enum_path_ok(t: schema::Type) -> bool {
    match t {
        schema::Type::Int { enu: Some(e) } => e@.len() < i64::MAX,
        schema::Type::Uint { enu: Some(e) } => e@.len() < i64::MAX,
        _ => true,
    }
}

impl<'a> Arg<'a> {
    /// The type of the argument's field (see [`spec_field_type`]).
    pub fn field_type(&self) -> (r: FieldType)
        requires
            spec_enum_path_ok(self.it.typ),
        ensures
            r.deep_view() == spec_field_type(self.parent.parent.it.name@, self.it.typ),
    {
        let iface = self.interface();
        match self.typ() {
            schema::Type::Int { enu: None } => FieldType::Int,
            schema::Type::Uint { enu: None } => FieldType::Uint,
            schema::Type::Int { enu: Some(e) } => {
                let (module, name) = iface.resolve_enumeration_struct_path(e.as_str());
                FieldType::IntEnum { module, name }
            },
            schema::Type::Uint { enu: Some(e) } => {
                let (module, name) = iface.resolve_enumeration_struct_path(e.as_str());
                FieldType::UintEnum { module, name }
            },
            schema::Type::Fixed => FieldType::Fixed,
            schema::Type::String { nullable } => FieldType::String { nullable: *nullable },
            schema::Type::Object { interface, nullable } => FieldType::Object {
                interface: match interface {
                    Some(n) => Some(iface.resolve_interface_struct_path(n.as_str())),
                    None => None,
                },
                nullable: *nullable,
            },
            schema::Type::NewId { interface } => FieldType::NewId {
                interface: match interface {
                    Some(n) => Some(iface.resolve_interface_struct_path(n.as_str())),
                    None => None,
                },
            },
            schema::Type::Array => FieldType::Array,
            schema::Type::Fd => FieldType::Fd,
        }
    }
}

/// How a field goes on the wire.
#[derive(Debug, Clone, Copy, PartialEq, Eq)]
pub enum WireForm {
    /// The field's own type goes on the wire.
    Direct,
    /// An interface struct, carried as its object id.
    Interface,
    /// An optional interface struct, carried as an optional object id.
    NullableInterface,
    /// A file descriptor, carried apart from the words.
    Ancillary,
}

/// How a field of type `f` goes on the wire.
pub open spec fn spec_wire_form(f: FieldTypeView) -> WireForm {
    match f {
        FieldTypeView::Object { interface: Some(_), nullable: false } => WireForm::Interface,
        FieldTypeView::NewId { interface: Some(_) } => WireForm::Interface,
        FieldTypeView::Object { interface: Some(_), nullable: true } => WireForm::NullableInterface,
        FieldTypeView::Fd => WireForm::Ancillary,
        _ => WireForm::Direct,
    }
}

impl FieldType {
    /// How the field goes on the wire (see [`spec_wire_form`]).
    pub fn wire_form(&self) -> (r: WireForm)
        ensures
            r == spec_wire_form(self.deep_view()),
    {
        match self {
            FieldType::Object { interface: Some(_), nullable } => if *nullable {
                WireForm::NullableInterface
            } else {
                WireForm::Interface
            },
            FieldType::NewId { interface: Some(_) } => WireForm::Interface,
            FieldType::Fd => WireForm::Ancillary,
            _ => WireForm::Direct,
        }
    }
}

} // verus!
