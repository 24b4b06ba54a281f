//! The `quick_xml` reader as verified code sees it: the calls the
//! tokenizer makes, and names for what they give.
//!
//! A reader carries, as ghost state, where it stands: the document it reads,
//! how it is configured and how many events it has given. Only the calls
//! below make a reader or its payloads and move that state on, so what a
//! call claims of the reader's next event, or of a payload, is claimed of
//! the position the reader really is at.

use vstd::prelude::*;

use quick_xml::events::{BytesEnd, BytesRef, BytesStart, BytesText, Event};
use quick_xml::Reader;

use crate::xml::event::XmlAttribute;

verus! {

#[verifier::external_type_specification]
#[verifier::external_body]
#[verifier::reject_recursive_types(R)]
pub struct ExReader<R>(Reader<R>);

#[verifier::external_type_specification]
#[verifier::external_body]
pub struct ExBytesStart<'a>(BytesStart<'a>);

#[verifier::external_type_specification]
#[verifier::external_body]
pub struct ExBytesEnd<'a>(BytesEnd<'a>);

#[verifier::external_type_specification]
#[verifier::external_body]
pub struct ExBytesText<'a>(BytesText<'a>);

#[verifier::external_type_specification]
#[verifier::external_body]
pub struct ExBytesRef<'a>(BytesRef<'a>);

/// The kind of an event of the reader.
#[derive(Debug, Clone, Copy, PartialEq, Eq)]
pub enum XmlEventKind {
    Decl,
    Start,
    End,
    Empty,
    Text,
    CData,
    Comment,
    PI,
    DocType,
    GeneralRef,
    Eof,
}

/// The kind of event `k` (from zero) that `quick_xml`'s reader gives over
/// the document `doc`, made by `Reader::from_reader` and, before any event,
/// given trimmed text (`trimmed`) and all checks (`checked`); none where
/// the reader reports an error there.
pub uninterp spec fn xml_event_kind(doc: Seq<u8>, trimmed: bool, checked: bool, k: nat) -> Option<
    XmlEventKind,
>;

/// The name of the start (or empty) tag that is event `k` of such a reader.
pub uninterp spec fn xml_start_name(doc: Seq<u8>, trimmed: bool, checked: bool, k: nat) -> Seq<u8>;

/// Item `j` (from zero) of the attribute iterator of the tag that is event
/// `k` of such a reader: the key and the raw value of an attribute,
/// `Some(None)` for an attribute the reader refuses, none after the last.
pub uninterp spec fn xml_attribute(doc: Seq<u8>, trimmed: bool, checked: bool, k: nat, j: nat) -> Option<
    Option<(Seq<u8>, Seq<u8>)>,
>;

/// The name of the end tag that is event `k` of such a reader.
pub uninterp spec fn xml_end_name(doc: Seq<u8>, trimmed: bool, checked: bool, k: nat) -> Seq<u8>;

/// The raw content of the text that is event `k` of such a reader.
pub uninterp spec fn xml_text(doc: Seq<u8>, trimmed: bool, checked: bool, k: nat) -> Seq<u8>;

/// The entity name of the reference that is event `k` of such a reader.
pub uninterp spec fn xml_ref(doc: Seq<u8>, trimmed: bool, checked: bool, k: nat) -> Seq<u8>;

/// `quick_xml`'s reader over a document. Its view: the document, whether
/// text is trimmed, whether all checks are on, and the number of events
/// it has given.
pub struct XmlReader<'a> {
    reader: Reader<&'a [u8]>,
    doc: Ghost<Seq<u8>>,
    trimmed: Ghost<bool>,
    checked: Ghost<bool>,
    read: Ghost<nat>,
}

impl<'a> View for XmlReader<'a> {
    type V = (Seq<u8>, bool, bool, nat);

    closed spec fn view(&self) -> (Seq<u8>, bool, bool, nat) {
        (self.doc@, self.trimmed@, self.checked@, self.read@)
    }
}

/// The payload of an event. Its view: the position (as a reader's view) of
/// the reader just before it gave the event.
pub struct At<T> {
    item: T,
    pos: Ghost<(Seq<u8>, bool, bool, nat)>,
}

impl<T> View for At<T> {
    type V = (Seq<u8>, bool, bool, nat);

    closed spec fn view(&self) -> (Seq<u8>, bool, bool, nat) {
        self.pos@
    }
}

/// An event of the reader, its variants told apart and its payload kept
/// as the reader gave it.
pub enum RawEvent<'a> {
    Decl,
    Start(At<BytesStart<'a>>),
    End(At<BytesEnd<'a>>),
    Empty(At<BytesStart<'a>>),
    Text(At<BytesText<'a>>),
    CData,
    Comment,
    PI,
    DocType,
    GeneralRef(At<BytesRef<'a>>),
    Eof,
}

/// The kind of an event, none for a reader's error.
pub open spec fn spec_raw_kind(e: Option<RawEvent>) -> Option<XmlEventKind> {
    match e {
        None => None,
        Some(RawEvent::Decl) => Some(XmlEventKind::Decl),
        Some(RawEvent::Start(_)) => Some(XmlEventKind::Start),
        Some(RawEvent::End(_)) => Some(XmlEventKind::End),
        Some(RawEvent::Empty(_)) => Some(XmlEventKind::Empty),
        Some(RawEvent::Text(_)) => Some(XmlEventKind::Text),
        Some(RawEvent::CData) => Some(XmlEventKind::CData),
        Some(RawEvent::Comment) => Some(XmlEventKind::Comment),
        Some(RawEvent::PI) => Some(XmlEventKind::PI),
        Some(RawEvent::DocType) => Some(XmlEventKind::DocType),
        Some(RawEvent::GeneralRef(_)) => Some(XmlEventKind::GeneralRef),
        Some(RawEvent::Eof) => Some(XmlEventKind::Eof),
    }
}

/// Every payload of the event carries the position `pos`.
pub open spec fn spec_raw_at(e: Option<RawEvent>, pos: (Seq<u8>, bool, bool, nat)) -> bool {
    match e {
        Some(RawEvent::Start(a)) => a@ == pos,
        Some(RawEvent::End(a)) => a@ == pos,
        Some(RawEvent::Empty(a)) => a@ == pos,
        Some(RawEvent::Text(a)) => a@ == pos,
        Some(RawEvent::GeneralRef(a)) => a@ == pos,
        _ => true,
    }
}

/// Calls `quick_xml::Reader::from_reader` on the bytes. Claimed: the reader
/// is over the bytes, its configuration as `from_reader` leaves it, and it
/// has given no event.
#[verifier::external_body]
pub(crate) fn reader_from_bytes<'a>(bytes: &'a [u8]) -> (r: XmlReader<'a>)
    ensures
        r@ == (bytes@, false, false, 0nat),
{
    XmlReader {
        reader: Reader::from_reader(bytes),
        doc: Ghost(bytes@),
        trimmed: Ghost(false),
        checked: Ghost(false),
        read: Ghost(0),
    }
}

/// Calls `Config::trim_text(true)` on the reader's configuration: text
/// events lose their leading and trailing whitespace, and whitespace-only
/// text yields no event. Claimed, of a reader that has given no event:
/// its text is now trimmed, the rest of where it stands is unchanged.
#[verifier::external_body]
pub(crate) fn reader_trim_text(r: &mut XmlReader)
    requires
        old(r)@.3 == 0,
    ensures
        final(r)@ == (old(r)@.0, true, old(r)@.2, 0nat),
{
    r.reader.config_mut().trim_text(true)
}

/// Calls `Config::enable_all_checks(true)` on the reader's configuration:
/// end tags must match their start tags and comments must be well formed.
/// Claimed, of a reader that has given no event: all its checks are now
/// on, the rest of where it stands is unchanged.
#[verifier::external_body]
pub(crate) fn reader_enable_all_checks(r: &mut XmlReader)
    requires
        old(r)@.3 == 0,
    ensures
        final(r)@ == (old(r)@.0, old(r)@.1, true, 0nat),
{
    r.reader.config_mut().enable_all_checks(true)
}

/// Calls `Reader::read_event` and tells the variants of the event apart;
/// `None` where the reader reports an error. Claimed: the kind of the event
/// is `xml_event_kind` of where the reader stood, its payload carries that
/// position, and the reader has given one more event.
#[verifier::external_body]
pub(crate) fn reader_next_event<'a>(r: &mut XmlReader<'a>) -> (e: Option<RawEvent<'a>>)
    ensures
        final(r)@ == (old(r)@.0, old(r)@.1, old(r)@.2, old(r)@.3 + 1),
        spec_raw_kind(e) == xml_event_kind(old(r)@.0, old(r)@.1, old(r)@.2, old(r)@.3),
        spec_raw_at(e, old(r)@),
{
    let pos = Ghost(r@);
    Some(match r.reader.read_event().ok()? {
        Event::Decl(_) => RawEvent::Decl,
        Event::Start(b) => RawEvent::Start(At { item: b, pos }),
        Event::End(b) => RawEvent::End(At { item: b, pos }),
        Event::Empty(b) => RawEvent::Empty(At { item: b, pos }),
        Event::Text(b) => RawEvent::Text(At { item: b, pos }),
        Event::CData(_) => RawEvent::CData,
        Event::Comment(_) => RawEvent::Comment,
        Event::PI(_) => RawEvent::PI,
        Event::DocType(_) => RawEvent::DocType,
        Event::GeneralRef(b) => RawEvent::GeneralRef(At { item: b, pos }),
        Event::Eof => RawEvent::Eof,
    })
}

/// Calls `BytesStart::name` and copies the name's bytes. Claimed: they are
/// `xml_start_name` of the event's position.
#[verifier::external_body]
pub(crate) fn start_name(tag: &At<BytesStart>) -> (r: Vec<u8>)
    ensures
        r@ == xml_start_name(tag@.0, tag@.1, tag@.2, tag@.3),
{
    tag.item.name().as_ref().to_vec()
}

/// The key and the raw value of an attribute item, as views.
pub open spec fn spec_attribute_item(r: Option<Option<XmlAttribute>>) -> Option<
    Option<(Seq<u8>, Seq<u8>)>,
> {
    match r {
        Some(Some(a)) => Some(Some((a.key@, a.value@))),
        Some(None) => Some(None),
        None => None,
    }
}

/// Calls `BytesStart::attributes` and takes item `j` of the iterator
/// (`Iterator::nth`), copying the key and the raw value of an attribute;
/// `Some(None)` where the reader refuses the attribute. Claimed: the result
/// is `xml_attribute` of the event's position and of `j`.
#[verifier::external_body]
pub(crate) fn attribute_at(tag: &At<BytesStart>, j: usize) -> (r: Option<Option<XmlAttribute>>)
    ensures
        spec_attribute_item(r) == xml_attribute(tag@.0, tag@.1, tag@.2, tag@.3, j as nat),
{
    match tag.item.attributes().nth(j) {
        Some(Ok(a)) => Some(Some(XmlAttribute { key: a.key.as_ref().to_vec(), value: a.value.to_vec() })),
        Some(Err(_)) => Some(None),
        None => None,
    }
}

/// Calls `BytesEnd::name` and copies the name's bytes. Claimed: they are
/// `xml_end_name` of the event's position.
#[verifier::external_body]
pub(crate) fn end_name(tag: &At<BytesEnd>) -> (r: Vec<u8>)
    ensures
        r@ == xml_end_name(tag@.0, tag@.1, tag@.2, tag@.3),
{
    tag.item.name().as_ref().to_vec()
}

/// Copies the raw content of a text event (`BytesText` derefs to its
/// bytes). Claimed: they are `xml_text` of the event's position.
#[verifier::external_body]
pub(crate) fn text_bytes(text: &At<BytesText>) -> (r: Vec<u8>)
    ensures
        r@ == xml_text(text@.0, text@.1, text@.2, text@.3),
{
    text.item.to_vec()
}

/// Copies the name of an entity reference, without `&` and `;`
/// (`BytesRef` derefs to it). Claimed: it is `xml_ref` of the event's
/// position.
#[verifier::external_body]
pub(crate) fn ref_bytes(reference: &At<BytesRef>) -> (r: Vec<u8>)
    ensures
        r@ == xml_ref(reference@.0, reference@.1, reference@.2, reference@.3),
{
    reference.item.to_vec()
}

} // verus!
