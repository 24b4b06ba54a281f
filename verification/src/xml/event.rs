//! XML events as plain values, and the tokenizer that obtains them from
//! the `quick_xml` reader.

use vstd::prelude::*;

use quick_xml::events::BytesStart;

pub use crate::xml::quick::XmlEventKind;
use crate::xml::quick::{
    attribute_at, end_name, reader_enable_all_checks, reader_from_bytes, reader_next_event,
    reader_trim_text, ref_bytes, start_name, text_bytes, xml_attribute, xml_end_name,
    xml_event_kind, xml_ref, xml_start_name, xml_text, At, RawEvent,
};

verus! {

/// Why a protocol description was refused.
#[derive(Debug, Clone, Copy, PartialEq, Eq)]
pub enum XmlError {
    /// The XML reader refused the text (syntax, mismatched end tag, ...).
    Syntax,
    /// An event that the enclosing element does not allow.
    UnexpectedEvent,
    /// An attribute that the element does not allow, or an allowed
    /// attribute with a value other than the one it may take.
    UnexpectedAttribute,
    /// The XML reader refused an attribute of the element.
    MalformedAttribute,
    /// Text or an attribute value that is not valid UTF-8.
    InvalidUtf8,
    /// A number attribute that is not a decimal `u32`.
    InvalidNumber,
    /// An argument type that the protocol does not define.
    UnknownType,
    /// A character reference other than the five XML entities.
    UnknownEntity,
    /// A second `copyright` or `description` element.
    DuplicateElement,
    /// A required attribute is missing.
    MissingAttribute,
    /// A `copyright` element without text.
    MissingContent,
    /// A protocol without interfaces.
    NoInterfaces,
    /// An interface without requests, events and enumerations.
    EmptyInterface,
}

/// An attribute of a tag: its key and its raw value.
#[derive(Debug, Clone)]
pub struct XmlAttribute {
    pub key: Vec<u8>,
    pub value: Vec<u8>,
}

/// A start tag: its name, the attributes the reader accepted in order, and
/// whether the reader refused the attribute after them.
#[derive(Debug, Clone)]
pub struct XmlTag {
    pub name: Vec<u8>,
    pub attributes: Vec<XmlAttribute>,
    pub malformed: bool,
}

/// One event of the XML reader.
#[derive(Debug, Clone)]
pub enum XmlEvent {
    Decl,
    Start(XmlTag),
    End(Vec<u8>),
    Empty(XmlTag),
    Text(Vec<u8>),
    CData,
    Comment,
    PI,
    DocType,
    GeneralRef(Vec<u8>),
    Eof,
}

/// The events end with the end of the document and hold no other.
pub open spec fn spec_events_end_once(events: Seq<XmlEvent>) -> bool {
    &&& events.len() > 0
    &&& events.last() is Eof
    &&& forall|i: int| 0 <= i < events.len() - 1 ==> !(#[trigger] events[i] is Eof)
}

/// `t` is the tag that is event `k` over `doc`: its name, then its
/// attributes in order up to the first that the reader refuses (then
/// `malformed`) or the end of the iterator. A tag holds fewer attributes
/// than the document has bytes; reading stops there, `malformed`.
pub open spec fn spec_tag_at(doc: Seq<u8>, k: nat, t: XmlTag) -> bool {
    let n = t.attributes@.len();
    &&& t.name@ == xml_start_name(doc, true, true, k)
    &&& n <= doc.len()
    &&& forall|j: int|
        0 <= j < n ==> xml_attribute(doc, true, true, k, j as nat) == Some(
            Some(((#[trigger] t.attributes@[j]).key@, t.attributes@[j].value@)),
        )
    &&& if n == doc.len() {
        t.malformed
    } else {
        match xml_attribute(doc, true, true, k, n) {
            None => !t.malformed,
            Some(None) => t.malformed,
            Some(Some(_)) => false,
        }
    }
}

/// `ev` is event `k` over `doc`, its payload copied out.
pub open spec fn spec_event_at(doc: Seq<u8>, k: nat, ev: XmlEvent) -> bool {
    match xml_event_kind(doc, true, true, k) {
        Some(XmlEventKind::Decl) => ev is Decl,
        Some(XmlEventKind::Start) => ev matches XmlEvent::Start(t) && spec_tag_at(doc, k, t),
        Some(XmlEventKind::End) => ev matches XmlEvent::End(n) && n@ == xml_end_name(doc, true, true, k),
        Some(XmlEventKind::Empty) => ev matches XmlEvent::Empty(t) && spec_tag_at(doc, k, t),
        Some(XmlEventKind::Text) => ev matches XmlEvent::Text(b) && b@ == xml_text(doc, true, true, k),
        Some(XmlEventKind::CData) => ev is CData,
        Some(XmlEventKind::Comment) => ev is Comment,
        Some(XmlEventKind::PI) => ev is PI,
        Some(XmlEventKind::DocType) => ev is DocType,
        Some(XmlEventKind::GeneralRef) => ev matches XmlEvent::GeneralRef(b) && b@ == xml_ref(doc, true, true, k),
        Some(XmlEventKind::Eof) => ev is Eof,
        None => false,
    }
}

/// Reading the events of `doc` from event `k` on: the index of the end of
/// the document, or none where the reader reports an error first. Every
/// event before the end consumes at least one byte of the document, so
/// none is read past the document's length.
pub open spec fn spec_lex_end(doc: Seq<u8>, k: nat) -> Option<nat>
    decreases doc.len() - k,
{
    match xml_event_kind(doc, true, true, k) {
        None => None,
        Some(XmlEventKind::Eof) => Some(k),
        Some(_) => if k < doc.len() {
            spec_lex_end(doc, k + 1)
        } else {
            None
        },
    }
}

/// `events` are the events the reader gives over `doc`, up to and with
/// the end of the document.
pub open spec fn spec_tokens(doc: Seq<u8>, events: Seq<XmlEvent>) -> bool {
    &&& events.len() > 0
    &&& spec_lex_end(doc, 0) == Some((events.len() - 1) as nat)
    &&& forall|i: int| 0 <= i < events.len() ==> spec_event_at(doc, i as nat, #[trigger] events[i])
}

/// The tag with its attributes read in order (see [`spec_tag_at`]).
fn plain_tag(tag: &At<BytesStart>, bound: usize) -> (r: XmlTag)
    requires
        bound == tag@.0.len(),
        tag@.1 && tag@.2,
    ensures
        spec_tag_at(tag@.0, tag@.3, r),
{
    let name = start_name(tag);
    let mut attributes: Vec<XmlAttribute> = Vec::new();
    let mut malformed = false;
    let mut j: usize = 0;
    loop
        invariant_except_break
            !malformed,
        invariant
            j == attributes@.len(),
            j <= bound,
            bound == tag@.0.len(),
            tag@.1 && tag@.2,
            forall|i: int|
                0 <= i < j ==> xml_attribute(tag@.0, true, true, tag@.3, i as nat) == Some(
                    Some(((#[trigger] attributes@[i]).key@, attributes@[i].value@)),
                ),
        ensures
            j == bound ==> malformed,
            j < bound ==> match xml_attribute(tag@.0, true, true, tag@.3, j as nat) {
                None => !malformed,
                Some(None) => malformed,
                Some(Some(_)) => false,
            },
        decreases bound - j,
    {
        if j == bound {
            malformed = true;
            break;
        }
        match attribute_at(tag, j) {
            None => {
                break;
            },
            Some(Some(a)) => {
                attributes.push(a);
                j = j + 1;
            },
            Some(None) => {
                malformed = true;
                break;
            },
        }
    }
    XmlTag { name, attributes, malformed }
}

/// Read the events of a document, up to and with the end of the document
/// (see [`spec_tokens`]); `Syntax` where the reader refuses the text, or
/// gives more events than the document has bytes.
pub fn tokenize(bytes: &[u8]) -> (r: Result<Vec<XmlEvent>, XmlError>)
    ensures
        r is Ok <==> spec_lex_end(bytes@, 0) is Some,
        r matches Ok(events) ==> spec_tokens(bytes@, events@) && spec_events_end_once(events@),
        r matches Err(e) ==> e == XmlError::Syntax,
{
    let mut reader = reader_from_bytes(bytes);
    reader_trim_text(&mut reader);
    reader_enable_all_checks(&mut reader);
    let mut events: Vec<XmlEvent> = Vec::new();
    loop
        invariant
            reader@ == (bytes@, true, true, events@.len() as nat),
            events@.len() <= bytes@.len(),
            forall|i: int|
                0 <= i < events@.len() ==> spec_event_at(bytes@, i as nat, #[trigger] events@[i]),
            forall|i: int| 0 <= i < events@.len() ==> !(#[trigger] events@[i] is Eof),
            spec_lex_end(bytes@, 0) == spec_lex_end(bytes@, events@.len() as nat),
        decreases bytes@.len() - events@.len(),
    {
        let k = events.len();
        let raw = match reader_next_event(&mut reader) {
            Some(raw) => raw,
            None => return Err(XmlError::Syntax),
        };
        let event = match raw {
            RawEvent::Decl => XmlEvent::Decl,
            RawEvent::Start(b) => XmlEvent::Start(plain_tag(&b, bytes.len())),
            RawEvent::End(b) => XmlEvent::End(end_name(&b)),
            RawEvent::Empty(b) => XmlEvent::Empty(plain_tag(&b, bytes.len())),
            RawEvent::Text(b) => XmlEvent::Text(text_bytes(&b)),
            RawEvent::CData => XmlEvent::CData,
            RawEvent::Comment => XmlEvent::Comment,
            RawEvent::PI => XmlEvent::PI,
            RawEvent::DocType => XmlEvent::DocType,
            RawEvent::GeneralRef(b) => XmlEvent::GeneralRef(ref_bytes(&b)),
            RawEvent::Eof => {
                let ghost before = events@;
                events.push(XmlEvent::Eof);
                proof {
                    assert forall|i: int| 0 <= i < events@.len() implies spec_event_at(
                        bytes@,
                        i as nat,
                        #[trigger] events@[i],
                    ) by {
                        if i < before.len() {
                            assert(events@[i] == before[i]);
                        }
                    }
                }
                return Ok(events);
            },
        };
        if k == bytes.len() {
            return Err(XmlError::Syntax);
        }
        let ghost before = events@;
        events.push(event);
        proof {
            assert forall|i: int| 0 <= i < events@.len() implies spec_event_at(
                bytes@,
                i as nat,
                #[trigger] events@[i],
            ) && !(events@[i] is Eof) by {
                if i < before.len() {
                    assert(events@[i] == before[i]);
                }
            }
        }
    }
}

} // verus!
