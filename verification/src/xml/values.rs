//! What is read from an element's attributes: the numbers its attributes
//! spell end up in what the element yields.

use vstd::prelude::*;

use crate::xml::event::{XmlAttribute, XmlEvent, XmlTag};
use crate::xml::names::{spec_parse_u32, spec_utf8_text, spec_word_of, Word};
use crate::xml::reader::{spec_attr_step, spec_attrs, spec_attrs_init, spec_element, AttrsView, Element, NodeView};

verus! {

/// Every `since` attribute of `attrs[i..]` is text that spells the number
/// `n`.
pub open spec fn spec_since_spells(attrs: Seq<XmlAttribute>, i: int, n: u32) -> bool {
    forall|j: int|
        i <= j < attrs.len() && spec_word_of(#[trigger] attrs[j].key@) == Some(Word::Since) ==> {
            &&& spec_utf8_text(attrs[j].value@) is Ok
            &&& spec_parse_u32(attrs[j].value@) == Some(n)
        }
}

/// One of `attrs[i..]` is a `since` attribute.
pub open spec fn spec_has_since(attrs: Seq<XmlAttribute>, i: int) -> bool {
    exists|j: int| i <= j < attrs.len() && spec_word_of(#[trigger] attrs[j].key@) == Some(Word::Since)
}

/// The elements that take a `since` attribute.
pub open spec fn spec_takes_since(el: Element) -> bool {
    el == Element::Request || el == Element::Event || el == Element::Enum || el == Element::Entry
}

proof fn lemma_attrs_since(el: Element, attrs: Seq<XmlAttribute>, i: nat, a: AttrsView, n: u32)
    requires
        spec_takes_since(el),
        spec_since_spells(attrs, i as int, n),
        spec_has_since(attrs, i as int) || a.since == n,
    ensures
        spec_attrs(el, attrs, i, a) matches Ok(a2) ==> a2.since == n,
    decreases attrs.len() - i,
{
    if i < attrs.len() {
        let attr = attrs[i as int];
        if let Ok(a2) = spec_attr_step(el, a, attr) {
            if spec_word_of(attr.key@) == Some(Word::Since) {
                assert(a2.since == n);
            } else {
                assert(a2.since == a.since);
                if spec_has_since(attrs, i as int) {
                    let j = choose|j: int|
                        i <= j < attrs.len() && spec_word_of(#[trigger] attrs[j].key@) == Some(
                            Word::Since,
                        );
                    assert(j != i);
                    assert(spec_has_since(attrs, (i + 1) as int));
                }
            }
            lemma_attrs_since(el, attrs, i + 1, a2, n);
        }
    }
}

/// The `since` of a request, an event, an enumeration or an entry is the
/// number that its `since` attributes spell, and 1 where it has none: for
/// every tag whose `since` attributes all spell `n` (any `n` where there
/// is one, `n == 1` where there is none), what the element yields carries
/// `since == n`.
pub proof fn lemma_since_is_read(el: Element, ev: Seq<XmlEvent>, pos: int, index: nat, tag: XmlTag, n: u32)
    requires
        spec_takes_since(el),
        0 <= pos < ev.len(),
        ev[pos] == XmlEvent::Start(tag) || ev[pos] == XmlEvent::Empty(tag),
        spec_since_spells(tag.attributes@, 0, n),
        spec_has_since(tag.attributes@, 0) || n == 1,
    ensures
        spec_element(el, ev, pos, index) matches Ok((node, _)) ==> match node {
            NodeView::Message(m) => m.since == n,
            NodeView::Enum(e) => e.since == n,
            NodeView::Entry(e) => e.since == n,
            _ => true,
        },
{
    lemma_attrs_since(el, tag.attributes@, 0, spec_attrs_init(), n);
}

} // verus!
