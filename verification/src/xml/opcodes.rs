//! The opcode of each message read from a protocol description.

use vstd::prelude::*;

use crate::xml::event::XmlEvent;
use crate::xml::names::spec_utf8_text;
use crate::xml::reader::{
    spec_add_child, spec_add_text, spec_allows_comment, spec_attrs, spec_attrs_init,
    spec_child_index, spec_child_kind, spec_children, spec_children_init, spec_document,
    spec_element, spec_is_duplicate, spec_xml_entity, ChildrenView, Element, NodeView,
};
use crate::xml::schema::{InterfaceView, MessageView, ProtocolView};

verus! {

/// Each message of `ms` carries its index in `ms` as its opcode.
pub open spec fn spec_numbered(ms: Seq<MessageView>) -> bool {
    forall|k: int| 0 <= k < ms.len() ==> #[trigger] ms[k].opcode == k as u16
}

/// The requests and the events of `i` are numbered, each list from zero.
pub open spec fn spec_interface_numbered(i: InterfaceView) -> bool {
    spec_numbered(i.requests) && spec_numbered(i.events)
}

/// Every interface of `is` is numbered.
pub open spec fn spec_interfaces_numbered(is: Seq<InterfaceView>) -> bool {
    forall|k: int| 0 <= k < is.len() ==> spec_interface_numbered(#[trigger] is[k])
}

/// Every interface of every protocol of `ps` is numbered.
pub open spec fn spec_protocols_numbered(ps: Seq<ProtocolView>) -> bool {
    forall|k: int| 0 <= k < ps.len() ==> spec_interfaces_numbered(#[trigger] ps[k].interfaces)
}

spec fn children_numbered(c: ChildrenView) -> bool {
    spec_numbered(c.requests) && spec_numbered(c.events) && spec_interfaces_numbered(c.interfaces)
}

spec fn node_numbered(el: Element, node: NodeView, index: nat) -> bool {
    match node {
        NodeView::Message(m) => m.opcode == index as u16 && (el == Element::Request || el
            == Element::Event),
        NodeView::Interface(i) => spec_interface_numbered(i),
        NodeView::Protocol(p) => spec_interfaces_numbered(p.interfaces),
        _ => true,
    }
}

proof fn lemma_add_child_numbered(c: ChildrenView, k: Element, node: NodeView)
    requires
        children_numbered(c),
        node_numbered(k, node, spec_child_index(c, k)),
    ensures
        children_numbered(spec_add_child(c, k, node)),
{
    let c2 = spec_add_child(c, k, node);
    match node {
        NodeView::Message(m) => {
            if k == Element::Request {
                assert forall|j: int| 0 <= j < c2.requests.len() implies #[trigger] c2.requests[j].opcode
                    == j as u16 by {
                    if j < c.requests.len() {
                        assert(c2.requests[j] == c.requests[j]);
                    }
                }
            } else {
                assert forall|j: int| 0 <= j < c2.events.len() implies #[trigger] c2.events[j].opcode
                    == j as u16 by {
                    if j < c.events.len() {
                        assert(c2.events[j] == c.events[j]);
                    }
                }
            }
        },
        NodeView::Interface(i) => {
            assert forall|j: int| 0 <= j < c2.interfaces.len() implies spec_interface_numbered(
                #[trigger] c2.interfaces[j],
            ) by {
                if j < c.interfaces.len() {
                    assert(c2.interfaces[j] == c.interfaces[j]);
                }
            }
        },
        _ => {},
    }
}

proof fn lemma_children_numbered(el: Element, ev: Seq<XmlEvent>, pos: int, end: Seq<u8>, c: ChildrenView)
    requires
        children_numbered(c),
    ensures
        spec_children(el, ev, pos, end, c) matches Ok((c2, _)) ==> children_numbered(c2),
    decreases ev.len() - pos, 1int,
{
    if 0 <= pos < ev.len() {
        match ev[pos] {
            XmlEvent::Comment => {
                if spec_allows_comment(el) {
                    lemma_children_numbered(el, ev, pos + 1, end, c);
                }
            },
            XmlEvent::Text(t) => {
                if let Ok(s) = spec_utf8_text(t@) {
                    lemma_children_numbered(el, ev, pos + 1, end, spec_add_text(c, s));
                }
            },
            XmlEvent::GeneralRef(r) => {
                if let Ok(s) = spec_utf8_text(r@) {
                    if let Some(x) = spec_xml_entity(s) {
                        lemma_children_numbered(el, ev, pos + 1, end, spec_add_text(c, x));
                    }
                }
            },
            XmlEvent::Start(tag) => {
                if let Some(k) = spec_child_kind(el, tag.name@) {
                    if !spec_is_duplicate(c, k) {
                        let index = spec_child_index(c, k);
                        lemma_element_numbered(k, ev, pos, index);
                        if let Ok((node, p2)) = spec_element(k, ev, pos, index) {
                            if pos < p2 <= ev.len() {
                                lemma_add_child_numbered(c, k, node);
                                lemma_children_numbered(el, ev, p2, end, spec_add_child(c, k, node));
                            }
                        }
                    }
                }
            },
            XmlEvent::Empty(tag) => {
                if let Some(k) = spec_child_kind(el, tag.name@) {
                    if !spec_is_duplicate(c, k) {
                        let index = spec_child_index(c, k);
                        lemma_element_numbered(k, ev, pos, index);
                        if let Ok((node, p2)) = spec_element(k, ev, pos, index) {
                            if pos < p2 <= ev.len() {
                                lemma_add_child_numbered(c, k, node);
                                lemma_children_numbered(el, ev, p2, end, spec_add_child(c, k, node));
                            }
                        }
                    }
                }
            },
            _ => {},
        }
    }
}

proof fn lemma_element_numbered(el: Element, ev: Seq<XmlEvent>, pos: int, index: nat)
    ensures
        spec_element(el, ev, pos, index) matches Ok((node, _)) ==> node_numbered(el, node, index),
    decreases ev.len() - pos, 0int,
{
    if 0 <= pos < ev.len() {
        let c0 = spec_children_init();
        assert(children_numbered(c0));
        if let XmlEvent::Start(tag) = ev[pos] {
            if spec_attrs(el, tag.attributes@, 0, spec_attrs_init()) is Ok {
                lemma_children_numbered(el, ev, pos + 1, tag.name@, c0);
            }
        }
    }
}

proof fn lemma_document_numbered(ev: Seq<XmlEvent>, pos: int, acc: Seq<ProtocolView>)
    requires
        spec_protocols_numbered(acc),
    ensures
        spec_document(ev, pos, acc) matches Ok(ps) ==> spec_protocols_numbered(ps),
    decreases ev.len() - pos,
{
    if 0 <= pos < ev.len() {
        match ev[pos] {
            XmlEvent::Decl => {
                lemma_document_numbered(ev, pos + 1, acc);
            },
            XmlEvent::Start(tag) => {
                lemma_element_numbered(Element::Protocol, ev, pos, 0);
                if let Ok((NodeView::Protocol(p), p2)) = spec_element(Element::Protocol, ev, pos, 0) {
                    if pos < p2 <= ev.len() {
                        let acc2 = acc.push(p);
                        assert forall|j: int| 0 <= j < acc2.len() implies spec_interfaces_numbered(
                            #[trigger] acc2[j].interfaces,
                        ) by {
                            if j < acc.len() {
                                assert(acc2[j] == acc[j]);
                            }
                        }
                        lemma_document_numbered(ev, p2, acc2);
                    }
                }
            },
            XmlEvent::Empty(tag) => {
                lemma_element_numbered(Element::Protocol, ev, pos, 0);
                if let Ok((NodeView::Protocol(p), p2)) = spec_element(Element::Protocol, ev, pos, 0) {
                    if pos < p2 <= ev.len() {
                        let acc2 = acc.push(p);
                        assert forall|j: int| 0 <= j < acc2.len() implies spec_interfaces_numbered(
                            #[trigger] acc2[j].interfaces,
                        ) by {
                            if j < acc.len() {
                                assert(acc2[j] == acc[j]);
                            }
                        }
                        lemma_document_numbered(ev, p2, acc2);
                    }
                }
            },
            _ => {},
        }
    }
}

/// In every description read from events, the opcode of a message is its
/// index among the requests, or among the events, of its interface.
pub proof fn lemma_opcodes_are_indices(ev: Seq<XmlEvent>)
    ensures
        spec_document(ev, 0, Seq::empty()) matches Ok(ps) ==> spec_protocols_numbered(ps),
{
    lemma_document_numbered(ev, 0, Seq::empty());
}

} // verus!
