use crate::error::ReqIfError;
use vstd::prelude::*;

verus! {

/// An attribute of an element: its name and its value, not yet escaped.
#[derive(Debug, PartialEq)]
pub struct XmlAttribute {
    pub name: String,
    pub value: String,
}

/// A node of an XML tree: an element with its attributes and children, or a run of text.
#[derive(Debug, PartialEq)]
pub enum XmlNode {
    Element { name: String, attributes: Vec<XmlAttribute>, children: Vec<XmlNode> },
    Text { content: String },
}

/// The mathematical value of an attribute.
pub struct XmlAttributeView {
    pub name: Seq<char>,
    pub value: Seq<char>,
}

/// The mathematical value of an XML tree.
pub enum XmlNodeView {
    Element { name: Seq<char>, attributes: Seq<XmlAttributeView>, children: Seq<XmlNodeView> },
    Text { content: Seq<char> },
}

/// What a writer is told, one step at a time, to put a tree on the wire.
pub enum XmlEventView {
    StartElement { name: Seq<char>, attributes: Seq<XmlAttributeView> },
    Characters { content: Seq<char> },
    EndElement,
}

impl View for XmlAttribute {
    type V = XmlAttributeView;

    open spec fn view(&self) -> XmlAttributeView {
        XmlAttributeView { name: self.name@, value: self.value@ }
    }
}

/// The mathematical values of a run of attributes, in their order.
pub open spec fn attributes_view(attributes: Seq<XmlAttribute>) -> Seq<XmlAttributeView> {
    attributes.map_values(|a: XmlAttribute| a@)
}

/// The mathematical value of a tree.
pub open spec fn node_view(node: XmlNode) -> XmlNodeView
    decreases node, 1int,
{
    match node {
        XmlNode::Element { name, attributes, children } => XmlNodeView::Element {
            name: name@,
            attributes: attributes_view(attributes@),
            children: nodes_view(children@),
        },
        XmlNode::Text { content } => XmlNodeView::Text { content: content@ },
    }
}

/// The mathematical values of a run of siblings, in their order.
pub open spec fn nodes_view(nodes: Seq<XmlNode>) -> Seq<XmlNodeView>
    decreases nodes, 0int,
{
    Seq::new(
        nodes.len(),
        |i: int|
            if 0 <= i < nodes.len() {
                node_view(nodes[i])
            } else {
                arbitrary()
            },
    )
}

impl View for XmlNode {
    type V = XmlNodeView;

    open spec fn view(&self) -> XmlNodeView {
        node_view(*self)
    }
}

/// The attribute `name="value"`.
pub open spec fn attribute(name: Seq<char>, value: Seq<char>) -> XmlAttributeView {
    XmlAttributeView { name, value }
}

/// The element `name` with the given attributes and children.
pub open spec fn element(
    name: Seq<char>,
    attributes: Seq<XmlAttributeView>,
    children: Seq<XmlNodeView>,
) -> XmlNodeView {
    XmlNodeView::Element { name, attributes, children }
}

/// The element `name` without attributes, whose only child is the text `content`.
pub open spec fn text_element(name: Seq<char>, content: Seq<char>) -> XmlNodeView {
    element(name, Seq::empty(), seq![XmlNodeView::Text { content }])
}

/// The events of a tree in document order: an element opens, its children follow, it closes.
pub open spec fn node_events(node: XmlNodeView) -> Seq<XmlEventView>
    decreases node, 1int,
{
    match node {
        XmlNodeView::Element { name, attributes, children } => seq![
            XmlEventView::StartElement { name, attributes },
        ] + nodes_events(children) + seq![XmlEventView::EndElement],
        XmlNodeView::Text { content } => seq![XmlEventView::Characters { content }],
    }
}

/// The events of a run of siblings, first sibling first.
pub open spec fn nodes_events(nodes: Seq<XmlNodeView>) -> Seq<XmlEventView>
    decreases nodes, 0int,
{
    if nodes.len() == 0 {
        Seq::empty()
    } else {
        nodes_events(nodes.drop_last()) + node_events(nodes.last())
    }
}

/// `node` with `attr` added after its attributes. A run of text has none and stays as it is.
pub open spec fn with_attribute(node: XmlNodeView, attr: XmlAttributeView) -> XmlNodeView {
    match node {
        XmlNodeView::Element { name, attributes, children } => XmlNodeView::Element {
            name,
            attributes: attributes.push(attr),
            children,
        },
        XmlNodeView::Text { content } => node,
    }
}

/// `node` with `child` added after its children. A run of text has none and stays as it is.
pub open spec fn with_child(node: XmlNodeView, child: XmlNodeView) -> XmlNodeView {
    match node {
        XmlNodeView::Element { name, attributes, children } => XmlNodeView::Element {
            name,
            attributes,
            children: children.push(child),
        },
        XmlNodeView::Text { content } => node,
    }
}

/// By how much an event changes the number of open elements.
pub open spec fn event_step(event: XmlEventView) -> int {
    match event {
        XmlEventView::StartElement { .. } => 1,
        XmlEventView::Characters { .. } => 0,
        XmlEventView::EndElement => -1,
    }
}

/// The number of elements that are open after `events`: the starts less the ends.
pub open spec fn open_elements(events: Seq<XmlEventView>) -> int
    decreases events.len(),
{
    if events.len() == 0 {
        0
    } else {
        open_elements(events.drop_last()) + event_step(events.last())
    }
}

/// Whether `events` never end an element that they have not started.
pub open spec fn well_nested(events: Seq<XmlEventView>) -> bool {
    forall|k: int| 0 <= k <= events.len() ==> open_elements(#[trigger] events.take(k)) >= 0
}

/// Two elements with the same name, the same attributes in the same order and the same
/// children in the same order are the same element.
pub proof fn lemma_same_element(a: XmlNodeView, b: XmlNodeView)
    requires
        a is Element,
        b is Element,
        a->Element_name == b->Element_name,
        a->Element_attributes =~= b->Element_attributes,
        a->Element_children =~= b->Element_children,
    ensures
        a == b,
{
}

impl XmlAttribute {
    /// The attribute `name="value"`.
    pub fn new(name: &str, value: &String) -> (attr: XmlAttribute)
        ensures
            attr@ == attribute(name@, value@),
    {
        XmlAttribute { name: name.to_string(), value: value.clone() }
    }
}

impl XmlNode {
    /// The element `name`, with no attribute and no child yet.
    pub fn element(name: &str) -> (node: XmlNode)
        ensures
            node@ == element(name@, Seq::empty(), Seq::empty()),
    {
        let node = XmlNode::Element {
            name: name.to_string(),
            attributes: Vec::new(),
            children: Vec::new(),
        };
        assert(node@->Element_attributes =~= Seq::empty());
        assert(node@->Element_children =~= Seq::empty());
        node
    }

    /// The element `name` whose only child is the text `content`.
    pub fn text_element(name: &str, content: &String) -> (node: XmlNode)
        ensures
            node@ == text_element(name@, content@),
    {
        XmlNode::element(name).child(XmlNode::Text { content: content.clone() })
    }

    /// This element with the attribute `name="value"` added last.
    pub fn attr(self, name: &str, value: &String) -> (node: XmlNode)
        ensures
            node@ == with_attribute(self@, attribute(name@, value@)),
    {
        match self {
            XmlNode::Element { name: element_name, attributes, children } => {
                let mut attributes = attributes;
                let ghost before = attributes@;
                attributes.push(XmlAttribute::new(name, value));
                assert(attributes_view(attributes@) =~= attributes_view(before).push(
                    attribute(name@, value@),
                ));
                XmlNode::Element { name: element_name, attributes, children }
            },
            XmlNode::Text { content } => XmlNode::Text { content },
        }
    }

    /// This element with `child` added last.
    pub fn child(self, child: XmlNode) -> (node: XmlNode)
        ensures
            node@ == with_child(self@, child@),
    {
        match self {
            XmlNode::Element { name, attributes, children } => {
                let mut children = children;
                let ghost before = children@;
                children.push(child);
                assert(nodes_view(children@) =~= nodes_view(before).push(child@));
                XmlNode::Element { name, attributes, children }
            },
            XmlNode::Text { content } => XmlNode::Text { content },
        }
    }
}

/// A writer of XML text that takes a document one event at a time and keeps the bytes it has
/// made of them. It holds a `yaserde::ser::Serializer` over a byte vector.
///
/// The serializer's type is bounded by `std::io::Write`, which Verus does not take in the
/// declaration of an outside type. So the struct as a whole is opaque to Verus, and only the
/// five functions below touch its field.
#[verifier::external_body]
pub struct XmlWriter {
    inner: yaserde::ser::Serializer<Vec<u8>>,
}

/// The events that `writer` has accepted since it was opened, oldest first.
pub uninterp spec fn accepted_events(writer: XmlWriter) -> Seq<XmlEventView>;

/// Whether `writer` was opened to indent its output.
pub uninterp spec fn indents(writer: XmlWriter) -> bool;

/// The bytes that a writer holds once it has accepted exactly `events`, by whether it indents.
pub uninterp spec fn document_bytes(indent: bool, events: Seq<XmlEventView>) -> Seq<u8>;

/// Opens a writer with `yaserde::ser::Serializer::new_from_writer` on an empty byte vector, with
/// yaserde's default configuration but for the indentation asked for. The writer has accepted
/// nothing yet.
#[verifier::external_body]
fn open_writer(indent: bool) -> (writer: XmlWriter)
    ensures
        accepted_events(writer) == Seq::<XmlEventView>::empty(),
        indents(writer) == indent,
{
    let config = yaserde::ser::Config { perform_indent: indent, ..Default::default() };
    XmlWriter { inner: yaserde::ser::Serializer::new_from_writer(Vec::new(), &config) }
}

/// Hands `yaserde::ser::Serializer::write` the start of the element `name` with `attributes`
/// in their order. Whether the writer accepts the event rests on how it was opened and on what
/// it has accepted, and on nothing else. Where it accepts the event, it is the newest of its
/// accepted events; where it refuses, its message comes back.
#[verifier::external_body]
fn write_start_element(
    writer: &mut XmlWriter,
    name: &String,
    attributes: &Vec<XmlAttribute>,
) -> (res: Result<(), String>)
    ensures
        indents(*final(writer)) == indents(*old(writer)),
        res is Ok <==> writer_accepts(
            indents(*old(writer)),
            accepted_events(*old(writer)),
            XmlEventView::StartElement { name: name@, attributes: attributes_view(attributes@) },
        ),
        res is Ok ==> accepted_events(*final(writer)) == accepted_events(*old(writer)).push(
            XmlEventView::StartElement { name: name@, attributes: attributes_view(attributes@) },
        ),
{
    let start = xml::writer::XmlEvent::start_element(name.as_str());
    let event = attributes.iter().fold(start, |e, a| e.attr(a.name.as_str(), a.value.as_str()));
    writer.inner.write(event).map_err(|e| e.to_string())
}

/// Hands `yaserde::ser::Serializer::write` the text `content` as character data. Whether the
/// writer accepts the event rests on how it was opened and on what it has accepted, and on
/// nothing else. Where it accepts the event, it is the newest of its accepted events; where it
/// refuses, its message comes back.
#[verifier::external_body]
fn write_characters(writer: &mut XmlWriter, content: &String) -> (res: Result<(), String>)
    ensures
        indents(*final(writer)) == indents(*old(writer)),
        res is Ok <==> writer_accepts(
            indents(*old(writer)),
            accepted_events(*old(writer)),
            XmlEventView::Characters { content: content@ },
        ),
        res is Ok ==> accepted_events(*final(writer)) == accepted_events(*old(writer)).push(
            XmlEventView::Characters { content: content@ },
        ),
{
    writer.inner.write(xml::writer::XmlEvent::characters(content.as_str())).map_err(|e| e.to_string())
}

/// Hands `yaserde::ser::Serializer::write` the end of the element that is open. Whether the
/// writer accepts the event rests on how it was opened and on what it has accepted, and on
/// nothing else. Where it accepts the event, it is the newest of its accepted events; where it
/// refuses, its message comes back.
#[verifier::external_body]
fn write_end_element(writer: &mut XmlWriter) -> (res: Result<(), String>)
    ensures
        indents(*final(writer)) == indents(*old(writer)),
        res is Ok <==> writer_accepts(
            indents(*old(writer)),
            accepted_events(*old(writer)),
            XmlEventView::EndElement,
        ),
        res is Ok ==> accepted_events(*final(writer)) == accepted_events(*old(writer)).push(
            XmlEventView::EndElement,
        ),
{
    writer.inner.write(xml::writer::XmlEvent::end_element()).map_err(|e| e.to_string())
}

/// Takes the bytes out of the writer with `yaserde::ser::Serializer::into_inner`: the bytes
/// that stand for the events it has accepted.
#[verifier::external_body]
fn close_writer(writer: XmlWriter) -> (bytes: Vec<u8>)
    ensures
        bytes@ == document_bytes(indents(writer), accepted_events(writer)),
{
    writer.inner.into_inner()
}

/// Writes the tree below `node` to `writer`, in document order, and stops at the first event
/// that the writer refuses. It succeeds exactly where the writer accepts every event of the
/// tree in turn, and the writer has then accepted these events after what it had before.
fn write_node(writer: &mut XmlWriter, node: &XmlNode) -> (res: Result<(), String>)
    ensures
        indents(*final(writer)) == indents(*old(writer)),
        res is Ok <==> accepts_all(
            indents(*old(writer)),
            accepted_events(*old(writer)),
            node_events(node@),
        ),
        res is Ok ==> accepted_events(*final(writer)) == accepted_events(*old(writer)) + node_events(
            node@,
        ),
    decreases node,
{
    let ghost indent = indents(*writer);
    let ghost before = accepted_events(*writer);
    match node {
        XmlNode::Text { content } => {
            let res = write_characters(writer, content);
            proof {
                lemma_accepts_one(indent, before, XmlEventView::Characters { content: content@ });
                assert(res is Ok ==> accepted_events(*writer) =~= before + node_events(node@));
            }
            res
        },
        XmlNode::Element { name, attributes, children } => {
            let ghost first = XmlEventView::StartElement {
                name: name@,
                attributes: attributes_view(attributes@),
            };
            let ghost start = seq![first];
            let ghost end = seq![XmlEventView::EndElement];
            let ghost below = nodes_view(children@);
            proof {
                lemma_accepts_one(indent, before, first);
            }
            match write_start_element(writer, name, attributes) {
                Ok(()) => {},
                Err(cause) => {
                    proof {
                        lemma_accepts_all_add(indent, before, start + nodes_events(below), end);
                        lemma_accepts_all_add(indent, before, start, nodes_events(below));
                    }
                    return Err(cause);
                },
            }
            let ghost opened = before + start;
            assert(accepted_events(*writer) =~= opened + nodes_events(below.take(0))) by {
                assert(below.take(0) =~= Seq::<XmlNodeView>::empty());
            }
            assert(start + nodes_events(below.take(0)) =~= start);
            let mut i: usize = 0;
            while i < children.len()
                invariant
                    0 <= i <= children.len(),
                    node matches XmlNode::Element { children: c, .. } && c == *children,
                    node@ == (XmlNodeView::Element {
                        name: name@,
                        attributes: attributes_view(attributes@),
                        children: below,
                    }),
                    below == nodes_view(children@),
                    first == (XmlEventView::StartElement {
                        name: name@,
                        attributes: attributes_view(attributes@),
                    }),
                    start == seq![first],
                    end == seq![XmlEventView::EndElement],
                    opened == before + start,
                    indent == indents(*old(writer)),
                    before == accepted_events(*old(writer)),
                    indents(*writer) == indent,
                    accepted_events(*writer) == opened + nodes_events(below.take(i as int)),
                    accepts_all(indent, before, start + nodes_events(below.take(i as int))),
                decreases children.len() - i,
            {
                let ghost done = nodes_events(below.take(i as int));
                let ghost next = node_events(below[i as int]);
                proof {
                    lemma_nodes_events_step(below, i as int);
                    lemma_accepts_all_add(indent, before, start + done, next);
                    assert(before + (start + done) =~= opened + done);
                    assert((start + done) + next =~= start + (done + next));
                }
                match write_node(writer, &children[i]) {
                    Ok(()) => {},
                    Err(cause) => {
                        proof {
                            let rest = nodes_events(below.skip(i as int + 1));
                            lemma_nodes_events_add(below.take(i as int + 1), below.skip(i as int + 1));
                            assert(below.take(i as int + 1) + below.skip(i as int + 1) =~= below);
                            assert(start + nodes_events(below) =~= (start + (done + next)) + rest);
                            lemma_accepts_all_add(indent, before, start + (done + next), rest);
                            lemma_accepts_all_add(indent, before, start + nodes_events(below), end);
                        }
                        return Err(cause);
                    },
                }
                proof {
                    assert(accepted_events(*writer) =~= opened + (done + next));
                }
                i = i + 1;
            }
            let ghost inner = nodes_events(below);
            proof {
                assert(below.take(children.len() as int) =~= below);
                lemma_accepts_all_add(indent, before, start + inner, end);
                lemma_accepts_one(indent, before + (start + inner), XmlEventView::EndElement);
                assert(before + (start + inner) =~= opened + inner);
            }
            let res = write_end_element(writer);
            proof {
                assert(res is Ok ==> accepted_events(*writer) =~= before + node_events(node@));
            }
            res
        },
    }
}

/// Whether a writer that was opened to indent or not, as `indent` says, and that has accepted
/// `accepted`, accepts `event` next.
pub uninterp spec fn writer_accepts(
    indent: bool,
    accepted: Seq<XmlEventView>,
    event: XmlEventView,
) -> bool;

/// Whether a writer that was opened to indent or not, as `indent` says, and that has accepted
/// `accepted`, accepts every one of `events`, each after those that stand before it.
pub open spec fn accepts_all(
    indent: bool,
    accepted: Seq<XmlEventView>,
    events: Seq<XmlEventView>,
) -> bool
    decreases events.len(),
{
    events.len() == 0 || {
        &&& accepts_all(indent, accepted, events.drop_last())
        &&& writer_accepts(indent, accepted + events.drop_last(), events.last())
    }
}

/// A writer accepts a single event as a run exactly where it accepts the event.
pub proof fn lemma_accepts_one(indent: bool, accepted: Seq<XmlEventView>, event: XmlEventView)
    ensures
        accepts_all(indent, accepted, seq![event]) <==> writer_accepts(indent, accepted, event),
{
    assert(seq![event].drop_last() =~= Seq::<XmlEventView>::empty());
    assert(seq![event].last() == event);
    assert(accepted + Seq::<XmlEventView>::empty() =~= accepted);
    assert(accepts_all(indent, accepted, Seq::<XmlEventView>::empty()));
}

/// A writer accepts two runs of events, one after the other, exactly where it accepts the
/// first, and then, having accepted the first, the second.
pub proof fn lemma_accepts_all_add(
    indent: bool,
    accepted: Seq<XmlEventView>,
    first: Seq<XmlEventView>,
    second: Seq<XmlEventView>,
)
    ensures
        accepts_all(indent, accepted, first + second) <==> {
            &&& accepts_all(indent, accepted, first)
            &&& accepts_all(indent, accepted + first, second)
        },
    decreases second.len(),
{
    if second.len() == 0 {
        assert(first + second =~= first);
    } else {
        lemma_accepts_all_add(indent, accepted, first, second.drop_last());
        assert((first + second).drop_last() =~= first + second.drop_last());
        assert(accepted + (first + second).drop_last() =~= (accepted + first) + second.drop_last());
        assert((first + second).last() == second.last());
    }
}

/// The events of the first `count + 1` siblings are those of the first `count`, then those of
/// the next one.
proof fn lemma_nodes_events_step(nodes: Seq<XmlNodeView>, count: int)
    requires
        0 <= count < nodes.len(),
    ensures
        nodes_events(nodes.take(count + 1)) == nodes_events(nodes.take(count)) + node_events(
            nodes[count],
        ),
{
    assert(nodes.take(count + 1).drop_last() =~= nodes.take(count));
}

/// The events of two runs of siblings, one after the other, are those of the first, then
/// those of the second.
proof fn lemma_nodes_events_add(first: Seq<XmlNodeView>, second: Seq<XmlNodeView>)
    ensures
        nodes_events(first + second) == nodes_events(first) + nodes_events(second),
    decreases second.len(),
{
    if second.len() == 0 {
        assert(first + second =~= first);
    } else {
        lemma_nodes_events_add(first, second.drop_last());
        assert((first + second).drop_last() =~= first + second.drop_last());
        assert((first + second).last() == second.last());
    }
}

/// The open elements of two runs of events, one after the other, add up.
pub proof fn lemma_open_elements_add(first: Seq<XmlEventView>, second: Seq<XmlEventView>)
    ensures
        open_elements(first + second) == open_elements(first) + open_elements(second),
    decreases second.len(),
{
    if second.len() == 0 {
        assert(first + second =~= first);
    } else {
        lemma_open_elements_add(first, second.drop_last());
        assert((first + second).drop_last() =~= first + second.drop_last());
    }
}

/// Two well-nested runs of events, one after the other, are well nested.
pub proof fn lemma_well_nested_add(first: Seq<XmlEventView>, second: Seq<XmlEventView>)
    requires
        well_nested(first),
        well_nested(second),
    ensures
        well_nested(first + second),
{
    let both = first + second;
    assert forall|k: int| 0 <= k <= both.len() implies open_elements(#[trigger] both.take(k))
        >= 0 by {
        if k <= first.len() {
            assert(both.take(k) =~= first.take(k));
        } else {
            assert(both.take(k) =~= first + second.take(k - first.len()));
            lemma_open_elements_add(first, second.take(k - first.len()));
            assert(first.take(first.len() as int) =~= first);
        }
    }
}

/// A single event leaves as many elements open as its step says, and its only proper prefix
/// is empty.
proof fn lemma_single_event(event: XmlEventView)
    ensures
        open_elements(seq![event]) == event_step(event),
        open_elements(Seq::<XmlEventView>::empty()) == 0,
        forall|k: int| 0 <= k < 1 ==> #[trigger] seq![event].take(k) == Seq::<XmlEventView>::empty(),
        seq![event].take(1) == seq![event],
{
    assert(seq![event].drop_last() =~= Seq::<XmlEventView>::empty());
    assert(open_elements(Seq::<XmlEventView>::empty()) == 0);
    assert(seq![event].last() == event);
    assert(seq![event].take(0) =~= Seq::<XmlEventView>::empty());
    assert(seq![event].take(1) =~= seq![event]);
}

/// The events of a tree are well nested and leave no element open: whatever they start, they
/// end, and they end nothing else.
pub proof fn lemma_events_are_balanced(node: XmlNodeView)
    ensures
        well_nested(node_events(node)),
        open_elements(node_events(node)) == 0,
    decreases node, 1int,
{
    match node {
        XmlNodeView::Text { content } => {
            lemma_single_event(XmlEventView::Characters { content });
        },
        XmlNodeView::Element { name, attributes, children } => {
            let start = seq![XmlEventView::StartElement { name, attributes }];
            let end = seq![XmlEventView::EndElement];
            let inner = nodes_events(children);
            let events = start + inner + end;
            lemma_sibling_events_are_balanced(children);
            lemma_single_event(XmlEventView::StartElement { name, attributes });
            lemma_single_event(XmlEventView::EndElement);
            lemma_open_elements_add(start, inner);
            lemma_open_elements_add(start + inner, end);
            assert forall|k: int| 0 <= k <= events.len() implies open_elements(
                #[trigger] events.take(k),
            ) >= 0 by {
                if k == 0 {
                    assert(events.take(k) =~= Seq::<XmlEventView>::empty());
                } else if k <= 1 + inner.len() {
                    assert(events.take(k) =~= start + inner.take(k - 1));
                    lemma_open_elements_add(start, inner.take(k - 1));
                } else {
                    assert(events.take(k) =~= events);
                }
            }
        },
    }
}

/// The events of a run of siblings are well nested and leave no element open.
pub proof fn lemma_sibling_events_are_balanced(nodes: Seq<XmlNodeView>)
    ensures
        well_nested(nodes_events(nodes)),
        open_elements(nodes_events(nodes)) == 0,
    decreases nodes, 0int,
{
    if nodes.len() > 0 {
        lemma_sibling_events_are_balanced(nodes.drop_last());
        lemma_events_are_balanced(nodes.last());
        lemma_open_elements_add(nodes_events(nodes.drop_last()), node_events(nodes.last()));
        lemma_well_nested_add(nodes_events(nodes.drop_last()), node_events(nodes.last()));
    } else {
        assert(nodes_events(nodes).take(0) =~= nodes_events(nodes));
    }
}

impl XmlNode {
    /// The XML document whose root is this node, as bytes: with a declaration first, indented
    /// if `indent` is set. The text is the writer's; which events it is made of is stated here.
    /// Fails exactly where the writer, newly opened, refuses one of these events.
    pub fn to_bytes(&self, indent: bool) -> (res: Result<Vec<u8>, ReqIfError>)
        ensures
            res is Ok <==> accepts_all(indent, Seq::empty(), node_events(self@)),
            match res {
                Ok(bytes) => bytes@ == document_bytes(indent, node_events(self@)),
                Err(e) => e is SerializationFailure,
            },
    {
        let mut writer = open_writer(indent);
        match write_node(&mut writer, self) {
            Ok(()) => {
                assert(accepted_events(writer) =~= node_events(self@));
                Ok(close_writer(writer))
            },
            Err(cause) => Err(ReqIfError::SerializationFailure { cause }),
        }
    }
}

} // verus!
