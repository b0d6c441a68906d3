use crate::req_if::hierarchy::{children_xml, Children, HierarchyView};
use crate::xml::{attribute, element, lemma_same_element, text_element, XmlNode, XmlNodeView};
use vstd::prelude::*;

verus! {

/// A reference from a specification to its type.
#[derive(Debug, PartialEq)]
pub struct SpecificationRef {
    pub spec_ref: String,
}

/// A specification: a name, a type and the outline of the requirements that belong to it.
#[derive(Debug, PartialEq)]
pub struct Specification {
    pub identifier: String,
    pub last_change: String,
    pub long_name: String,
    pub type_ref: SpecificationRef,
    pub children: Children,
}

/// The specifications of a document, in the order in which they were added.
#[derive(Debug, PartialEq)]
pub struct Specifications {
    pub(crate) specifications: Vec<Specification>,
}

/// The mathematical value of a specification.
pub struct SpecificationView {
    pub identifier: Seq<char>,
    pub last_change: Seq<char>,
    pub long_name: Seq<char>,
    pub type_ref: Seq<char>,
    pub children: Seq<HierarchyView>,
}

impl View for SpecificationRef {
    type V = Seq<char>;

    open spec fn view(&self) -> Seq<char> {
        self.spec_ref@
    }
}

impl View for Specification {
    type V = SpecificationView;

    open spec fn view(&self) -> SpecificationView {
        SpecificationView {
            identifier: self.identifier@,
            last_change: self.last_change@,
            long_name: self.long_name@,
            type_ref: self.type_ref@,
            children: self.children@,
        }
    }
}

/// The mathematical values of a run of specifications, in their order.
pub open spec fn specifications_view(specifications: Seq<Specification>) -> Seq<SpecificationView> {
    specifications.map_values(|s: Specification| s@)
}

impl View for Specifications {
    type V = Seq<SpecificationView>;

    open(crate) spec fn view(&self) -> Seq<SpecificationView> {
        specifications_view(self.specifications@)
    }
}

pub open spec fn specification_type_ref_xml(type_ref: Seq<char>) -> XmlNodeView {
    element("TYPE"@, Seq::empty(), seq![text_element("SPECIFICATION-TYPE-REF"@, type_ref)])
}

/// A specification as XML: the reference to its type, then the top level of its outline.
pub open spec fn specification_xml(specification: SpecificationView) -> XmlNodeView {
    element(
        "SPECIFICATION"@,
        seq![
            attribute("IDENTIFIER"@, specification.identifier),
            attribute("LAST-CHANGE"@, specification.last_change),
            attribute("LONG-NAME"@, specification.long_name),
        ],
        seq![
            specification_type_ref_xml(specification.type_ref),
            children_xml(specification.children),
        ],
    )
}

/// The specifications as XML, one element each, in their order.
pub open spec fn specifications_xml(specifications: Seq<SpecificationView>) -> XmlNodeView {
    element(
        "SPECIFICATIONS"@,
        Seq::empty(),
        specifications.map_values(|s: SpecificationView| specification_xml(s)),
    )
}

impl SpecificationRef {
    pub fn to_xml(&self) -> (node: XmlNode)
        ensures
            node@ == specification_type_ref_xml(self@),
    {
        XmlNode::element("TYPE").child(XmlNode::text_element("SPECIFICATION-TYPE-REF", &self.spec_ref))
    }
}

impl Specification {
    pub fn to_xml(&self) -> (node: XmlNode)
        ensures
            node@ == specification_xml(self@),
    {
        let node = XmlNode::element("SPECIFICATION")
            .attr("IDENTIFIER", &self.identifier)
            .attr("LAST-CHANGE", &self.last_change)
            .attr("LONG-NAME", &self.long_name)
            .child(self.type_ref.to_xml())
            .child(self.children.to_xml());
        proof {
            lemma_same_element(node@, specification_xml(self@));
        }
        node
    }
}

impl Specifications {
    pub fn to_xml(&self) -> (node: XmlNode)
        ensures
            node@ == specifications_xml(self@),
    {
        let mut node = XmlNode::element("SPECIFICATIONS");
        let mut i: usize = 0;
        proof {
            lemma_same_element(
                node@,
                element(
                    "SPECIFICATIONS"@,
                    Seq::empty(),
                    self@.take(0).map_values(|s: SpecificationView| specification_xml(s)),
                ),
            );
        }
        while i < self.specifications.len()
            invariant
                0 <= i <= self.specifications.len(),
                node@ == element(
                    "SPECIFICATIONS"@,
                    Seq::empty(),
                    self@.take(i as int).map_values(|s: SpecificationView| specification_xml(s)),
                ),
            decreases self.specifications.len() - i,
        {
            node = node.child(self.specifications[i].to_xml());
            proof {
                lemma_same_element(
                    node@,
                    element(
                        "SPECIFICATIONS"@,
                        Seq::empty(),
                        self@.take(i as int + 1).map_values(
                            |s: SpecificationView| specification_xml(s),
                        ),
                    ),
                );
            }
            i = i + 1;
        }
        assert(self@.take(i as int) =~= self@);
        node
    }
}

} // verus!
