use crate::req_if::spec_types::{SpecTypes, SpecTypesView};
use crate::xml::{attribute, element, lemma_same_element, text_element, XmlNode, XmlNodeView};
use vstd::prelude::*;

verus! {

/// A reference from a requirement to its type.
#[derive(Debug, PartialEq)]
pub struct SpecObjectType {
    pub(crate) reference: String,
}

/// A reference from an attribute value to the definition of its attribute.
#[derive(Debug, PartialEq)]
pub struct AttributeValueXHtmlDefinition {
    pub(crate) reference: String,
}

/// The text of an attribute value.
#[derive(Debug, PartialEq)]
pub struct XHtmlValue {
    pub(crate) value: String,
}

/// One attribute value of a requirement: its text and the attribute that it is a value of.
#[derive(Debug, PartialEq)]
pub struct AttributeValueXHtml {
    pub(crate) the_value: XHtmlValue,
    pub(crate) definition: AttributeValueXHtmlDefinition,
}

/// The attribute values of a requirement: its external identifier and its text.
#[derive(Debug, PartialEq)]
pub struct SpecObjectRequirementValues {
    pub(crate) req_id: AttributeValueXHtml,
    pub(crate) req_text: AttributeValueXHtml,
}

/// A requirement.
#[derive(Debug, PartialEq)]
pub struct SpecObjectRequirement {
    pub(crate) identifier: String,
    pub(crate) last_change: String,
    pub(crate) long_name: String,
    pub(crate) spec_object_type: SpecObjectType,
    pub(crate) values: SpecObjectRequirementValues,
}

/// The requirements of a document, in the order in which they were added.
#[derive(Debug, PartialEq)]
pub struct SpecObjects {
    pub(crate) requirements: Vec<SpecObjectRequirement>,
}

/// The mathematical value of an attribute value.
pub struct AttributeValueView {
    pub value: Seq<char>,
    pub definition: Seq<char>,
}

/// The mathematical value of the attribute values of a requirement.
pub struct RequirementValuesView {
    pub req_id: AttributeValueView,
    pub req_text: AttributeValueView,
}

/// The mathematical value of a requirement.
pub struct RequirementView {
    pub identifier: Seq<char>,
    pub last_change: Seq<char>,
    pub long_name: Seq<char>,
    pub type_ref: Seq<char>,
    pub values: RequirementValuesView,
}

impl View for SpecObjectType {
    type V = Seq<char>;

    open(crate) spec fn view(&self) -> Seq<char> {
        self.reference@
    }
}

impl View for AttributeValueXHtmlDefinition {
    type V = Seq<char>;

    open(crate) spec fn view(&self) -> Seq<char> {
        self.reference@
    }
}

impl View for XHtmlValue {
    type V = Seq<char>;

    open(crate) spec fn view(&self) -> Seq<char> {
        self.value@
    }
}

impl View for AttributeValueXHtml {
    type V = AttributeValueView;

    open(crate) spec fn view(&self) -> AttributeValueView {
        AttributeValueView { value: self.the_value@, definition: self.definition@ }
    }
}

impl View for SpecObjectRequirementValues {
    type V = RequirementValuesView;

    open(crate) spec fn view(&self) -> RequirementValuesView {
        RequirementValuesView { req_id: self.req_id@, req_text: self.req_text@ }
    }
}

impl View for SpecObjectRequirement {
    type V = RequirementView;

    open(crate) spec fn view(&self) -> RequirementView {
        RequirementView {
            identifier: self.identifier@,
            last_change: self.last_change@,
            long_name: self.long_name@,
            type_ref: self.spec_object_type@,
            values: self.values@,
        }
    }
}

/// The mathematical values of a run of requirements, in their order.
pub open spec fn requirements_view(requirements: Seq<SpecObjectRequirement>) -> Seq<RequirementView> {
    requirements.map_values(|r: SpecObjectRequirement| r@)
}

impl View for SpecObjects {
    type V = Seq<RequirementView>;

    open(crate) spec fn view(&self) -> Seq<RequirementView> {
        requirements_view(self.requirements@)
    }
}

/// The requirement that is made of the given identifier, date, name and text under the types
/// `spec_types`. Its type is the requirement type. Its first value is the identifier again, as
/// a value of the type's identifier attribute; its second is the text, as a value of the
/// type's text attribute.
pub open spec fn requirement(
    identifier: Seq<char>,
    last_change: Seq<char>,
    long_name: Seq<char>,
    text: Seq<char>,
    spec_types: SpecTypesView,
) -> RequirementView {
    RequirementView {
        identifier,
        last_change,
        long_name,
        type_ref: spec_types.requirement_type.identifier,
        values: RequirementValuesView {
            req_id: AttributeValueView {
                value: identifier,
                definition: spec_types.requirement_type.attributes.id_attribute.identifier,
            },
            req_text: AttributeValueView {
                value: text,
                definition: spec_types.requirement_type.attributes.text_attribute.identifier,
            },
        },
    }
}

/// Whether `requirement` refers to the types `spec_types`: its type is their requirement
/// type, its first value is a value of that type's identifier attribute, and its second a
/// value of that type's text attribute.
pub open spec fn refers_to_types(requirement: RequirementView, spec_types: SpecTypesView) -> bool {
    let requirement_type = spec_types.requirement_type;
    &&& requirement.type_ref == requirement_type.identifier
    &&& requirement.values.req_id.definition == requirement_type.attributes.id_attribute.identifier
    &&& requirement.values.req_text.definition
        == requirement_type.attributes.text_attribute.identifier
}

pub open spec fn requirement_type_ref_xml(type_ref: Seq<char>) -> XmlNodeView {
    element("TYPE"@, Seq::empty(), seq![text_element("SPEC-OBJECT-TYPE-REF"@, type_ref)])
}

pub open spec fn the_value_xml(value: Seq<char>) -> XmlNodeView {
    element("THE-VALUE"@, Seq::empty(), seq![text_element("xhtml:div"@, value)])
}

pub open spec fn definition_xml(definition: Seq<char>) -> XmlNodeView {
    element(
        "DEFINITION"@,
        Seq::empty(),
        seq![text_element("ATTRIBUTE-DEFINITION-XHTML-REF"@, definition)],
    )
}

/// An attribute value as XML: the text first, then the reference to its definition.
pub open spec fn attribute_value_xml(value: AttributeValueView) -> XmlNodeView {
    element(
        "ATTRIBUTE-VALUE-XHTML"@,
        Seq::empty(),
        seq![the_value_xml(value.value), definition_xml(value.definition)],
    )
}

/// The values of a requirement as XML: the identifier first, then the text.
pub open spec fn requirement_values_xml(values: RequirementValuesView) -> XmlNodeView {
    element(
        "VALUES"@,
        Seq::empty(),
        seq![attribute_value_xml(values.req_id), attribute_value_xml(values.req_text)],
    )
}

pub open spec fn requirement_xml(requirement: RequirementView) -> XmlNodeView {
    element(
        "SPEC-OBJECT"@,
        seq![
            attribute("IDENTIFIER"@, requirement.identifier),
            attribute("LAST-CHANGE"@, requirement.last_change),
            attribute("LONG-NAME"@, requirement.long_name),
        ],
        seq![
            requirement_type_ref_xml(requirement.type_ref),
            requirement_values_xml(requirement.values),
        ],
    )
}

/// The requirements as XML, one element each, in their order.
pub open spec fn requirements_xml(requirements: Seq<RequirementView>) -> XmlNodeView {
    element(
        "SPEC-OBJECTS"@,
        Seq::empty(),
        requirements.map_values(|r: RequirementView| requirement_xml(r)),
    )
}

impl SpecObjectType {
    pub fn to_xml(&self) -> (node: XmlNode)
        ensures
            node@ == requirement_type_ref_xml(self@),
    {
        XmlNode::element("TYPE").child(XmlNode::text_element("SPEC-OBJECT-TYPE-REF", &self.reference))
    }
}

impl AttributeValueXHtmlDefinition {
    pub fn to_xml(&self) -> (node: XmlNode)
        ensures
            node@ == definition_xml(self@),
    {
        XmlNode::element("DEFINITION").child(
            XmlNode::text_element("ATTRIBUTE-DEFINITION-XHTML-REF", &self.reference),
        )
    }
}

impl XHtmlValue {
    pub fn to_xml(&self) -> (node: XmlNode)
        ensures
            node@ == the_value_xml(self@),
    {
        XmlNode::element("THE-VALUE").child(XmlNode::text_element("xhtml:div", &self.value))
    }
}

impl AttributeValueXHtml {
    pub fn to_xml(&self) -> (node: XmlNode)
        ensures
            node@ == attribute_value_xml(self@),
    {
        let node = XmlNode::element("ATTRIBUTE-VALUE-XHTML")
            .child(self.the_value.to_xml())
            .child(self.definition.to_xml());
        proof {
            lemma_same_element(node@, attribute_value_xml(self@));
        }
        node
    }
}

impl SpecObjectRequirementValues {
    pub fn to_xml(&self) -> (node: XmlNode)
        ensures
            node@ == requirement_values_xml(self@),
    {
        let node = XmlNode::element("VALUES")
            .child(self.req_id.to_xml())
            .child(self.req_text.to_xml());
        proof {
            lemma_same_element(node@, requirement_values_xml(self@));
        }
        node
    }
}

impl SpecObjectRequirement {
    /// The requirement with the given identifier, date, name and text, bound to the types
    /// `spec_types`.
    pub fn new(
        identifier: String,
        last_change: String,
        long_name: String,
        text: String,
        spec_types: &SpecTypes,
    ) -> (req: Self)
        ensures
            req@ == requirement(identifier@, last_change@, long_name@, text@, spec_types@),
            refers_to_types(req@, spec_types@),
    {
        let requirement_type = &spec_types.spec_object_type_requirement;
        SpecObjectRequirement {
            identifier: identifier.clone(),
            last_change,
            long_name,
            spec_object_type: SpecObjectType { reference: requirement_type.identifier.clone() },
            values: SpecObjectRequirementValues {
                req_id: AttributeValueXHtml {
                    definition: AttributeValueXHtmlDefinition {
                        reference: requirement_type.attributes.id_attribute.identifier.clone(),
                    },
                    the_value: XHtmlValue { value: identifier },
                },
                req_text: AttributeValueXHtml {
                    definition: AttributeValueXHtmlDefinition {
                        reference: requirement_type.attributes.text_attribute.identifier.clone(),
                    },
                    the_value: XHtmlValue { value: text },
                },
            },
        }
    }

    pub fn to_xml(&self) -> (node: XmlNode)
        ensures
            node@ == requirement_xml(self@),
    {
        let node = XmlNode::element("SPEC-OBJECT")
            .attr("IDENTIFIER", &self.identifier)
            .attr("LAST-CHANGE", &self.last_change)
            .attr("LONG-NAME", &self.long_name)
            .child(self.spec_object_type.to_xml())
            .child(self.values.to_xml());
        proof {
            lemma_same_element(node@, requirement_xml(self@));
        }
        node
    }
}

impl SpecObjects {
    pub fn to_xml(&self) -> (node: XmlNode)
        ensures
            node@ == requirements_xml(self@),
    {
        let mut node = XmlNode::element("SPEC-OBJECTS");
        let mut i: usize = 0;
        proof {
            lemma_same_element(
                node@,
                element(
                    "SPEC-OBJECTS"@,
                    Seq::empty(),
                    self@.take(0).map_values(|r: RequirementView| requirement_xml(r)),
                ),
            );
        }
        while i < self.requirements.len()
            invariant
                0 <= i <= self.requirements.len(),
                node@ == element(
                    "SPEC-OBJECTS"@,
                    Seq::empty(),
                    self@.take(i as int).map_values(|r: RequirementView| requirement_xml(r)),
                ),
            decreases self.requirements.len() - i,
        {
            node = node.child(self.requirements[i].to_xml());
            proof {
                lemma_same_element(
                    node@,
                    element(
                        "SPEC-OBJECTS"@,
                        Seq::empty(),
                        self@.take(i as int + 1).map_values(|r: RequirementView| requirement_xml(r)),
                    ),
                );
            }
            i = i + 1;
        }
        assert(self@.take(i as int) =~= self@);
        node
    }
}

} // verus!
