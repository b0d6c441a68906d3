use crate::req_if::datatypes::{default_last_change_date, get_default_last_change_date, DataTypes};
use crate::xml::{attribute, element, lemma_same_element, text_element, XmlNode, XmlNodeView};
use vstd::prelude::*;

verus! {

/// A reference from an attribute definition to the datatype of its values.
#[derive(Debug, PartialEq)]
pub struct TypeDefinitionXHtmlRef {
    pub(crate) reference: String,
}

/// A named field that a type declares, with the datatype of its values.
#[derive(Debug, PartialEq)]
pub struct AttributeDefinitionXHtml {
    pub(crate) identifier: String,
    pub(crate) last_change: String,
    pub(crate) long_name: String,
    pub(crate) type_ref: TypeDefinitionXHtmlRef,
}

/// The fields that a requirement carries: its text and its external identifier.
#[derive(Debug, PartialEq)]
pub struct RequirementSpecObjectTypeAttributes {
    pub(crate) text_attribute: AttributeDefinitionXHtml,
    pub(crate) id_attribute: AttributeDefinitionXHtml,
}

/// The type of every requirement.
#[derive(Debug, PartialEq)]
pub struct SpecObjectTypeRequirement {
    pub(crate) identifier: String,
    pub(crate) last_change: String,
    pub(crate) long_name: String,
    pub(crate) attributes: RequirementSpecObjectTypeAttributes,
}

/// The field that a specification carries: its name.
#[derive(Debug, PartialEq)]
pub struct SpecificationTypeModuleAttributes {
    pub(crate) reqif_name_attribute: AttributeDefinitionXHtml,
}

/// The type of every specification.
#[derive(Debug, PartialEq)]
pub struct SpecificationTypeModule {
    pub(crate) identifier: String,
    pub(crate) last_change: String,
    pub(crate) long_name: String,
    pub(crate) attributes: SpecificationTypeModuleAttributes,
}

/// The types of a document: one for requirements, one for specifications.
#[derive(Debug, PartialEq)]
pub struct SpecTypes {
    pub(crate) spec_object_type_requirement: SpecObjectTypeRequirement,
    pub(crate) specification_type_module: SpecificationTypeModule,
}

/// The mathematical value of an attribute definition.
pub struct AttributeDefinitionView {
    pub identifier: Seq<char>,
    pub last_change: Seq<char>,
    pub long_name: Seq<char>,
    pub type_ref: Seq<char>,
}

/// The mathematical value of the attribute definitions of the requirement type.
pub struct RequirementAttributesView {
    pub text_attribute: AttributeDefinitionView,
    pub id_attribute: AttributeDefinitionView,
}

/// The mathematical value of the requirement type.
pub struct SpecObjectTypeView {
    pub identifier: Seq<char>,
    pub last_change: Seq<char>,
    pub long_name: Seq<char>,
    pub attributes: RequirementAttributesView,
}

/// The mathematical value of the specification type.
pub struct SpecificationTypeView {
    pub identifier: Seq<char>,
    pub last_change: Seq<char>,
    pub long_name: Seq<char>,
    pub name_attribute: AttributeDefinitionView,
}

/// The mathematical value of the types of a document.
pub struct SpecTypesView {
    pub requirement_type: SpecObjectTypeView,
    pub module_type: SpecificationTypeView,
}

impl View for TypeDefinitionXHtmlRef {
    type V = Seq<char>;

    open(crate) spec fn view(&self) -> Seq<char> {
        self.reference@
    }
}

impl View for AttributeDefinitionXHtml {
    type V = AttributeDefinitionView;

    open(crate) spec fn view(&self) -> AttributeDefinitionView {
        AttributeDefinitionView {
            identifier: self.identifier@,
            last_change: self.last_change@,
            long_name: self.long_name@,
            type_ref: self.type_ref@,
        }
    }
}

impl View for RequirementSpecObjectTypeAttributes {
    type V = RequirementAttributesView;

    open(crate) spec fn view(&self) -> RequirementAttributesView {
        RequirementAttributesView {
            text_attribute: self.text_attribute@,
            id_attribute: self.id_attribute@,
        }
    }
}

impl View for SpecObjectTypeRequirement {
    type V = SpecObjectTypeView;

    open(crate) spec fn view(&self) -> SpecObjectTypeView {
        SpecObjectTypeView {
            identifier: self.identifier@,
            last_change: self.last_change@,
            long_name: self.long_name@,
            attributes: self.attributes@,
        }
    }
}

impl View for SpecificationTypeModuleAttributes {
    type V = AttributeDefinitionView;

    open(crate) spec fn view(&self) -> AttributeDefinitionView {
        self.reqif_name_attribute@
    }
}

impl View for SpecificationTypeModule {
    type V = SpecificationTypeView;

    open(crate) spec fn view(&self) -> SpecificationTypeView {
        SpecificationTypeView {
            identifier: self.identifier@,
            last_change: self.last_change@,
            long_name: self.long_name@,
            name_attribute: self.attributes@,
        }
    }
}

impl View for SpecTypes {
    type V = SpecTypesView;

    open(crate) spec fn view(&self) -> SpecTypesView {
        SpecTypesView {
            requirement_type: self.spec_object_type_requirement@,
            module_type: self.specification_type_module@,
        }
    }
}

/// The attribute definition of the built-in catalogue with the given identifier and name,
/// whose values are of the datatype `data_type`.
pub open spec fn catalogue_attribute(
    identifier: Seq<char>,
    long_name: Seq<char>,
    data_type: Seq<char>,
) -> AttributeDefinitionView {
    AttributeDefinitionView {
        identifier,
        last_change: default_last_change_date(),
        long_name,
        type_ref: data_type,
    }
}

/// The requirement type of the built-in catalogue, over the datatype `data_type`.
pub open spec fn catalogue_requirement_type(data_type: Seq<char>) -> SpecObjectTypeView {
    SpecObjectTypeView {
        identifier: "SPEC-OBJEC-TYPE-REQ-TYPE-IDENTIFIER"@,
        last_change: default_last_change_date(),
        long_name: "Requirement Type"@,
        attributes: RequirementAttributesView {
            text_attribute: catalogue_attribute(
                "ATTRIBUTE-DEFINITION-XHTML-REQIF.Text-ID"@,
                "ReqIF.Text"@,
                data_type,
            ),
            id_attribute: catalogue_attribute(
                "ATTRIBUTE-DEFINITION-XHTML-PUID-ID"@,
                "IE PUID"@,
                data_type,
            ),
        },
    }
}

/// The specification type of the built-in catalogue, over the datatype `data_type`.
pub open spec fn catalogue_module_type(data_type: Seq<char>) -> SpecificationTypeView {
    SpecificationTypeView {
        identifier: "MODULE-SPECIFICATION-TYPE-ID"@,
        last_change: default_last_change_date(),
        long_name: "Module Type"@,
        name_attribute: catalogue_attribute(
            "ATTRIBUTE-DEFINITION-XHTML-REQIF.NAME-ID"@,
            "ReqIF.Name"@,
            data_type,
        ),
    }
}

/// The types of the built-in catalogue, over the datatype `data_type`.
pub open spec fn catalogue_spec_types(data_type: Seq<char>) -> SpecTypesView {
    SpecTypesView {
        requirement_type: catalogue_requirement_type(data_type),
        module_type: catalogue_module_type(data_type),
    }
}

pub open spec fn type_ref_xml(data_type: Seq<char>) -> XmlNodeView {
    element(
        "TYPE"@,
        Seq::empty(),
        seq![text_element("DATATYPE-DEFINITION-XHTML-REF"@, data_type)],
    )
}

pub open spec fn attribute_definition_xml(definition: AttributeDefinitionView) -> XmlNodeView {
    element(
        "ATTRIBUTE-DEFINITION-XHTML"@,
        seq![
            attribute("IDENTIFIER"@, definition.identifier),
            attribute("LAST-CHANGE"@, definition.last_change),
            attribute("LONG-NAME"@, definition.long_name),
        ],
        seq![type_ref_xml(definition.type_ref)],
    )
}

/// The attribute definitions of the requirement type: the text first, then the identifier.
pub open spec fn requirement_attributes_xml(attributes: RequirementAttributesView) -> XmlNodeView {
    element(
        "SPEC-ATTRIBUTES"@,
        Seq::empty(),
        seq![
            attribute_definition_xml(attributes.text_attribute),
            attribute_definition_xml(attributes.id_attribute),
        ],
    )
}

pub open spec fn requirement_type_xml(requirement_type: SpecObjectTypeView) -> XmlNodeView {
    element(
        "SPEC-OBJECT-TYPE"@,
        seq![
            attribute("IDENTIFIER"@, requirement_type.identifier),
            attribute("LAST-CHANGE"@, requirement_type.last_change),
            attribute("LONG-NAME"@, requirement_type.long_name),
        ],
        seq![requirement_attributes_xml(requirement_type.attributes)],
    )
}

pub open spec fn module_attributes_xml(name_attribute: AttributeDefinitionView) -> XmlNodeView {
    element("SPEC-ATTRIBUTES"@, Seq::empty(), seq![attribute_definition_xml(name_attribute)])
}

pub open spec fn module_type_xml(module_type: SpecificationTypeView) -> XmlNodeView {
    element(
        "SPECIFICATION-TYPE"@,
        seq![
            attribute("IDENTIFIER"@, module_type.identifier),
            attribute("LAST-CHANGE"@, module_type.last_change),
            attribute("LONG-NAME"@, module_type.long_name),
        ],
        seq![module_attributes_xml(module_type.name_attribute)],
    )
}

/// The types as XML: the requirement type first, then the specification type.
pub open spec fn spec_types_xml(spec_types: SpecTypesView) -> XmlNodeView {
    element(
        "SPEC-TYPES"@,
        Seq::empty(),
        seq![
            requirement_type_xml(spec_types.requirement_type),
            module_type_xml(spec_types.module_type),
        ],
    )
}

impl TypeDefinitionXHtmlRef {
    pub fn to_xml(&self) -> (node: XmlNode)
        ensures
            node@ == type_ref_xml(self@),
    {
        XmlNode::element("TYPE").child(
            XmlNode::text_element("DATATYPE-DEFINITION-XHTML-REF", &self.reference),
        )
    }
}

impl AttributeDefinitionXHtml {
    /// The attribute definition of the built-in catalogue with the given identifier and name,
    /// whose values are of the datatype that `data_types` holds.
    pub(crate) fn new(identifier: &str, long_name: &str, data_types: &DataTypes) -> (definition: Self)
        ensures
            definition@ == catalogue_attribute(identifier@, long_name@, data_types@.identifier),
    {
        AttributeDefinitionXHtml {
            identifier: identifier.to_string(),
            last_change: get_default_last_change_date(),
            long_name: long_name.to_string(),
            type_ref: TypeDefinitionXHtmlRef {
                reference: data_types.xhtml_definition.identifier.clone(),
            },
        }
    }

    pub fn to_xml(&self) -> (node: XmlNode)
        ensures
            node@ == attribute_definition_xml(self@),
    {
        let node = XmlNode::element("ATTRIBUTE-DEFINITION-XHTML")
            .attr("IDENTIFIER", &self.identifier)
            .attr("LAST-CHANGE", &self.last_change)
            .attr("LONG-NAME", &self.long_name)
            .child(self.type_ref.to_xml());
        proof {
            lemma_same_element(node@, attribute_definition_xml(self@));
        }
        node
    }
}

impl RequirementSpecObjectTypeAttributes {
    pub fn to_xml(&self) -> (node: XmlNode)
        ensures
            node@ == requirement_attributes_xml(self@),
    {
        let node = XmlNode::element("SPEC-ATTRIBUTES")
            .child(self.text_attribute.to_xml())
            .child(self.id_attribute.to_xml());
        proof {
            lemma_same_element(node@, requirement_attributes_xml(self@));
        }
        node
    }
}

impl SpecObjectTypeRequirement {
    /// The requirement type of the built-in catalogue, over the datatype of `data_types`.
    pub(crate) fn new(data_types: &DataTypes) -> (requirement_type: Self)
        ensures
            requirement_type@ == catalogue_requirement_type(data_types@.identifier),
    {
        SpecObjectTypeRequirement {
            identifier: "SPEC-OBJEC-TYPE-REQ-TYPE-IDENTIFIER".to_string(),
            long_name: "Requirement Type".to_string(),
            last_change: get_default_last_change_date(),
            attributes: RequirementSpecObjectTypeAttributes {
                text_attribute: AttributeDefinitionXHtml::new(
                    "ATTRIBUTE-DEFINITION-XHTML-REQIF.Text-ID",
                    "ReqIF.Text",
                    data_types,
                ),
                id_attribute: AttributeDefinitionXHtml::new(
                    "ATTRIBUTE-DEFINITION-XHTML-PUID-ID",
                    "IE PUID",
                    data_types,
                ),
            },
        }
    }

    pub fn to_xml(&self) -> (node: XmlNode)
        ensures
            node@ == requirement_type_xml(self@),
    {
        let node = XmlNode::element("SPEC-OBJECT-TYPE")
            .attr("IDENTIFIER", &self.identifier)
            .attr("LAST-CHANGE", &self.last_change)
            .attr("LONG-NAME", &self.long_name)
            .child(self.attributes.to_xml());
        proof {
            lemma_same_element(node@, requirement_type_xml(self@));
        }
        node
    }
}

impl SpecificationTypeModuleAttributes {
    pub fn to_xml(&self) -> (node: XmlNode)
        ensures
            node@ == module_attributes_xml(self@),
    {
        XmlNode::element("SPEC-ATTRIBUTES").child(self.reqif_name_attribute.to_xml())
    }
}

impl SpecificationTypeModule {
    pub fn to_xml(&self) -> (node: XmlNode)
        ensures
            node@ == module_type_xml(self@),
    {
        let node = XmlNode::element("SPECIFICATION-TYPE")
            .attr("IDENTIFIER", &self.identifier)
            .attr("LAST-CHANGE", &self.last_change)
            .attr("LONG-NAME", &self.long_name)
            .child(self.attributes.to_xml());
        proof {
            lemma_same_element(node@, module_type_xml(self@));
        }
        node
    }
}

impl SpecTypes {
    /// The types of the built-in catalogue, over the datatype of `data_types`.
    pub(crate) fn new(data_types: &DataTypes) -> (spec_types: Self)
        ensures
            spec_types@ == catalogue_spec_types(data_types@.identifier),
    {
        SpecTypes {
            specification_type_module: SpecificationTypeModule {
                identifier: "MODULE-SPECIFICATION-TYPE-ID".to_string(),
                last_change: get_default_last_change_date(),
                long_name: "Module Type".to_string(),
                attributes: SpecificationTypeModuleAttributes {
                    reqif_name_attribute: AttributeDefinitionXHtml::new(
                        "ATTRIBUTE-DEFINITION-XHTML-REQIF.NAME-ID",
                        "ReqIF.Name",
                        data_types,
                    ),
                },
            },
            spec_object_type_requirement: SpecObjectTypeRequirement::new(data_types),
        }
    }

    pub fn to_xml(&self) -> (node: XmlNode)
        ensures
            node@ == spec_types_xml(self@),
    {
        let node = XmlNode::element("SPEC-TYPES")
            .child(self.spec_object_type_requirement.to_xml())
            .child(self.specification_type_module.to_xml());
        proof {
            lemma_same_element(node@, spec_types_xml(self@));
        }
        node
    }
}

} // verus!
