use crate::xml::{attribute, element, lemma_same_element, XmlNode, XmlNodeView};
use vstd::prelude::*;

verus! {

/// The last-change date that every entry of the built-in catalogue carries.
pub open spec fn default_last_change_date() -> Seq<char> {
    "2017-11-14T15:44:26.000+02:00"@
}

/// The last-change date of the built-in catalogue, as text.
pub fn get_default_last_change_date() -> (date: String)
    ensures
        date@ == default_last_change_date(),
{
    "2017-11-14T15:44:26.000+02:00".to_string()
}

/// The definition of one kind of value that an attribute can hold.
#[derive(Debug, PartialEq)]
pub struct DataType {
    pub(crate) identifier: String,
    pub(crate) last_change: String,
    pub(crate) long_name: String,
}

/// The datatypes of a document: the one for long text, and no other.
#[derive(Debug, PartialEq)]
pub struct DataTypes {
    pub(crate) xhtml_definition: DataType,
}

/// The mathematical value of a datatype definition.
pub struct DataTypeView {
    pub identifier: Seq<char>,
    pub last_change: Seq<char>,
    pub long_name: Seq<char>,
}

impl View for DataType {
    type V = DataTypeView;

    open(crate) spec fn view(&self) -> DataTypeView {
        DataTypeView {
            identifier: self.identifier@,
            last_change: self.last_change@,
            long_name: self.long_name@,
        }
    }
}

impl View for DataTypes {
    type V = DataTypeView;

    open(crate) spec fn view(&self) -> DataTypeView {
        self.xhtml_definition@
    }
}

/// The long-text datatype of the built-in catalogue.
pub open spec fn xhtml_data_type() -> DataTypeView {
    DataTypeView {
        identifier: "DATATYPE-DEFINITION-XHTML-IDENTIFIER"@,
        last_change: default_last_change_date(),
        long_name: "XHTMLString"@,
    }
}

pub open spec fn data_type_xml(data_type: DataTypeView) -> XmlNodeView {
    element(
        "DATATYPE-DEFINITION-STRING"@,
        seq![
            attribute("IDENTIFIER"@, data_type.identifier),
            attribute("LAST-CHANGE"@, data_type.last_change),
            attribute("LONG-NAME"@, data_type.long_name),
        ],
        Seq::empty(),
    )
}

pub open spec fn data_types_xml(data_type: DataTypeView) -> XmlNodeView {
    element("DATATYPES"@, Seq::empty(), seq![data_type_xml(data_type)])
}

impl DataType {
    pub fn to_xml(&self) -> (node: XmlNode)
        ensures
            node@ == data_type_xml(self@),
    {
        let node = XmlNode::element("DATATYPE-DEFINITION-STRING")
            .attr("IDENTIFIER", &self.identifier)
            .attr("LAST-CHANGE", &self.last_change)
            .attr("LONG-NAME", &self.long_name);
        proof {
            lemma_same_element(node@, data_type_xml(self@));
        }
        node
    }
}

impl DataTypes {
    /// The datatypes of the built-in catalogue.
    pub fn new() -> (data_types: Self)
        ensures
            data_types@ == xhtml_data_type(),
    {
        DataTypes {
            xhtml_definition: DataType {
                identifier: "DATATYPE-DEFINITION-XHTML-IDENTIFIER".to_string(),
                last_change: get_default_last_change_date(),
                long_name: "XHTMLString".to_string(),
            },
        }
    }

    pub fn to_xml(&self) -> (node: XmlNode)
        ensures
            node@ == data_types_xml(self@),
    {
        XmlNode::element("DATATYPES").child(self.xhtml_definition.to_xml())
    }
}

} // verus!
