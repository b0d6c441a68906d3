use crate::error::ReqIfError;
use crate::req_if::datatypes::{data_types_xml, xhtml_data_type, DataTypeView, DataTypes};
use crate::req_if::header::{the_header_xml, ReqIfHeader, ReqIfHeaderView, TheHeader};
use crate::req_if::hierarchy::{lemma_refers_within_more, refers_within, Children, HierarchyView};
use crate::req_if::spec_object::{
    refers_to_types, requirements_xml, RequirementView, SpecObjectRequirement, SpecObjects,
};
use crate::req_if::spec_types::{catalogue_spec_types, spec_types_xml, SpecTypes, SpecTypesView};
use crate::req_if::specification::{
    specifications_xml, Specification, SpecificationRef, SpecificationView, Specifications,
};
use crate::xml::{
    accepts_all, attribute, document_bytes, element, lemma_same_element, node_events, XmlNode,
    XmlNodeView,
};
use vstd::prelude::*;

verus! {

/// What a document holds: the catalogue of datatypes and types, the requirements and the
/// specifications.
#[derive(Debug, PartialEq)]
pub struct ReqIfContent {
    pub data_types: DataTypes,
    pub spec_types: SpecTypes,
    pub spec_object: SpecObjects,
    pub specifications: Specifications,
}

/// The element that holds the content.
#[derive(Debug, PartialEq)]
pub struct CoreContent {
    pub req_if_content: ReqIfContent,
}

/// A requirements-interchange document.
#[derive(Debug, PartialEq)]
pub struct ReqIf {
    pub xmlns: String,
    pub xmlns_xhtml: String,
    pub the_header: TheHeader,
    pub core_content: CoreContent,
}

/// The mathematical value of a document's content.
pub struct ContentView {
    pub data_types: DataTypeView,
    pub spec_types: SpecTypesView,
    pub requirements: Seq<RequirementView>,
    pub specifications: Seq<SpecificationView>,
}

/// The mathematical value of a document.
pub struct ReqIfView {
    pub xmlns: Seq<char>,
    pub xmlns_xhtml: Seq<char>,
    pub header: ReqIfHeaderView,
    pub content: ContentView,
}

impl View for ReqIfContent {
    type V = ContentView;

    open spec fn view(&self) -> ContentView {
        ContentView {
            data_types: self.data_types@,
            spec_types: self.spec_types@,
            requirements: self.spec_object@,
            specifications: self.specifications@,
        }
    }
}

impl View for CoreContent {
    type V = ContentView;

    open spec fn view(&self) -> ContentView {
        self.req_if_content@
    }
}

impl View for ReqIf {
    type V = ReqIfView;

    open spec fn view(&self) -> ReqIfView {
        ReqIfView {
            xmlns: self.xmlns@,
            xmlns_xhtml: self.xmlns_xhtml@,
            header: self.the_header@,
            content: self.core_content@,
        }
    }
}

/// The namespace of the interchange format.
pub open spec fn req_if_namespace() -> Seq<char> {
    "http://www.omg.org/spec/ReqIF/20110401/reqif.xsd"@
}

/// The namespace of the markup that attribute values are written in.
pub open spec fn xhtml_namespace() -> Seq<char> {
    "http://www.w3.org/1999/xhtml"@
}

/// The version of the interchange format that a document declares.
pub open spec fn req_if_version() -> Seq<char> {
    "1.0"@
}

/// The content of a new document: the built-in catalogue, no requirement, no specification.
pub open spec fn empty_content() -> ContentView {
    ContentView {
        data_types: xhtml_data_type(),
        spec_types: catalogue_spec_types(xhtml_data_type().identifier),
        requirements: Seq::empty(),
        specifications: Seq::empty(),
    }
}

/// The new document with the given header fields.
pub open spec fn new_document(
    identifier: Seq<char>,
    creation_time: Seq<char>,
    repository_id: Seq<char>,
    req_if_tool_id: Seq<char>,
    source_tool_id: Seq<char>,
    title: Seq<char>,
) -> ReqIfView {
    ReqIfView {
        xmlns: req_if_namespace(),
        xmlns_xhtml: xhtml_namespace(),
        header: ReqIfHeaderView {
            identifier,
            creation_time,
            repository_id,
            req_if_tool_id,
            req_if_version: req_if_version(),
            source_tool_id,
            title,
        },
        content: empty_content(),
    }
}

/// The specification that a document with the types `spec_types` builds from the given
/// identifier, date and name: of the specification type, with an outline without nodes.
pub open spec fn module_specification(
    identifier: Seq<char>,
    last_change: Seq<char>,
    long_name: Seq<char>,
    spec_types: SpecTypesView,
) -> SpecificationView {
    SpecificationView {
        identifier,
        last_change,
        long_name,
        type_ref: spec_types.module_type.identifier,
        children: Seq::empty(),
    }
}

/// The identifiers of the requirements `requirements`.
pub open spec fn identifiers_of(requirements: Seq<RequirementView>) -> Set<Seq<char>> {
    Set::new(
        |identifier: Seq<char>|
            exists|i: int|
                0 <= i < requirements.len() && (#[trigger] requirements[i]).identifier
                    == identifier,
    )
}

/// Whether every reference in `content` leads somewhere: the attributes of the two types
/// are of the datatype, every requirement refers to the types, every specification is of the
/// specification type, and every node of every outline refers to a requirement.
///
/// The functions that build a document neither ask for this nor test it. A caller who adds
/// only requirements and specifications made with the document's own types, and nodes that
/// refer to requirements added before, has it: see the laws below.
pub open spec fn references_hold(content: ContentView) -> bool {
    let data_type = content.data_types.identifier;
    let types = content.spec_types;
    &&& types.requirement_type.attributes.text_attribute.type_ref == data_type
    &&& types.requirement_type.attributes.id_attribute.type_ref == data_type
    &&& types.module_type.name_attribute.type_ref == data_type
    &&& forall|i: int|
        0 <= i < content.requirements.len() ==> refers_to_types(
            #[trigger] content.requirements[i],
            types,
        )
    &&& forall|i: int|
        0 <= i < content.specifications.len() ==> {
            &&& (#[trigger] content.specifications[i]).type_ref == types.module_type.identifier
            &&& refers_within(
                content.specifications[i].children,
                identifiers_of(content.requirements),
            )
        }
}

/// The content as XML: the datatypes, the types, the requirements, the specifications.
pub open spec fn content_xml(content: ContentView) -> XmlNodeView {
    element(
        "REQ-IF-CONTENT"@,
        Seq::empty(),
        seq![
            data_types_xml(content.data_types),
            spec_types_xml(content.spec_types),
            requirements_xml(content.requirements),
            specifications_xml(content.specifications),
        ],
    )
}

pub open spec fn core_content_xml(content: ContentView) -> XmlNodeView {
    element("CORE-CONTENT"@, Seq::empty(), seq![content_xml(content)])
}

/// The document as XML: the root declares the two namespaces as attributes and holds the
/// header, then the content.
pub open spec fn document_xml(document: ReqIfView) -> XmlNodeView {
    element(
        "REQ-IF"@,
        seq![
            attribute("xmlns"@, document.xmlns),
            attribute("xmlns:xhtml"@, document.xmlns_xhtml),
        ],
        seq![the_header_xml(document.header), core_content_xml(document.content)],
    )
}

/// Whether `bytes` are the document `document` on the wire, indented or not: the bytes that
/// the XML writer makes of the events of the document's tree.
pub open spec fn is_serialization(document: ReqIfView, indent: bool, bytes: Seq<u8>) -> bool {
    bytes == document_bytes(indent, node_events(document_xml(document)))
}

impl ReqIfContent {
    pub fn to_xml(&self) -> (node: XmlNode)
        ensures
            node@ == content_xml(self@),
    {
        let node = XmlNode::element("REQ-IF-CONTENT")
            .child(self.data_types.to_xml())
            .child(self.spec_types.to_xml())
            .child(self.spec_object.to_xml())
            .child(self.specifications.to_xml());
        proof {
            lemma_same_element(node@, content_xml(self@));
        }
        node
    }
}

impl CoreContent {
    /// The content of a new document: the built-in catalogue and nothing else.
    pub fn new() -> (content: Self)
        ensures
            content@ == empty_content(),
    {
        let data_types = DataTypes::new();
        let spec_types = SpecTypes::new(&data_types);
        let content = CoreContent {
            req_if_content: ReqIfContent {
                spec_object: SpecObjects { requirements: Vec::new() },
                specifications: Specifications { specifications: Vec::new() },
                spec_types,
                data_types,
            },
        };
        assert(content@.requirements =~= Seq::empty());
        assert(content@.specifications =~= Seq::empty());
        content
    }

    pub fn to_xml(&self) -> (node: XmlNode)
        ensures
            node@ == core_content_xml(self@),
    {
        XmlNode::element("CORE-CONTENT").child(self.req_if_content.to_xml())
    }
}

impl ReqIf {
    /// A new document with the given header fields, the built-in catalogue, and neither
    /// requirements nor specifications. `creation_time` is a date and time as text.
    pub fn new(
        identifier: String,
        creation_time: String,
        repository_id: String,
        req_if_tool_id: String,
        source_tool_id: String,
        title: String,
    ) -> (document: Self)
        ensures
            document@ == new_document(
                identifier@,
                creation_time@,
                repository_id@,
                req_if_tool_id@,
                source_tool_id@,
                title@,
            ),
    {
        let req_if_header = ReqIfHeader {
            identifier,
            creation_time,
            repository_id,
            req_if_tool_id,
            req_if_version: "1.0".to_string(),
            source_tool_id,
            title,
        };
        ReqIf {
            the_header: TheHeader { req_if_header },
            xmlns: "http://www.omg.org/spec/ReqIF/20110401/reqif.xsd".to_string(),
            xmlns_xhtml: "http://www.w3.org/1999/xhtml".to_string(),
            core_content: CoreContent::new(),
        }
    }

    /// Adds `requirement` after the requirements that the document holds.
    pub fn add_requirement(&mut self, requirement: SpecObjectRequirement)
        ensures
            final(self)@ == (ReqIfView {
                content: ContentView {
                    requirements: old(self)@.content.requirements.push(requirement@),
                    ..old(self)@.content
                },
                ..old(self)@
            }),
    {
        self.core_content.req_if_content.spec_object.requirements.push(requirement);
        assert(self@.content.requirements =~= old(self)@.content.requirements.push(requirement@));
    }

    /// A specification of this document's specification type, with an outline without nodes.
    /// The document stays as it is.
    pub fn build_module_specification(
        &mut self,
        identifier: String,
        last_change: String,
        long_name: String,
    ) -> (specification: Specification)
        ensures
            *final(self) == *old(self),
            specification@ == module_specification(
                identifier@,
                last_change@,
                long_name@,
                old(self)@.content.spec_types,
            ),
    {
        Specification {
            identifier,
            last_change,
            long_name,
            type_ref: SpecificationRef { spec_ref: self.get_module_specification_type().clone() },
            children: Children::new(),
        }
    }

    /// Adds `specification` after the specifications that the document holds.
    pub fn add_specification(&mut self, specification: Specification)
        ensures
            final(self)@ == (ReqIfView {
                content: ContentView {
                    specifications: old(self)@.content.specifications.push(specification@),
                    ..old(self)@.content
                },
                ..old(self)@
            }),
    {
        self.core_content.req_if_content.specifications.specifications.push(specification);
        assert(self@.content.specifications =~= old(self)@.content.specifications.push(
            specification@,
        ));
    }

    /// The identifier of the type that every specification of this document has.
    pub fn get_module_specification_type(&self) -> (identifier: &String)
        ensures
            identifier@ == self@.content.spec_types.module_type.identifier,
    {
        &self.core_content.req_if_content.spec_types.specification_type_module.identifier
    }

    /// The tree that stands for this document on the wire.
    pub fn to_xml(&self) -> (node: XmlNode)
        ensures
            node@ == document_xml(self@),
    {
        let node = XmlNode::element("REQ-IF")
            .attr("xmlns", &self.xmlns)
            .attr("xmlns:xhtml", &self.xmlns_xhtml)
            .child(self.the_header.to_xml())
            .child(self.core_content.to_xml());
        proof {
            lemma_same_element(node@, document_xml(self@));
        }
        node
    }

    /// The document on the wire: an XML document with a declaration first, indented if
    /// `indent` is set. Fails exactly where the XML writer, newly opened, refuses one of the
    /// events of the document's tree.
    pub fn serialize(&self, indent: bool) -> (res: Result<Vec<u8>, ReqIfError>)
        ensures
            res is Ok <==> accepts_all(
                indent,
                Seq::empty(),
                node_events(document_xml(self@)),
            ),
            match res {
                Ok(bytes) => is_serialization(self@, indent, bytes@),
                Err(e) => e is SerializationFailure,
            },
    {
        self.to_xml().to_bytes(indent)
    }
}

/// Whatever the XML writer makes of a document, it makes the same of it every time: two
/// serializations of one document with one setting of the indentation are the same bytes.
pub proof fn lemma_serialization_is_deterministic(
    document: ReqIfView,
    indent: bool,
    first: Seq<u8>,
    second: Seq<u8>,
)
    requires
        is_serialization(document, indent, first),
        is_serialization(document, indent, second),
    ensures
        first == second,
{
}

/// In a new document every reference leads somewhere.
pub proof fn lemma_new_document_references_hold()
    ensures
        references_hold(empty_content()),
{
}

/// A requirement that refers to a document's types can be added to it without breaking a
/// reference: the nodes that referred to a requirement before still do.
pub proof fn lemma_add_requirement_keeps_references(
    content: ContentView,
    requirement: RequirementView,
)
    requires
        references_hold(content),
        refers_to_types(requirement, content.spec_types),
    ensures
        references_hold(
            ContentView { requirements: content.requirements.push(requirement), ..content },
        ),
{
    let after = ContentView { requirements: content.requirements.push(requirement), ..content };
    assert forall|i: int| 0 <= i < after.requirements.len() implies refers_to_types(
        #[trigger] after.requirements[i],
        after.spec_types,
    ) by {
        if i < content.requirements.len() {
            assert(after.requirements[i] == content.requirements[i]);
        }
    }
    assert forall|identifier: Seq<char>|
        identifiers_of(content.requirements).contains(identifier) implies identifiers_of(
        after.requirements,
    ).contains(identifier) by {
        let i = choose|i: int|
            0 <= i < content.requirements.len() && (#[trigger] content.requirements[i]).identifier
                == identifier;
        assert(after.requirements[i].identifier == identifier);
    }
    assert forall|i: int| 0 <= i < after.specifications.len() implies refers_within(
        (#[trigger] after.specifications[i]).children,
        identifiers_of(after.requirements),
    ) by {
        lemma_refers_within_more(
            content.specifications[i].children,
            identifiers_of(content.requirements),
            identifiers_of(after.requirements),
        );
    }
}

/// A specification of a document's specification type, whose nodes refer to requirements of
/// the document, can be added to it without breaking a reference.
pub proof fn lemma_add_specification_keeps_references(
    content: ContentView,
    specification: SpecificationView,
)
    requires
        references_hold(content),
        specification.type_ref == content.spec_types.module_type.identifier,
        refers_within(specification.children, identifiers_of(content.requirements)),
    ensures
        references_hold(
            ContentView { specifications: content.specifications.push(specification), ..content },
        ),
{
    let after = ContentView {
        specifications: content.specifications.push(specification),
        ..content
    };
    assert forall|i: int| 0 <= i < after.specifications.len() implies {
        &&& (#[trigger] after.specifications[i]).type_ref
            == after.spec_types.module_type.identifier
        &&& refers_within(after.specifications[i].children, identifiers_of(after.requirements))
    } by {
        if i < content.specifications.len() {
            assert(after.specifications[i] == content.specifications[i]);
        }
    }
}

} // verus!
