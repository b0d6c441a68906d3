use crate::xml::{attribute, element, lemma_same_element, text_element, XmlNode, XmlNodeView};
use vstd::prelude::*;

verus! {

/// What a document says of itself: who made it, when, and with which tool.
#[derive(Debug, PartialEq)]
pub struct ReqIfHeader {
    pub identifier: String,
    pub creation_time: String,
    pub repository_id: String,
    pub req_if_tool_id: String,
    pub req_if_version: String,
    pub source_tool_id: String,
    pub title: String,
}

/// The element that holds the header.
#[derive(Debug, PartialEq)]
pub struct TheHeader {
    pub req_if_header: ReqIfHeader,
}

/// The mathematical value of a header.
pub struct ReqIfHeaderView {
    pub identifier: Seq<char>,
    pub creation_time: Seq<char>,
    pub repository_id: Seq<char>,
    pub req_if_tool_id: Seq<char>,
    pub req_if_version: Seq<char>,
    pub source_tool_id: Seq<char>,
    pub title: Seq<char>,
}

impl View for ReqIfHeader {
    type V = ReqIfHeaderView;

    open spec fn view(&self) -> ReqIfHeaderView {
        ReqIfHeaderView {
            identifier: self.identifier@,
            creation_time: self.creation_time@,
            repository_id: self.repository_id@,
            req_if_tool_id: self.req_if_tool_id@,
            req_if_version: self.req_if_version@,
            source_tool_id: self.source_tool_id@,
            title: self.title@,
        }
    }
}

impl View for TheHeader {
    type V = ReqIfHeaderView;

    open spec fn view(&self) -> ReqIfHeaderView {
        self.req_if_header@
    }
}

/// The header as XML: the identifier is an attribute, every other field a child element.
pub open spec fn req_if_header_xml(header: ReqIfHeaderView) -> XmlNodeView {
    element(
        "REQ-IF-HEADER"@,
        seq![attribute("IDENTIFIER"@, header.identifier)],
        seq![
            text_element("CREATION-TIME"@, header.creation_time),
            text_element("REPOSITORY-ID"@, header.repository_id),
            text_element("REQ-IF-TOOL-ID"@, header.req_if_tool_id),
            text_element("REQ-IF-VERSION"@, header.req_if_version),
            text_element("SOURCE-TOOL-ID"@, header.source_tool_id),
            text_element("TITLE"@, header.title),
        ],
    )
}

pub open spec fn the_header_xml(header: ReqIfHeaderView) -> XmlNodeView {
    element("THE-HEADER"@, Seq::empty(), seq![req_if_header_xml(header)])
}

impl ReqIfHeader {
    pub fn to_xml(&self) -> (node: XmlNode)
        ensures
            node@ == req_if_header_xml(self@),
    {
        let node = XmlNode::element("REQ-IF-HEADER")
            .attr("IDENTIFIER", &self.identifier)
            .child(XmlNode::text_element("CREATION-TIME", &self.creation_time))
            .child(XmlNode::text_element("REPOSITORY-ID", &self.repository_id))
            .child(XmlNode::text_element("REQ-IF-TOOL-ID", &self.req_if_tool_id))
            .child(XmlNode::text_element("REQ-IF-VERSION", &self.req_if_version))
            .child(XmlNode::text_element("SOURCE-TOOL-ID", &self.source_tool_id))
            .child(XmlNode::text_element("TITLE", &self.title));
        proof {
            lemma_same_element(node@, req_if_header_xml(self@));
        }
        node
    }
}

impl TheHeader {
    pub fn to_xml(&self) -> (node: XmlNode)
        ensures
            node@ == the_header_xml(self@),
    {
        XmlNode::element("THE-HEADER").child(self.req_if_header.to_xml())
    }
}

} // verus!
