use chrono::{DateTime, Local, SecondsFormat};
use reqif_rs::error::ReqIfError;
use reqif_rs::req_if::{Object, ReqIf, SpecHierarchy, SpecObjectRequirement};
use reqif_rs::xml::{XmlAttribute, XmlNode};

const NOW: &str = "2024-03-01T10:20:30.456+01:00";

fn document(identifier: &str, title: &str) -> ReqIf {
    ReqIf::new(
        identifier.to_string(),
        NOW.to_string(),
        "repo".to_string(),
        "tool".to_string(),
        "source".to_string(),
        title.to_string(),
    )
}

fn text(document: &ReqIf, indent: bool) -> String {
    String::from_utf8(document.serialize(indent).expect("serialization failed")).unwrap()
}

fn child<'a>(node: &'a XmlNode, name: &str) -> &'a XmlNode {
    match node {
        XmlNode::Element { children, .. } => children
            .iter()
            .find(|c| matches!(c, XmlNode::Element { name: n, .. } if n == name))
            .unwrap(),
        XmlNode::Text { .. } => panic!("text has no children"),
    }
}

fn children_named<'a>(node: &'a XmlNode, name: &str) -> Vec<&'a XmlNode> {
    match node {
        XmlNode::Element { children, .. } => children
            .iter()
            .filter(|c| matches!(c, XmlNode::Element { name: n, .. } if n == name))
            .collect(),
        XmlNode::Text { .. } => panic!("text has no children"),
    }
}

fn attr<'a>(node: &'a XmlNode, name: &str) -> &'a str {
    match node {
        XmlNode::Element { attributes, .. } => {
            attributes.iter().find(|a| a.name == name).unwrap().value.as_str()
        }
        XmlNode::Text { .. } => panic!("text has no attributes"),
    }
}

fn only_text(node: &XmlNode) -> &str {
    match node {
        XmlNode::Element { children, .. } => match children.as_slice() {
            [XmlNode::Text { content }] => content.as_str(),
            _ => panic!("not a text element"),
        },
        XmlNode::Text { .. } => panic!("not an element"),
    }
}

#[test]
fn test_serialize() {
    let local: DateTime<Local> = Local::now();
    let identifier = "1234567890".to_string();
    let repository_id = "123456789io0pxazsxdbghnjmk".to_string();
    let req_if_tool_id = "Doorstop".to_string();
    let source_tool_id = "Doorstop".to_string();
    let title = "Requirements examples".to_string();

    let mut reqif = ReqIf::new(
        identifier,
        local.to_rfc3339_opts(SecondsFormat::Millis, false),
        repository_id,
        req_if_tool_id,
        source_tool_id,
        title,
    );

    let local: DateTime<Local> = Local::now();

    let now = local.to_rfc3339_opts(SecondsFormat::Millis, false);

    reqif.add_requirement(SpecObjectRequirement::new(
        "REQS-1".to_string(),
        now.clone(),
        "Titulo del requerimiento 1".to_string(),
        "Texto del requerimiento 1.".to_string(),
        &reqif.core_content.req_if_content.spec_types,
    ));

    reqif.add_requirement(SpecObjectRequirement::new(
        "REQS-2".to_string(),
        now.clone(),
        "Titulo del requerimiento 2".to_string(),
        "Texto del requerimiento 2.".to_string(),
        &reqif.core_content.req_if_content.spec_types,
    ));

    let mut specification = reqif.build_module_specification(
        "REQS".to_string(),
        now.to_string(),
        "Project User Requirements".to_string(),
    );

    specification
        .children
        .add_spec_hierarchy(
            SpecHierarchy {
                identifier: "h1".to_string(),
                last_change: now.clone(),
                object: Object {
                    object_ref: "REQS-1".to_string(),
                },
                children: None,
            },
            0,
        )
        .expect("Unexpected error adding children");

    specification
        .children
        .add_spec_hierarchy(
            SpecHierarchy {
                identifier: "h2".to_string(),
                last_change: now.clone(),
                object: Object {
                    object_ref: "REQS-2".to_string(),
                },
                children: None,
            },
            1,
        )
        .expect("Unexpected error adding children");

    reqif.add_specification(specification);
    let xml = String::from_utf8(reqif.serialize(true).unwrap()).unwrap();
    assert!(xml.starts_with("<?xml version=\"1.0\" encoding=\"UTF-8\"?>\n<REQ-IF "));
    assert!(xml.ends_with("</REQ-IF>"));
    assert!(xml.contains("<REQ-IF-HEADER IDENTIFIER=\"1234567890\">"));
    assert!(xml.contains("<REPOSITORY-ID>123456789io0pxazsxdbghnjmk</REPOSITORY-ID>"));
    assert!(xml.contains("<REQ-IF-TOOL-ID>Doorstop</REQ-IF-TOOL-ID>"));
    assert!(xml.contains("<TITLE>Requirements examples</TITLE>"));
    assert!(xml.contains("LONG-NAME=\"Titulo del requerimiento 1\""));
    assert!(xml.contains("<xhtml:div>Texto del requerimiento 2.</xhtml:div>"));
    assert!(xml.contains("LONG-NAME=\"Project User Requirements\""));
    assert!(xml.contains(format!("<CREATION-TIME>{}</CREATION-TIME>", reqif.the_header.req_if_header.creation_time).as_str()));
    let h1 = xml.find("<SPEC-HIERARCHY IDENTIFIER=\"h1\"").unwrap();
    let h2 = xml.find("<SPEC-HIERARCHY IDENTIFIER=\"h2\"").unwrap();
    let h1_end = xml.rfind("</SPEC-HIERARCHY>").unwrap();
    assert!(h1 < h2 && h2 < h1_end);
}

#[test]
fn new_document_without_indentation_is_exactly_this() {
    let expected = [
        "<?xml version=\"1.0\" encoding=\"UTF-8\"?>",
        "<REQ-IF xmlns=\"http://www.omg.org/spec/ReqIF/20110401/reqif.xsd\" ",
        "xmlns:xhtml=\"http://www.w3.org/1999/xhtml\">",
        "<THE-HEADER><REQ-IF-HEADER IDENTIFIER=\"DOC-1\">",
        "<CREATION-TIME>2024-03-01T10:20:30.456+01:00</CREATION-TIME>",
        "<REPOSITORY-ID>repo</REPOSITORY-ID>",
        "<REQ-IF-TOOL-ID>tool</REQ-IF-TOOL-ID>",
        "<REQ-IF-VERSION>1.0</REQ-IF-VERSION>",
        "<SOURCE-TOOL-ID>source</SOURCE-TOOL-ID>",
        "<TITLE>T</TITLE>",
        "</REQ-IF-HEADER></THE-HEADER>",
        "<CORE-CONTENT><REQ-IF-CONTENT>",
        "<DATATYPES><DATATYPE-DEFINITION-STRING ",
        "IDENTIFIER=\"DATATYPE-DEFINITION-XHTML-IDENTIFIER\" ",
        "LAST-CHANGE=\"2017-11-14T15:44:26.000+02:00\" LONG-NAME=\"XHTMLString\" />",
        "</DATATYPES>",
        "<SPEC-TYPES>",
        "<SPEC-OBJECT-TYPE IDENTIFIER=\"SPEC-OBJEC-TYPE-REQ-TYPE-IDENTIFIER\" ",
        "LAST-CHANGE=\"2017-11-14T15:44:26.000+02:00\" LONG-NAME=\"Requirement Type\">",
        "<SPEC-ATTRIBUTES>",
        "<ATTRIBUTE-DEFINITION-XHTML IDENTIFIER=\"ATTRIBUTE-DEFINITION-XHTML-REQIF.Text-ID\" ",
        "LAST-CHANGE=\"2017-11-14T15:44:26.000+02:00\" LONG-NAME=\"ReqIF.Text\">",
        "<TYPE><DATATYPE-DEFINITION-XHTML-REF>DATATYPE-DEFINITION-XHTML-IDENTIFIER",
        "</DATATYPE-DEFINITION-XHTML-REF></TYPE>",
        "</ATTRIBUTE-DEFINITION-XHTML>",
        "<ATTRIBUTE-DEFINITION-XHTML IDENTIFIER=\"ATTRIBUTE-DEFINITION-XHTML-PUID-ID\" ",
        "LAST-CHANGE=\"2017-11-14T15:44:26.000+02:00\" LONG-NAME=\"IE PUID\">",
        "<TYPE><DATATYPE-DEFINITION-XHTML-REF>DATATYPE-DEFINITION-XHTML-IDENTIFIER",
        "</DATATYPE-DEFINITION-XHTML-REF></TYPE>",
        "</ATTRIBUTE-DEFINITION-XHTML>",
        "</SPEC-ATTRIBUTES></SPEC-OBJECT-TYPE>",
        "<SPECIFICATION-TYPE IDENTIFIER=\"MODULE-SPECIFICATION-TYPE-ID\" ",
        "LAST-CHANGE=\"2017-11-14T15:44:26.000+02:00\" LONG-NAME=\"Module Type\">",
        "<SPEC-ATTRIBUTES>",
        "<ATTRIBUTE-DEFINITION-XHTML IDENTIFIER=\"ATTRIBUTE-DEFINITION-XHTML-REQIF.NAME-ID\" ",
        "LAST-CHANGE=\"2017-11-14T15:44:26.000+02:00\" LONG-NAME=\"ReqIF.Name\">",
        "<TYPE><DATATYPE-DEFINITION-XHTML-REF>DATATYPE-DEFINITION-XHTML-IDENTIFIER",
        "</DATATYPE-DEFINITION-XHTML-REF></TYPE>",
        "</ATTRIBUTE-DEFINITION-XHTML>",
        "</SPEC-ATTRIBUTES></SPECIFICATION-TYPE>",
        "</SPEC-TYPES>",
        "<SPEC-OBJECTS /><SPECIFICATIONS />",
        "</REQ-IF-CONTENT></CORE-CONTENT>",
        "</REQ-IF>",
    ].concat();
    assert_eq!(text(&document("DOC-1", "T"), false), expected);
}

#[test]
fn requirement_and_hierarchy_with_indentation_are_exactly_this() {
    let mut doc = document("DOC-1", "T");
    doc.add_requirement(SpecObjectRequirement::new(
        "R-1".to_string(),
        NOW.to_string(),
        "Name".to_string(),
        "Body".to_string(),
        &doc.core_content.req_if_content.spec_types,
    ));
    let mut spec = doc.build_module_specification("S".to_string(), NOW.to_string(), "Spec".to_string());
    spec.children
        .add_spec_hierarchy(
            SpecHierarchy::new("h1".to_string(), NOW.to_string(), Object::new("R-1".to_string())),
            0,
        )
        .unwrap();
    spec.children
        .add_spec_hierarchy(
            SpecHierarchy::new("h2".to_string(), NOW.to_string(), Object::new("R-1".to_string())),
            1,
        )
        .unwrap();
    doc.add_specification(spec);
    let xml = text(&doc, true);
    let objects = [
        "      <SPEC-OBJECTS>\n",
        "        <SPEC-OBJECT IDENTIFIER=\"R-1\" LAST-CHANGE=\"2024-03-01T10:20:30.456+01:00\" LONG-NAME=\"Name\">\n",
        "          <TYPE>\n",
        "            <SPEC-OBJECT-TYPE-REF>SPEC-OBJEC-TYPE-REQ-TYPE-IDENTIFIER</SPEC-OBJECT-TYPE-REF>\n",
        "          </TYPE>\n",
        "          <VALUES>\n",
        "            <ATTRIBUTE-VALUE-XHTML>\n",
        "              <THE-VALUE>\n",
        "                <xhtml:div>R-1</xhtml:div>\n",
        "              </THE-VALUE>\n",
        "              <DEFINITION>\n",
        "                <ATTRIBUTE-DEFINITION-XHTML-REF>ATTRIBUTE-DEFINITION-XHTML-PUID-ID</ATTRIBUTE-DEFINITION-XHTML-REF>\n",
        "              </DEFINITION>\n",
        "            </ATTRIBUTE-VALUE-XHTML>\n",
        "            <ATTRIBUTE-VALUE-XHTML>\n",
        "              <THE-VALUE>\n",
        "                <xhtml:div>Body</xhtml:div>\n",
        "              </THE-VALUE>\n",
        "              <DEFINITION>\n",
        "                <ATTRIBUTE-DEFINITION-XHTML-REF>ATTRIBUTE-DEFINITION-XHTML-REQIF.Text-ID</ATTRIBUTE-DEFINITION-XHTML-REF>\n",
        "              </DEFINITION>\n",
        "            </ATTRIBUTE-VALUE-XHTML>\n",
        "          </VALUES>\n",
        "        </SPEC-OBJECT>\n",
        "      </SPEC-OBJECTS>\n",
    ].concat();
    let specifications = [
        "      <SPECIFICATIONS>\n",
        "        <SPECIFICATION IDENTIFIER=\"S\" LAST-CHANGE=\"2024-03-01T10:20:30.456+01:00\" LONG-NAME=\"Spec\">\n",
        "          <TYPE>\n",
        "            <SPECIFICATION-TYPE-REF>MODULE-SPECIFICATION-TYPE-ID</SPECIFICATION-TYPE-REF>\n",
        "          </TYPE>\n",
        "          <CHILDREN>\n",
        "            <SPEC-HIERARCHY IDENTIFIER=\"h1\" LAST-CHANGE=\"2024-03-01T10:20:30.456+01:00\">\n",
        "              <OBJECT>\n",
        "                <SPEC-OBJECT-REF>R-1</SPEC-OBJECT-REF>\n",
        "              </OBJECT>\n",
        "              <CHILDREN>\n",
        "                <SPEC-HIERARCHY IDENTIFIER=\"h2\" LAST-CHANGE=\"2024-03-01T10:20:30.456+01:00\">\n",
        "                  <OBJECT>\n",
        "                    <SPEC-OBJECT-REF>R-1</SPEC-OBJECT-REF>\n",
        "                  </OBJECT>\n",
        "                </SPEC-HIERARCHY>\n",
        "              </CHILDREN>\n",
        "            </SPEC-HIERARCHY>\n",
        "          </CHILDREN>\n",
        "        </SPECIFICATION>\n",
        "      </SPECIFICATIONS>\n",
        "    </REQ-IF-CONTENT>\n",
        "  </CORE-CONTENT>\n",
        "</REQ-IF>",
    ].concat();
    assert!(xml.contains(objects.as_str()), "{}", xml);
    assert!(xml.ends_with(specifications.as_str()), "{}", xml);
    assert!(xml.starts_with([
        "<?xml version=\"1.0\" encoding=\"UTF-8\"?>\n",
        "<REQ-IF xmlns=\"http://www.omg.org/spec/ReqIF/20110401/reqif.xsd\" ",
        "xmlns:xhtml=\"http://www.w3.org/1999/xhtml\">\n",
        "  <THE-HEADER>\n",
        "    <REQ-IF-HEADER IDENTIFIER=\"DOC-1\">\n",
        "      <CREATION-TIME>2024-03-01T10:20:30.456+01:00</CREATION-TIME>\n",
    ].concat().as_str()));
}

#[test]
fn document_with_one_requirement_and_one_node_refers_to_it() {
    let mut doc = document("DOC-1", "T");
    doc.add_requirement(SpecObjectRequirement::new(
        "R-1".to_string(),
        NOW.to_string(),
        "Name".to_string(),
        "Body".to_string(),
        &doc.core_content.req_if_content.spec_types,
    ));
    let mut spec = doc.build_module_specification("S".to_string(), NOW.to_string(), "Spec".to_string());
    spec.children
        .add_spec_hierarchy(
            SpecHierarchy::new("h1".to_string(), NOW.to_string(), Object::new("R-1".to_string())),
            0,
        )
        .unwrap();
    doc.add_specification(spec);

    let root = doc.to_xml();
    assert!(matches!(&root, XmlNode::Element { name, .. } if name == "REQ-IF"));
    assert_eq!(attr(&root, "xmlns"), "http://www.omg.org/spec/ReqIF/20110401/reqif.xsd");
    assert_eq!(attr(&root, "xmlns:xhtml"), "http://www.w3.org/1999/xhtml");
    let header = child(child(&root, "THE-HEADER"), "REQ-IF-HEADER");
    assert_eq!(attr(header, "IDENTIFIER"), "DOC-1");
    assert_eq!(only_text(child(header, "TITLE")), "T");
    let content = child(child(&root, "CORE-CONTENT"), "REQ-IF-CONTENT");
    let requirements = children_named(child(content, "SPEC-OBJECTS"), "SPEC-OBJECT");
    assert_eq!(requirements.len(), 1);
    assert_eq!(attr(requirements[0], "IDENTIFIER"), "R-1");
    let values = children_named(child(requirements[0], "VALUES"), "ATTRIBUTE-VALUE-XHTML");
    assert_eq!(values.len(), 2);
    assert_eq!(only_text(child(child(values[0], "THE-VALUE"), "xhtml:div")), "R-1");
    assert_eq!(only_text(child(child(values[1], "THE-VALUE"), "xhtml:div")), "Body");
    let specification = child(child(content, "SPECIFICATIONS"), "SPECIFICATION");
    let nodes = children_named(child(specification, "CHILDREN"), "SPEC-HIERARCHY");
    assert_eq!(nodes.len(), 1);
    assert_eq!(only_text(child(child(nodes[0], "OBJECT"), "SPEC-OBJECT-REF")), "R-1");

    let xml = text(&doc, false);
    assert!(xml.contains([
        "<REQ-IF xmlns=\"http://www.omg.org/spec/ReqIF/20110401/reqif.xsd\" ",
        "xmlns:xhtml=\"http://www.w3.org/1999/xhtml\">"
    ].concat().as_str()));
    assert!(xml.contains("<SPEC-OBJECT IDENTIFIER=\"R-1\" "));
    assert!(xml.contains("<OBJECT><SPEC-OBJECT-REF>R-1</SPEC-OBJECT-REF></OBJECT>"));
}

#[test]
fn two_requirements_and_two_top_nodes_keep_their_order() {
    let mut doc = document("DOC", "Title");
    for (identifier, body) in [("REQS-1", "one"), ("REQS-2", "two")] {
        doc.add_requirement(SpecObjectRequirement::new(
            identifier.to_string(),
            NOW.to_string(),
            identifier.to_string(),
            body.to_string(),
            &doc.core_content.req_if_content.spec_types,
        ));
    }
    let mut spec =
        doc.build_module_specification("REQS".to_string(), NOW.to_string(), "All".to_string());
    for identifier in ["REQS-1", "REQS-2"] {
        spec.children
            .add_spec_hierarchy(
                SpecHierarchy::new(
                    format!("h-{}", identifier),
                    NOW.to_string(),
                    Object::new(identifier.to_string()),
                ),
                0,
            )
            .unwrap();
    }
    doc.add_specification(spec);

    let root = doc.to_xml();
    let content = child(child(&root, "CORE-CONTENT"), "REQ-IF-CONTENT");
    let requirements = children_named(child(content, "SPEC-OBJECTS"), "SPEC-OBJECT");
    let found: Vec<&str> = requirements.iter().map(|r| attr(r, "IDENTIFIER")).collect();
    assert_eq!(found, vec!["REQS-1", "REQS-2"]);
    let specification = child(child(content, "SPECIFICATIONS"), "SPECIFICATION");
    assert_eq!(attr(specification, "IDENTIFIER"), "REQS");
    let nodes = children_named(child(specification, "CHILDREN"), "SPEC-HIERARCHY");
    let refs: Vec<&str> =
        nodes.iter().map(|n| only_text(child(child(n, "OBJECT"), "SPEC-OBJECT-REF"))).collect();
    assert_eq!(refs, vec!["REQS-1", "REQS-2"]);

    let xml = text(&doc, false);
    let first = xml.find("<SPEC-OBJECT IDENTIFIER=\"REQS-1\"").unwrap();
    let second = xml.find("<SPEC-OBJECT IDENTIFIER=\"REQS-2\"").unwrap();
    assert!(first < second);
    assert_eq!(xml.matches("<SPEC-OBJECT ").count(), 2);
    let h1 = xml.find("<SPEC-HIERARCHY IDENTIFIER=\"h-REQS-1\"").unwrap();
    let h2 = xml.find("<SPEC-HIERARCHY IDENTIFIER=\"h-REQS-2\"").unwrap();
    assert!(h1 < h2);
    assert_eq!(xml.matches("<SPEC-HIERARCHY ").count(), 2);
}

#[test]
fn serializing_twice_gives_the_same_bytes() {
    let mut doc = document("DOC", "Title");
    doc.add_requirement(SpecObjectRequirement::new(
        "R".to_string(),
        NOW.to_string(),
        "N".to_string(),
        "B".to_string(),
        &doc.core_content.req_if_content.spec_types,
    ));
    assert_eq!(doc.serialize(true), doc.serialize(true));
    assert_eq!(doc.serialize(false), doc.serialize(false));
    assert_ne!(doc.serialize(true), doc.serialize(false));
}

#[test]
fn text_and_attribute_values_are_escaped() {
    let mut doc = document("a<b>&\"c\"", "x < y & z > w");
    doc.add_requirement(SpecObjectRequirement::new(
        "R&D".to_string(),
        NOW.to_string(),
        "it's".to_string(),
        "<p>1 & 2</p>".to_string(),
        &doc.core_content.req_if_content.spec_types,
    ));
    let xml = text(&doc, false);
    assert!(xml.contains("<REQ-IF-HEADER IDENTIFIER=\"a&lt;b&gt;&amp;&quot;c&quot;\">"));
    assert!(xml.contains("<TITLE>x &lt; y &amp; z &gt; w</TITLE>"));
    assert!(xml.contains("<SPEC-OBJECT IDENTIFIER=\"R&amp;D\" "));
    assert!(xml.contains("LONG-NAME=\"it&apos;s\""));
    assert!(xml.contains("<xhtml:div>R&amp;D</xhtml:div>"));
    assert!(xml.contains("<xhtml:div>&lt;p&gt;1 &amp; 2&lt;/p&gt;</xhtml:div>"));
}

#[test]
fn empty_text_is_an_element_with_both_tags() {
    let doc = document("DOC", "");
    assert!(text(&doc, false).contains("<TITLE></TITLE>"));
}

#[test]
fn node_without_level_has_no_children_element() {
    let n = SpecHierarchy::new("h".to_string(), NOW.to_string(), Object::new("R".to_string()));
    let expected = XmlNode::Element {
        name: "SPEC-HIERARCHY".to_string(),
        attributes: vec![
            XmlAttribute { name: "IDENTIFIER".to_string(), value: "h".to_string() },
            XmlAttribute { name: "LAST-CHANGE".to_string(), value: NOW.to_string() },
        ],
        children: vec![XmlNode::Element {
            name: "OBJECT".to_string(),
            attributes: vec![],
            children: vec![XmlNode::Element {
                name: "SPEC-OBJECT-REF".to_string(),
                attributes: vec![],
                children: vec![XmlNode::Text { content: "R".to_string() }],
            }],
        }],
    };
    assert_eq!(n.to_xml(), expected);
    assert_eq!(
        String::from_utf8(n.to_xml().to_bytes(false).unwrap()).unwrap(),
        [
            "<?xml version=\"1.0\" encoding=\"UTF-8\"?>",
            "<SPEC-HIERARCHY IDENTIFIER=\"h\" LAST-CHANGE=\"2024-03-01T10:20:30.456+01:00\">",
            "<OBJECT><SPEC-OBJECT-REF>R</SPEC-OBJECT-REF></OBJECT></SPEC-HIERARCHY>"
        ].concat().as_str()
    );
}

#[test]
fn node_with_opened_but_empty_level_has_an_empty_children_element() {
    let mut n = SpecHierarchy::new("h".to_string(), NOW.to_string(), Object::new("R".to_string()));
    n.children = Some(reqif_rs::req_if::Children::new());
    let xml = String::from_utf8(n.to_xml().to_bytes(false).unwrap()).unwrap();
    assert!(xml.ends_with("</OBJECT><CHILDREN /></SPEC-HIERARCHY>"));
}

#[test]
fn builder_adds_attributes_and_children_last() {
    let node = XmlNode::element("a")
        .attr("x", &"1".to_string())
        .child(XmlNode::text_element("b", &"t".to_string()))
        .attr("y", &"2".to_string())
        .child(XmlNode::element("c"));
    assert_eq!(
        String::from_utf8(node.to_bytes(false).unwrap()).unwrap(),
        "<?xml version=\"1.0\" encoding=\"UTF-8\"?><a x=\"1\" y=\"2\"><b>t</b><c /></a>"
    );
    let text = XmlNode::Text { content: "t".to_string() };
    assert_eq!(
        text.attr("x", &"1".to_string()).child(XmlNode::element("c")),
        XmlNode::Text { content: "t".to_string() }
    );
}

#[test]
fn attribute_holds_name_and_value() {
    assert_eq!(
        XmlAttribute::new("IDENTIFIER", &"R-1".to_string()),
        XmlAttribute { name: "IDENTIFIER".to_string(), value: "R-1".to_string() }
    );
}

#[test]
fn serialization_error_is_its_own_kind() {
    let e = ReqIfError::SerializationFailure { cause: "x".to_string() };
    assert_ne!(e, ReqIfError::MissingIntermediateLevel { depth: 0 });
}
