use amxml::nodetest::{match_kind_test, match_name_test, match_node_test, NodeInfo, NodeKind};
use amxml::parser::compile_xpath;
use amxml::xnode::{get_left, XNodePtr};

fn node(kind: NodeKind, name: &str, space_name: &str, xsi_nil: Option<&str>) -> NodeInfo {
    NodeInfo {
        kind,
        name: name.to_string(),
        space_name: space_name.to_string(),
        xsi_nil: xsi_nil.map(|s| s.to_string()),
    }
}

fn step(s: &str) -> XNodePtr {
    compile_xpath(&String::from(s)).unwrap()
}

#[test]
fn test_name_tests() {
    let para = node(NodeKind::Element, "para", "", None);
    let amr_case = node(NodeKind::Element, "amr:case1", "amr", None);
    let id = node(NodeKind::Attribute, "id", "", None);
    let text = node(NodeKind::Text, "", "", None);

    assert!(match_name_test(&para, &step("child::para")));
    assert!(!match_name_test(&para, &step("child::chap")));
    assert!(match_name_test(&para, &step("child::*")));
    assert!(!match_name_test(&id, &step("child::*")));
    assert!(!match_name_test(&text, &step("child::*")));
    assert!(match_name_test(&id, &step("@id")));
    assert!(match_name_test(&id, &step("attribute::*")));
    assert!(!match_name_test(&para, &step("@para")));
    // `..` reads as the parent's `node()`, which takes every node.
    assert!(match_name_test(&text, &step("..")));
    // A prefix with `*` takes the names of that namespace.
    assert!(match_name_test(&amr_case, &step("amr:*")));
    assert!(!match_name_test(&amr_case, &step("xxx:*")));
    assert!(match_name_test(&amr_case, &step("amr:case1")));
}

fn count(nodes: &[NodeInfo], test: &str) -> usize {
    let x = step(test);
    nodes.iter().filter(|n| match_node_test(n, &x)).count()
}

fn names(nodes: &[NodeInfo], test: &str) -> Vec<String> {
    let x = step(test);
    nodes.iter().filter(|n| match_node_test(n, &x)).map(|n| n.name.clone()).collect()
}

#[test]
fn test_kind_test_element() {
    // The children of `a`: three `sel` elements, the last nilled, and two
    // `alt` elements.
    let children = [
        node(NodeKind::Element, "sel", "", None),
        node(NodeKind::Element, "sel", "", None),
        node(NodeKind::Element, "sel", "", Some("true")),
        node(NodeKind::Element, "alt", "", None),
        node(NodeKind::Element, "alt", "", None),
    ];
    assert_eq!(count(&children, "child::element()"), 5);
    assert_eq!(count(&children, "child::element(*)"), 5);
    assert_eq!(count(&children, "child::element(sel)"), 3);
    assert_eq!(count(&children, "child::element(sel, anyType)"), 2);
    assert_eq!(count(&children, "child::element(sel, anyType?)"), 3);
    assert_eq!(count(&children, "child::element(sel, bad)"), 0);
    assert_eq!(count(&children, "child::element(sel, bad?)"), 0);
}

#[test]
fn test_kind_test_attribute() {
    // The attributes of `sel`: a="1" and b="2".
    let attributes = [
        node(NodeKind::Attribute, "a", "", None),
        node(NodeKind::Attribute, "b", "", None),
    ];
    assert_eq!(names(&attributes, "attribute::attribute()"), vec!["a", "b"]);
    assert_eq!(names(&attributes, "attribute::attribute(*)"), vec!["a", "b"]);
    assert_eq!(names(&attributes, "attribute::attribute(a)"), vec!["a"]);
    assert_eq!(names(&attributes, "attribute::attribute(a, anyType)"), vec!["a"]);
    assert_eq!(names(&attributes, "attribute::attribute(a, BAD)"), Vec::<String>::new());
    // An element is no attribute.
    let elem = node(NodeKind::Element, "a", "", None);
    assert!(!match_node_test(&elem, &step("child::attribute()")));
}

#[test]
fn test_kind_test_processing_instruction() {
    // The children of the document: three processing instructions and the
    // root element.
    let children = [
        node(NodeKind::Instruction, "style-sheet", "", None),
        node(NodeKind::Instruction, "style-sheet", "", None),
        node(NodeKind::Instruction, "pseudo-style-sheet", "", None),
        node(NodeKind::Element, "xroot", "", None),
    ];
    assert_eq!(count(&children, "child::processing-instruction()"), 3);
    assert_eq!(count(&children, "child::processing-instruction('style-sheet')"), 2);
}

#[test]
fn test_other_kind_tests() {
    let c = node(NodeKind::Comment, "", "", None);
    let t = node(NodeKind::Text, "", "", None);
    let d = node(NodeKind::DocumentRoot, "", "", None);
    assert!(match_node_test(&c, &step("child::comment()")));
    assert!(!match_node_test(&t, &step("child::comment()")));
    assert!(match_node_test(&t, &step("child::text()")));
    assert!(match_node_test(&d, &step("child::node()")));
    // Tests that are read but not implemented take no node.
    assert!(!match_node_test(&d, &step("child::document-node()")));
    let kind = get_left(&step("child::comment()"));
    assert!(match_kind_test(&c, &kind));
}
