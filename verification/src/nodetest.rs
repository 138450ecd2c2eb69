//! Node tests of a location step: whether a node of the document passes the
//! name test or the kind test of an axis node of the syntax tree. A node is
//! seen through the facts that the tests read of it.

use vstd::prelude::*;
use crate::strings::{first_occurrence, lemma_first_occurrence_from};
use crate::subtype::{derives_from, spec_derives_from};
use crate::text::{chars_of, str_eq};
use crate::xnode::{XNodePtr, XNodeType, XTree, get_left, get_xnode_name, get_xnode_type, is_nil_xnode, xt_left};

verus! {

/// The kind of a node of the document.
#[derive(PartialEq, Eq, Structural, Clone, Copy, Debug)]
pub enum NodeKind {
    DocumentRoot,
    Element,
    Attribute,
    Text,
    Comment,
    Instruction,
}

/// What the node tests read of a node: its kind, its name, the prefix of
/// its name's namespace, and the value of its `xsi:nil` attribute, if it
/// has one.
pub struct NodeInfo {
    pub kind: NodeKind,
    pub name: String,
    pub space_name: String,
    pub xsi_nil: Option<String>,
}

/// Whether the node passes the name test `pattern` on axis `axis`: `node()`
/// takes every node; otherwise the node must be an attribute on the
/// attribute axis and an element on any other, and have the name `pattern`,
/// or `pattern` be `*`, or be `prefix:*` with the node's namespace prefix.
pub open spec fn spec_match_name_test(node: NodeInfo, axis: XNodeType, pattern: Seq<char>) -> bool {
    if pattern == "node()"@ {
        true
    } else if node.kind != (if axis == XNodeType::AxisAttribute {
        NodeKind::Attribute
    } else {
        NodeKind::Element
    }) {
        false
    } else if pattern == node.name@ || pattern == "*"@ {
        true
    } else {
        match first_occurrence(pattern, ":"@) {
            Some(p) => pattern.subrange(p + 1, pattern.len() as int) == "*"@
                && node.space_name@ == pattern.subrange(0, p),
            None => false,
        }
    }
}

/// The name test of an axis node: whether `node` passes it.
pub fn match_name_test(node: &NodeInfo, xnode: &XNodePtr) -> (b: bool)
    ensures
        b == spec_match_name_test(*node, xnode@.n_type, xnode@.name),
{
    let name_test_pattern = get_xnode_name(xnode);
    if str_eq(name_test_pattern.as_str(), "node()") {
        return true;
    }
    let main_node_type = if get_xnode_type(xnode) == XNodeType::AxisAttribute {
        NodeKind::Attribute
    } else {
        NodeKind::Element
    };
    if main_node_type != node.kind {
        return false;
    }
    if str_eq(name_test_pattern.as_str(), node.name.as_str()) {
        return true;
    }
    if str_eq(name_test_pattern.as_str(), "*") {
        return true;
    }
    let v = chars_of(name_test_pattern.as_str());
    let n = v.len();
    let mut p: usize = 0;
    proof {
        reveal_strlit(":");
        lemma_first_occurrence_from(v@, ":"@, 0);
    }
    while p < n && v[p] != ':'
        invariant
            v@ == name_test_pattern@,
            n == v@.len(),
            p <= n,
            forall|k: int| 0 <= k < p ==> v@[k] != ':',
        decreases n - p,
    {
        p += 1;
    }
    proof {
        assert forall|k: int| 0 <= k < p implies !crate::strings::occurs_at(v@, ":"@, k) by {
            assert(v@.subrange(k, k + 1)[0] == v@[k]);
        }
    }
    if p == n {
        proof {
            assert forall|k: int| 0 <= k implies !crate::strings::occurs_at(v@, ":"@, k) by {
                if k < n {
                    assert(v@.subrange(k, k + 1)[0] == v@[k]);
                }
            }
        }
        return false;
    }
    proof {
        assert(v@.subrange(p as int, p + 1) =~= ":"@);
        assert(crate::strings::occurs_at(v@, ":"@, p as int));
    }
    let after = name_test_pattern.as_str().substring_char(p + 1, n);
    let before = name_test_pattern.as_str().substring_char(0, p);
    str_eq(after, "*") && str_eq(node.space_name.as_str(), before)
}

/// `s` without the `?` characters at its end.
pub open spec fn trim_trailing_questions(s: Seq<char>) -> Seq<char>
    decreases s.len(),
{
    if s.len() > 0 && s.last() == '?' {
        trim_trailing_questions(s.drop_last())
    } else {
        s
    }
}

/// Whether the node passes the kind test `test` (the node below a
/// `KindTest` node): an element test takes an element of the name (or any
/// name for `*`) whose type name `xs:untyped` derives from, and which is not
/// nilled unless the type name ends with `?`; an attribute test takes an
/// attribute in the same way, nilled or not; a processing-instruction test
/// one of the name, or any with no name; the comment and text tests their
/// kinds; `node()` every node. The other kind tests take no node.
pub open spec fn spec_match_kind_test(node: NodeInfo, test: XTree) -> bool {
    let type_name_text = xt_left(test).name;
    if test.n_type == XNodeType::ElementTest {
        &&& node.kind == NodeKind::Element
        &&& (test.name == "*"@ || test.name == node.name@)
        &&& spec_derives_from("xs:untyped"@, trim_trailing_questions(type_name_text))
        &&& (type_name_text.len() > 0 && type_name_text.last() == '?'
            || !(node.xsi_nil matches Some(v) && v@ == "true"@))
    } else if test.n_type == XNodeType::AttributeTest {
        &&& node.kind == NodeKind::Attribute
        &&& (test.name == "*"@ || test.name == node.name@)
        &&& spec_derives_from("xs:untyped"@, type_name_text)
    } else if test.n_type == XNodeType::PITest {
        node.kind == NodeKind::Instruction && (test.name == ""@ || test.name == node.name@)
    } else if test.n_type == XNodeType::CommentTest {
        node.kind == NodeKind::Comment
    } else if test.n_type == XNodeType::TextTest {
        node.kind == NodeKind::Text
    } else {
        test.n_type == XNodeType::AnyKindTest
    }
}

/// `s` without its trailing `?` characters.
fn trim_questions(s: &str) -> (r: String)
    ensures
        r@ == trim_trailing_questions(s@),
{
    let v = chars_of(s);
    let mut n = v.len();
    assert(v@.subrange(0, n as int) =~= v@);
    while n > 0 && v[n - 1] == '?'
        invariant
            v@ == s@,
            n <= v@.len(),
            trim_trailing_questions(s@) == trim_trailing_questions(v@.subrange(0, n as int)),
        decreases n,
    {
        assert(v@.subrange(0, n as int).drop_last() =~= v@.subrange(0, n - 1));
        n -= 1;
    }
    String::from_str(s.substring_char(0, n))
}

/// The kind test of a `KindTest` node: whether `node` passes it.
pub fn match_kind_test(node: &NodeInfo, xnode: &XNodePtr) -> (b: bool)
    ensures
        b == spec_match_kind_test(*node, xt_left(xnode@)),
{
    proof {
        reveal_strlit("");
    }
    let test_xnode = get_left(xnode);
    match get_xnode_type(&test_xnode) {
        XNodeType::ElementTest => {
            if node.kind != NodeKind::Element {
                return false;
            }
            let element_name = get_xnode_name(&test_xnode);
            if !str_eq(element_name.as_str(), "*") && !str_eq(element_name.as_str(), node.name.as_str()) {
                return false;
            }
            let type_name_ex = get_xnode_name(&get_left(&test_xnode));
            let type_name_text = trim_questions(type_name_ex.as_str());
            let n = type_name_ex.as_str().unicode_len();
            let with_q = n > 0 && type_name_ex.as_str().get_char(n - 1) == '?';
            if !derives_from("xs:untyped", type_name_text.as_str()) {
                return false;
            }
            if !with_q {
                if let Some(p) = &node.xsi_nil {
                    if str_eq(p.as_str(), "true") {
                        return false;
                    }
                }
            }
            true
        },
        XNodeType::AttributeTest => {
            if node.kind != NodeKind::Attribute {
                return false;
            }
            let attribute_name = get_xnode_name(&test_xnode);
            if !str_eq(attribute_name.as_str(), "*") && !str_eq(attribute_name.as_str(), node.name.as_str()) {
                return false;
            }
            let type_name_text = get_xnode_name(&get_left(&test_xnode));
            derives_from("xs:untyped", type_name_text.as_str())
        },
        XNodeType::PITest => {
            let arg = get_xnode_name(&test_xnode);
            node.kind == NodeKind::Instruction && (str_eq(arg.as_str(), "") || str_eq(arg.as_str(), node.name.as_str()))
        },
        XNodeType::CommentTest => node.kind == NodeKind::Comment,
        XNodeType::TextTest => node.kind == NodeKind::Text,
        XNodeType::AnyKindTest => true,
        _ => false,
    }
}

/// The node test of an axis node: its kind test when it has one on its
/// left, its name test otherwise.
pub fn match_node_test(node: &NodeInfo, xnode: &XNodePtr) -> (b: bool)
    ensures
        b == (if xt_left(xnode@).n_type == XNodeType::Nil {
            spec_match_name_test(*node, xnode@.n_type, xnode@.name)
        } else {
            spec_match_kind_test(*node, xt_left(xt_left(xnode@)))
        }),
{
    let kind_test_xnode = get_left(xnode);
    if is_nil_xnode(&kind_test_xnode) {
        match_name_test(node, xnode)
    } else {
        match_kind_test(node, &kind_test_xnode)
    }
}

} // verus!
