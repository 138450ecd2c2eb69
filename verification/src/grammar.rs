//! The XPath grammar as the parser reads it: for each rule, the syntax tree
//! that the tokens from a position give and the position after them, or the
//! kind of the error where the rule fails. A rule that does not apply gives
//! the nil tree; a token read is one whose kind the rule has just checked.

use vstd::prelude::*;
use crate::error::XPathErrorKind;
use crate::lexer::{TType, TokenV, index_after_get};
use crate::xnode::{XNodeType, XTree, nil_tree};

verus! {

/// What a rule gives: a tree and the position after it, or the kind of its
/// error.
pub type Parsed = Result<(XTree, int), XPathErrorKind>;

/// What a repeated rule gives: the trees read and the position after them.
pub type ParsedList = Result<(Seq<XTree>, int), XPathErrorKind>;

/// The kind of token `i`.
pub open spec fn kind(t: Seq<TokenV>, i: int) -> TType {
    t[i].0
}

/// The text of token `i`.
pub open spec fn text(t: Seq<TokenV>, i: int) -> Seq<char> {
    t[i].1
}

/// Whether `j` lies after `i` in the token list.
pub open spec fn ahead(t: Seq<TokenV>, i: int, j: int) -> bool {
    i < j && j < t.len()
}

/// Whether `j` lies at or after `i` in the token list.
pub open spec fn not_behind(t: Seq<TokenV>, i: int, j: int) -> bool {
    i <= j && j < t.len()
}

/// A node of kind `k` named `name`, without children.
pub open spec fn leaf(k: XNodeType, name: Seq<char>) -> XTree {
    XTree { n_type: k, name, left: None, right: None }
}

/// `p` with `c` as its left child, unless `c` is a nil tree.
pub open spec fn with_left(p: XTree, c: XTree) -> XTree {
    if c.n_type == XNodeType::Nil {
        p
    } else {
        XTree { left: Some(Box::new(c)), ..p }
    }
}

/// `p` with `c` as its right child, unless `c` is a nil tree.
pub open spec fn with_right(p: XTree, c: XTree) -> XTree {
    if c.n_type == XNodeType::Nil {
        p
    } else {
        XTree { right: Some(Box::new(c)), ..p }
    }
}

/// The trees linked from the first, each the right child of the one before
/// (a nil tree is not linked, which ends the chain there).
pub open spec fn link_chain(items: Seq<XTree>) -> XTree
    decreases items.len(),
{
    if items.len() <= 1 {
        items[0]
    } else {
        with_right(items[0], link_chain(items.drop_first()))
    }
}

/// The chain that the trees of a repeated rule make.
pub open spec fn linked(r: ParsedList) -> Parsed {
    match r {
        Err(e) => Err(e),
        Ok((items, k)) => Ok((link_chain(items), k)),
    }
}

// =====================================================================
// Names.

/// The QName at token `i`: a name, or a prefix, a colon and a local name. An
/// unprefixed name takes `default_prefix` when that is not empty. The result
/// is the name and the position after it; no name gives the empty text at
/// `i`; a colon without a local name after it is an error.
pub open spec fn spec_qname(t: Seq<TokenV>, i: int, default_prefix: Seq<char>) -> Result<(Seq<char>, int), XPathErrorKind> {
    if t[i].0 != TType::Name {
        Ok((Seq::empty(), i))
    } else if t[i + 1].0 != TType::Colon {
        if default_prefix != Seq::<char>::empty() {
            Ok((default_prefix + ":"@ + t[i].1, i + 1))
        } else {
            Ok((t[i].1, i + 1))
        }
    } else if t[i + 2].0 != TType::Name {
        Err(XPathErrorKind::SyntaxError)
    } else {
        Ok((t[i].1 + t[i + 1].1 + t[i + 2].1, i + 3))
    }
}

/// The EQName at token `i`: a QName, or a braced URI followed by a name.
pub open spec fn spec_eqname(t: Seq<TokenV>, i: int, default_prefix: Seq<char>) -> Result<(Seq<char>, int), XPathErrorKind> {
    match spec_qname(t, i, default_prefix) {
        Err(e) => Err(e),
        Ok((q, j)) => {
            if q != Seq::<char>::empty() {
                Ok((q, j))
            } else if t[j].0 == TType::BracedURILiteral && t[j + 1].0 == TType::Name {
                Ok((t[j].1 + t[j + 1].1, j + 2))
            } else {
                Ok((Seq::empty(), j))
            }
        },
    }
}

/// The wildcard at token `i`: `*`, `name:*`, `*:name` or `Q{uri}*`; none
/// gives the empty text at `i`.
pub open spec fn spec_wildcard(t: Seq<TokenV>, i: int) -> (Seq<char>, int) {
    if t[i].0 == TType::Asterisk {
        (t[i].1, i + 1)
    } else if t[i].0 == TType::Name && t[i + 1].0 == TType::ColonAsterisk {
        (t[i].1 + t[i + 1].1, i + 2)
    } else if t[i].0 == TType::AsteriskColon && t[i + 1].0 == TType::Name {
        (t[i].1 + t[i + 1].1, i + 2)
    } else if t[i].0 == TType::BracedURILiteral && t[i + 1].0 == TType::Asterisk {
        (t[i].1 + t[i + 1].1, i + 2)
    } else {
        (Seq::empty(), i)
    }
}

/// Whether the token at `i` is the name `w`: the lexer leaves `then`,
/// `else`, `in`, `return`, `satisfies` and `as` as names, and the parser
/// reads them as such.
pub open spec fn is_word(t: Seq<TokenV>, i: int, w: Seq<char>) -> bool {
    kind(t, i) == TType::Name && text(t, i) == w
}

// =====================================================================
// Kind tests.

/// The first of two rules that applies: `r`, or, where it gives the nil
/// tree, `f` from where `r` stopped.
pub open spec fn or_else(r: Parsed, f: spec_fn(int) -> Parsed) -> Parsed {
    match r {
        Err(e) => Err(e),
        Ok((x, j)) => if x.n_type != XNodeType::Nil {
            Ok((x, j))
        } else {
            f(j)
        },
    }
}

/// `name` `(` `)`: a test that takes no argument, at token `i`.
pub open spec fn spec_kind_test_none(t: Seq<TokenV>, i: int, ttype: TType, xnode_type: XNodeType) -> Parsed {
    if t[i].0 != ttype {
        Ok((nil_tree(), i))
    } else if t[i + 1].0 != TType::LeftParen || t[i + 2].0 != TType::RightParen {
        Err(XPathErrorKind::SyntaxError)
    } else {
        Ok((leaf(xnode_type, Seq::empty()), i + 3))
    }
}

/// `name` `(` EQName `)`: `schema-element(N)` or `schema-attribute(N)`.
#[verifier::opaque]
pub open spec fn spec_kind_test_one(t: Seq<TokenV>, i: int, ttype: TType, xnode_type: XNodeType) -> Parsed {
    if kind(t, i) != ttype {
        Ok((nil_tree(), i))
    } else if kind(t, i + 1) != TType::LeftParen {
        Err(XPathErrorKind::SyntaxError)
    } else {
        match spec_eqname(t, i + 2, Seq::empty()) {
            Err(e) => Err(e),
            Ok((q, j)) => if q == Seq::<char>::empty() || kind(t, j) != TType::RightParen {
                Err(XPathErrorKind::SyntaxError)
            } else {
                Ok((leaf(xnode_type, q), j + 1))
            },
        }
    }
}

/// `processing-instruction` `(` (NCName | StringLiteral)? `)`
#[verifier::opaque]
pub open spec fn spec_pi_test(t: Seq<TokenV>, i: int) -> Parsed {
    if kind(t, i) != TType::PITest {
        Ok((nil_tree(), i))
    } else if kind(t, i + 1) != TType::LeftParen {
        Err(XPathErrorKind::SyntaxError)
    } else {
        let b = i + 2;
        let has_arg = kind(t, b) == TType::Name || kind(t, b) == TType::StringLiteral;
        let arg = if has_arg { text(t, b) } else { Seq::empty() };
        let c = if has_arg { b + 1 } else { b };
        if !has_arg && kind(t, b) != TType::RightParen {
            Err(XPathErrorKind::SyntaxError)
        } else if kind(t, c) != TType::RightParen {
            Err(XPathErrorKind::SyntaxError)
        } else {
            Ok((leaf(XNodeType::PITest, arg), c + 1))
        }
    }
}

/// `*` where no name was read.
pub open spec fn name_or_star(name: Seq<char>) -> Seq<char> {
    if name == Seq::<char>::empty() {
        "*"@
    } else {
        name
    }
}

/// A test for an element or an attribute with its name and its type name:
/// the closing parenthesis at `f`, then the tree.
pub open spec fn close_named_test(
    t: Seq<TokenV>,
    k: XNodeType,
    name: Seq<char>,
    type_name_text: Seq<char>,
    f: int,
) -> Parsed {
    if kind(t, f) != TType::RightParen {
        Err(XPathErrorKind::SyntaxError)
    } else {
        Ok((with_left(leaf(k, name_or_star(name)), leaf(XNodeType::KindTestTypeName, type_name_text)), f + 1))
    }
}

/// The name of an element or attribute test, from position `b`: an EQName,
/// or `*`, or none.
pub open spec fn spec_test_name(t: Seq<TokenV>, b: int) -> Result<(Seq<char>, int), XPathErrorKind> {
    match spec_eqname(t, b, Seq::empty()) {
        Err(e) => Err(e),
        Ok((q, c)) => if q == Seq::<char>::empty() && kind(t, c) == TType::Asterisk {
            Ok(("*"@, c + 1))
        } else {
            Ok((q, c))
        },
    }
}

/// `element` `(` (ElementNameOrWildcard ("," TypeName "?"?)?)? `)`: the
/// name (by default `*`) and, below it, the type name (by default
/// `xs:anyType?`).
#[verifier::opaque]
pub open spec fn spec_element_test(t: Seq<TokenV>, i: int) -> Parsed {
    if kind(t, i) != TType::ElementTest {
        Ok((nil_tree(), i))
    } else if kind(t, i + 1) != TType::LeftParen {
        Err(XPathErrorKind::SyntaxError)
    } else {
        match spec_test_name(t, i + 2) {
            Err(e) => Err(e),
            Ok((name, d)) => if name != Seq::<char>::empty() && kind(t, d) == TType::Comma {
                match spec_eqname(t, d + 1, "xs"@) {
                    Err(e) => Err(e),
                    Ok((ty, e)) => if ty == Seq::<char>::empty() {
                        Err(XPathErrorKind::SyntaxError)
                    } else if kind(t, e) == TType::Question {
                        close_named_test(t, XNodeType::ElementTest, name, ty + "?"@, e + 1)
                    } else {
                        close_named_test(t, XNodeType::ElementTest, name, ty, e)
                    },
                }
            } else {
                close_named_test(t, XNodeType::ElementTest, name, "xs:anyType?"@, d)
            },
        }
    }
}

/// `attribute` `(` (AttribNameOrWildcard ("," TypeName)?)? `)`: the name
/// (by default `*`) and, below it, the type name (by default `xs:anyType`).
#[verifier::opaque]
pub open spec fn spec_attribute_test(t: Seq<TokenV>, i: int) -> Parsed {
    if kind(t, i) != TType::AttributeTest {
        Ok((nil_tree(), i))
    } else if kind(t, i + 1) != TType::LeftParen {
        Err(XPathErrorKind::SyntaxError)
    } else {
        match spec_test_name(t, i + 2) {
            Err(e) => Err(e),
            Ok((name, d)) => if name != Seq::<char>::empty() && kind(t, d) == TType::Comma {
                match spec_eqname(t, d + 1, "xs"@) {
                    Err(e) => Err(e),
                    Ok((ty, e)) => if ty == Seq::<char>::empty() {
                        Err(XPathErrorKind::SyntaxError)
                    } else {
                        close_named_test(t, XNodeType::AttributeTest, name, ty, e)
                    },
                }
            } else {
                close_named_test(t, XNodeType::AttributeTest, name, "xs:anyType"@, d)
            },
        }
    }
}

/// `document-node` `(` (ElementTest | SchemaElementTest)? `)`
#[verifier::opaque]
pub open spec fn spec_document_test(t: Seq<TokenV>, i: int) -> Parsed {
    if kind(t, i) != TType::DocumentTest {
        Ok((nil_tree(), i))
    } else if kind(t, i + 1) != TType::LeftParen {
        Err(XPathErrorKind::SyntaxError)
    } else {
        match or_else(
            spec_element_test(t, i + 2),
            |j: int| spec_kind_test_one(t, j, TType::SchemaElementTest, XNodeType::SchemaElementTest),
        ) {
            Err(e) => Err(e),
            Ok((x, d)) => if kind(t, d) != TType::RightParen {
                Err(XPathErrorKind::SyntaxError)
            } else {
                Ok((with_left(leaf(XNodeType::DocumentTest, Seq::empty()), x), d + 1))
            },
        }
    }
}

/// `KindTest`: the first kind test that applies, under a `KindTest` node.
#[verifier::opaque]
pub open spec fn spec_kind_test(t: Seq<TokenV>, i: int) -> Parsed {
    let r = or_else(spec_document_test(t, i), |j: int| spec_element_test(t, j));
    let r = or_else(r, |j: int| spec_attribute_test(t, j));
    let r = or_else(r, |j: int| spec_kind_test_one(t, j, TType::SchemaElementTest, XNodeType::SchemaElementTest));
    let r = or_else(r, |j: int| spec_kind_test_one(t, j, TType::SchemaAttributeTest, XNodeType::SchemaAttributeTest));
    let r = or_else(r, |j: int| spec_pi_test(t, j));
    let r = or_else(r, |j: int| spec_kind_test_none(t, j, TType::CommentTest, XNodeType::CommentTest));
    let r = or_else(r, |j: int| spec_kind_test_none(t, j, TType::TextTest, XNodeType::TextTest));
    let r = or_else(r, |j: int| spec_kind_test_none(t, j, TType::NamespaceNodeTest, XNodeType::NamespaceNodeTest));
    let r = or_else(r, |j: int| spec_kind_test_none(t, j, TType::AnyKindTest, XNodeType::AnyKindTest));
    match r {
        Err(e) => Err(e),
        Ok((x, j)) => if x.n_type != XNodeType::Nil {
            Ok((with_left(leaf(XNodeType::KindTest, Seq::empty()), x), j))
        } else {
            Ok((nil_tree(), j))
        },
    }
}

// =====================================================================
// Sequence types.

/// `SequenceType ::= "empty-sequence" "(" ")" | ItemType
/// OccurrenceIndicator?`: a `SequenceType` node named by the indicator,
/// with the item type on the left.
pub open spec fn spec_sequence_type(t: Seq<TokenV>, i: int) -> Parsed
    decreases t.len() - i, 30int,
{
    match spec_kind_test_none(t, i, TType::EmptySequence, XNodeType::EmptySequenceTest) {
        Err(e) => Err(e),
        Ok((x, j)) => if x.n_type != XNodeType::Nil {
            Ok((with_left(leaf(XNodeType::SequenceType, Seq::empty()), x), j))
        } else if !not_behind(t, i, j) {
            Err(XPathErrorKind::SyntaxError)
        } else {
            match spec_item_type(t, j) {
                Err(e) => Err(e),
                Ok((y, k)) => if y.n_type == XNodeType::Nil {
                    Ok((nil_tree(), k))
                } else if kind(t, k) == TType::Question || kind(t, k) == TType::Asterisk || kind(t, k) == TType::Plus {
                    Ok((with_left(leaf(XNodeType::SequenceType, text(t, k)), y), k + 1))
                } else {
                    Ok((with_left(leaf(XNodeType::SequenceType, Seq::empty()), y), k))
                },
            }
        },
    }
}

/// `ItemType ::= KindTest | "item" "(" ")" | FunctionTest | MapTest |
/// ArrayTest | AtomicOrUnionType | ParenthesizedItemType`: the first that
/// applies.
pub open spec fn spec_item_type(t: Seq<TokenV>, i: int) -> Parsed
    decreases t.len() - i, 20int,
{
    match spec_kind_test(t, i) {
        Err(e) => Err(e),
        Ok((x1, j1)) => if x1.n_type != XNodeType::Nil {
            Ok((x1, j1))
        } else {
            match spec_kind_test_none(t, j1, TType::Item, XNodeType::ItemTest) {
                Err(e) => Err(e),
                Ok((x2, j2)) => if x2.n_type != XNodeType::Nil {
                    Ok((x2, j2))
                } else if !not_behind(t, i, j2) {
                    Err(XPathErrorKind::SyntaxError)
                } else {
                    match spec_function_test(t, j2) {
                        Err(e) => Err(e),
                        Ok((x3, j3)) => if x3.n_type != XNodeType::Nil {
                            Ok((x3, j3))
                        } else if !not_behind(t, i, j3) {
                            Err(XPathErrorKind::SyntaxError)
                        } else {
                            match spec_map_test(t, j3) {
                                Err(e) => Err(e),
                                Ok((x4, j4)) => if x4.n_type != XNodeType::Nil {
                                    Ok((x4, j4))
                                } else if !not_behind(t, i, j4) {
                                    Err(XPathErrorKind::SyntaxError)
                                } else {
                                    match spec_array_test(t, j4) {
                                        Err(e) => Err(e),
                                        Ok((x5, j5)) => if x5.n_type != XNodeType::Nil {
                                            Ok((x5, j5))
                                        } else {
                                            match spec_eqname(t, j5, "xs"@) {
                                                Err(e) => Err(e),
                                                Ok((q, j6)) => if q != Seq::<char>::empty() {
                                                    Ok((leaf(XNodeType::AtomicOrUnionType, q), j6))
                                                } else if !not_behind(t, i, j6) {
                                                    Err(XPathErrorKind::SyntaxError)
                                                } else {
                                                    match spec_parenthesized_item_type(t, j6) {
                                                        Err(e) => Err(e),
                                                        Ok((x7, j7)) => if x7.n_type != XNodeType::Nil {
                                                            Ok((x7, j7))
                                                        } else {
                                                            Ok((nil_tree(), j7))
                                                        },
                                                    }
                                                },
                                            }
                                        },
                                    }
                                },
                            }
                        },
                    }
                },
            }
        },
    }
}

/// `FunctionTest ::= "function" "(" "*" ")" | "function" "(" (SequenceType
/// ("," SequenceType)*)? ")" "as" SequenceType`: an `AnyFunctionTest` node,
/// or a `TypedFunctionTest` node with a `ReturnType` node on its right (the
/// return type on the left, the parameters on the right).
pub open spec fn spec_function_test(t: Seq<TokenV>, i: int) -> Parsed
    decreases t.len() - i, 10int,
{
    if kind(t, i) != TType::Function {
        Ok((nil_tree(), i))
    } else if kind(t, i + 1) != TType::LeftParen {
        Err(XPathErrorKind::SyntaxError)
    } else if kind(t, i + 2) == TType::Asterisk {
        if kind(t, i + 3) != TType::RightParen {
            Err(XPathErrorKind::SyntaxError)
        } else {
            Ok((leaf(XNodeType::AnyFunctionTest, Seq::empty()), i + 4))
        }
    } else if !ahead(t, i, i + 2) {
        Err(XPathErrorKind::SyntaxError)
    } else {
        match spec_sequence_type_list(t, i + 2) {
            Err(e) => Err(e),
            Ok((params, c)) => if kind(t, c) != TType::RightParen {
                Err(XPathErrorKind::SyntaxError)
            } else if !is_word(t, c + 1, "as"@) {
                Err(XPathErrorKind::SyntaxError)
            } else {
                let e = index_after_get(c + 1, t.len() as int);
                if !ahead(t, i, e) {
                    Err(XPathErrorKind::SyntaxError)
                } else {
                    match spec_sequence_type(t, e) {
                        Err(e) => Err(e),
                        Ok((rt, f)) => Ok((
                            with_right(
                                leaf(XNodeType::TypedFunctionTest, Seq::empty()),
                                with_right(with_left(leaf(XNodeType::ReturnType, Seq::empty()), rt), params),
                            ),
                            f,
                        )),
                    }
                }
            },
        }
    }
}

/// A chain of `Param` nodes, one for each sequence type of the list.
pub open spec fn spec_sequence_type_list(t: Seq<TokenV>, i: int) -> Parsed
    decreases t.len() - i, 40int,
{
    match spec_sequence_type(t, i) {
        Err(e) => Err(e),
        Ok((x, j)) => if x.n_type == XNodeType::Nil {
            Ok((x, j))
        } else if !not_behind(t, i, j) {
            Err(XPathErrorKind::SyntaxError)
        } else {
            linked(spec_sequence_type_params(t, j, seq![with_left(leaf(XNodeType::Param, Seq::empty()), x)]))
        },
    }
}

/// The `Param` nodes of the sequence types that follow commas from `p` on,
/// after those of `acc`.
pub open spec fn spec_sequence_type_params(t: Seq<TokenV>, p: int, acc: Seq<XTree>) -> ParsedList
    decreases t.len() - p, 35int,
{
    if kind(t, p) != TType::Comma || !ahead(t, p, p + 1) {
        Ok((acc, p))
    } else {
        match spec_sequence_type(t, p + 1) {
            Err(e) => Err(e),
            Ok((x, q)) => if !not_behind(t, p + 1, q) {
                Err(XPathErrorKind::SyntaxError)
            } else {
                spec_sequence_type_params(t, q, acc.push(with_left(leaf(XNodeType::Param, Seq::empty()), x)))
            },
        }
    }
}

/// `MapTest ::= "map" "(" "*" ")" | "map" "(" AtomicOrUnionType ","
/// SequenceType ")"`: a `MapTest` node with the key type on the left and the
/// value type on the right; `map(*)` reads as `map(xs:anyAtomicType,
/// item()*)`.
pub open spec fn spec_map_test(t: Seq<TokenV>, i: int) -> Parsed
    decreases t.len() - i, 10int,
{
    if kind(t, i) != TType::MapTest {
        Ok((nil_tree(), i))
    } else if kind(t, i + 1) != TType::LeftParen {
        Err(XPathErrorKind::SyntaxError)
    } else if kind(t, i + 2) == TType::Asterisk {
        if kind(t, i + 3) != TType::RightParen {
            Err(XPathErrorKind::SyntaxError)
        } else {
            Ok((
                with_right(
                    with_left(
                        leaf(XNodeType::MapTest, Seq::empty()),
                        leaf(XNodeType::AtomicOrUnionType, "xs:anyAtomicType"@),
                    ),
                    spec_default_sequence_type(),
                ),
                i + 4,
            ))
        }
    } else {
        match spec_eqname(t, i + 2, "xs"@) {
            Err(e) => Err(e),
            Ok((q, c)) => if q == Seq::<char>::empty() || kind(t, c) != TType::Comma || !ahead(t, i, c + 1) {
                Err(XPathErrorKind::SyntaxError)
            } else {
                match spec_sequence_type(t, c + 1) {
                    Err(e) => Err(e),
                    Ok((st, e)) => if kind(t, e) != TType::RightParen {
                        Err(XPathErrorKind::SyntaxError)
                    } else {
                        Ok((
                            with_right(
                                with_left(
                                    leaf(XNodeType::MapTest, Seq::empty()),
                                    leaf(XNodeType::AtomicOrUnionType, q),
                                ),
                                st,
                            ),
                            e + 1,
                        ))
                    },
                }
            },
        }
    }
}

/// `ArrayTest ::= "array" "(" "*" ")" | "array" "(" SequenceType ")"`: an
/// `ArrayTest` node with the member type on the left; `array(*)` reads as
/// `array(item()*)`.
pub open spec fn spec_array_test(t: Seq<TokenV>, i: int) -> Parsed
    decreases t.len() - i, 10int,
{
    if kind(t, i) != TType::ArrayTest {
        Ok((nil_tree(), i))
    } else if kind(t, i + 1) != TType::LeftParen {
        Err(XPathErrorKind::SyntaxError)
    } else if kind(t, i + 2) == TType::Asterisk {
        if kind(t, i + 3) != TType::RightParen {
            Err(XPathErrorKind::SyntaxError)
        } else {
            Ok((with_left(leaf(XNodeType::ArrayTest, Seq::empty()), spec_default_sequence_type()), i + 4))
        }
    } else if !ahead(t, i, i + 2) {
        Err(XPathErrorKind::SyntaxError)
    } else {
        match spec_sequence_type(t, i + 2) {
            Err(e) => Err(e),
            Ok((st, e)) => if kind(t, e) != TType::RightParen {
                Err(XPathErrorKind::SyntaxError)
            } else {
                Ok((with_left(leaf(XNodeType::ArrayTest, Seq::empty()), st), e + 1))
            },
        }
    }
}

/// `ParenthesizedItemType ::= "(" ItemType ")"`
pub open spec fn spec_parenthesized_item_type(t: Seq<TokenV>, i: int) -> Parsed
    decreases t.len() - i, 10int,
{
    if kind(t, i) != TType::LeftParen || !ahead(t, i, i + 1) {
        Ok((nil_tree(), i))
    } else {
        match spec_item_type(t, i + 1) {
            Err(e) => Err(e),
            Ok((x, b)) => if kind(t, b) != TType::RightParen {
                Err(XPathErrorKind::SyntaxError)
            } else {
                Ok((with_left(leaf(XNodeType::ParenthesizedItemType, Seq::empty()), x), b + 1))
            },
        }
    }
}

/// The sequence type `item()*`.
pub open spec fn spec_default_sequence_type() -> XTree {
    with_left(leaf(XNodeType::SequenceType, "*"@), leaf(XNodeType::ItemTest, Seq::empty()))
}

/// `SingleType ::= TypeName "?"?`: a `SingleType` node with the type name
/// (and its `?`) on the left.
#[verifier::opaque]
pub open spec fn spec_single_type(t: Seq<TokenV>, i: int) -> Parsed {
    match spec_eqname(t, i, Seq::empty()) {
        Err(e) => Err(e),
        Ok((q, j)) => if q == Seq::<char>::empty() {
            Ok((nil_tree(), j))
        } else if kind(t, j) == TType::Question {
            Ok((with_left(leaf(XNodeType::SingleType, Seq::empty()), leaf(XNodeType::TypeName, q + text(t, j))), j + 1))
        } else {
            Ok((with_left(leaf(XNodeType::SingleType, Seq::empty()), leaf(XNodeType::TypeName, q)), j))
        },
    }
}

} // verus!
