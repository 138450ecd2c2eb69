//! The XPath parser: a recursive-descent reading of the token list into a
//! syntax tree, rule by rule of the XPath 3.1 grammar. Each parse function
//! reads its rule as `grammar` and `expr_grammar` write it: the same tree,
//! the cursor after it, or an error where the rule fails.

use vstd::prelude::*;
use crate::error::{XPathError, XPathErrorKind, error_in_context};
use crate::func::{check_function_spec, spec_check_function_spec};
use crate::grammar::{
    Parsed, linked, leaf, link_chain, spec_qname, spec_eqname, spec_wildcard, spec_kind_test_none,
    spec_kind_test_one, spec_pi_test, spec_element_test, spec_attribute_test, spec_document_test,
    spec_kind_test, spec_sequence_type, spec_item_type, spec_function_test, spec_sequence_type_list,
    spec_sequence_type_params, spec_map_test, spec_array_test, spec_parenthesized_item_type, spec_single_type,
    spec_default_sequence_type,
};
use crate::expr_grammar::{
    BinLevel, spec_bin_op, spec_bin_once, bin_rank, spec_bin, spec_bin_loop, spec_bin_operand, spec_expr,
    spec_expr_single, spec_for_expr, spec_let_expr, spec_quantified_expr, spec_bound_expr, spec_binding_loop,
    spec_binding, spec_if_expr, close_relative, spec_compile, spec_instanceof, spec_treat, spec_castable,
    spec_cast, spec_arrow, spec_unary, spec_path, spec_relative, spec_step, spec_axis_step, spec_predicate,
    spec_postfix_expr, spec_postfix, spec_primary, spec_parenthesized_expr, spec_function_item,
    spec_inline_function, spec_function_body, spec_map_constructor, spec_map_entries, spec_map_entry,
    spec_array_constructor, spec_square_array, spec_curly_array, spec_array_members, spec_unary_lookup,
    spec_function_call, spec_argument_list, spec_arguments, spec_argument, spec_node_test,
    spec_predicate_list, spec_arrow_loop, spec_relative_loop, spec_postfix_loop, spec_primary_rest,
    spec_primary_items, spec_map_entries_loop, spec_array_members_loop, spec_arguments_loop, spec_xpath,
    spec_is_reverse_axis, spec_axis_from_name, spec_literal, spec_varref, spec_context_item,
    spec_named_function_ref, spec_param, spec_param_list, spec_param_loop,
};
use crate::lexer::{Lexer, TType, around_text};
use crate::text::str_eq;
use crate::xnode::{
    XNodePtr, XTree, nil_tree, xt_left, xt_right, XNodeType, assign_as_left, assign_as_right, get_right,
    get_xnode_type, is_nil_xnode, new_nil_xnode, new_xnode, fn_tests_ok, right_chain_len,
    chain_has_placeholder,
};

verus! {

/// What a parse function returns, read against a rule of the grammar: the
/// rule's tree with the cursor after it, or an error of the rule's kind where
/// the rule fails.
pub open spec fn reads_as(p: Parsed, res: Result<XNodePtr, XPathError>, after: int) -> bool {
    match p {
        Ok((x, j)) => res matches Ok(r) && r@ == x && after == j,
        Err(k) => res matches Err(e) && e.kind == k,
    }
}

/// The trees of a list of nodes.
pub open spec fn views(v: Seq<XNodePtr>) -> Seq<XTree> {
    v.map_values(|x: XNodePtr| x@)
}

// =====================================================================
// Names.

/// A syntax error whose message shows the tokens around the cursor.
fn syntax_error_here(lex: &Lexer, description: &str) -> (e: XPathError)
    requires
        lex.ready(),
    ensures
        e.kind == XPathErrorKind::SyntaxError,
        e.message@ == around_text(lex.tokens_v(), lex.index_v()) + ": "@ + description@,
{
    let context = lex.around_tokens();
    error_in_context(XPathErrorKind::SyntaxError, context.as_str(), description)
}

#[verifier::spinoff_prover]
fn parse_qname(lex: &mut Lexer, default_prefix: &str) -> (res: Result<String, XPathError>)
    requires
        old(lex).ready(),
    ensures
        final(lex).moved_on_from(&*old(lex)),
        final(lex).mark_v() == old(lex).mark_v(),
        match spec_qname(old(lex).tokens_v(), old(lex).index_v(), default_prefix@) {
            Ok((q, j)) => res matches Ok(s) && s@ == q && final(lex).index_v() == j,
            Err(k) => res matches Err(e) && e.kind == k,
        },
{
    let tok = lex.next_token();
    if tok.get_type() != TType::Name {
        return Ok(String::new());
    }
    let mut qname = String::from_str(tok.get_name());
    lex.get_token();

    let tok = lex.next_token();
    if tok.get_type() != TType::Colon {
        if !str_eq(default_prefix, "") {
            proof {
                reveal_strlit("");
                assert(""@ =~= Seq::<char>::empty());
            }
            let mut prefixed = String::from_str(default_prefix);
            prefixed.append(":");
            prefixed.append(qname.as_str());
            return Ok(prefixed);
        } else {
            proof {
                reveal_strlit("");
                assert(""@ =~= Seq::<char>::empty());
                assert(default_prefix@ =~= Seq::<char>::empty());
            }
            return Ok(qname);
        }
    }
    qname.append(tok.get_name());
    lex.get_token();

    if lex.next_token().get_type() != TType::Name {
        return Err(syntax_error_here(lex, "QName: a name must follow the colon"));
    }
    let tok = lex.get_token();
    qname.append(tok.get_name());
    Ok(qname)
}

#[verifier::spinoff_prover]
fn parse_eqname(lex: &mut Lexer, default_prefix: &str) -> (res: Result<String, XPathError>)
    requires
        old(lex).ready(),
    ensures
        final(lex).moved_on_from(&*old(lex)),
        final(lex).mark_v() == old(lex).mark_v(),
        match spec_eqname(old(lex).tokens_v(), old(lex).index_v(), default_prefix@) {
            Ok((q, j)) => res matches Ok(s) && s@ == q && final(lex).index_v() == j,
            Err(k) => res matches Err(e) && e.kind == k,
        },
{
    proof {
        reveal_strlit("");
        assert(""@ =~= Seq::<char>::empty());
    }
    let qname = parse_qname(lex, default_prefix)?;
    if !str_eq(qname.as_str(), "") {
        return Ok(qname);
    }
    let mut uri_qualified_name = String::new();
    if lex.next_token().get_type() == TType::BracedURILiteral {
        let tok = lex.get_token();
        uri_qualified_name.append(tok.get_name());
        if lex.next_token().get_type() == TType::Name {
            let tok = lex.get_token();
            uri_qualified_name.append(tok.get_name());
            return Ok(uri_qualified_name);
        } else {
            lex.unget_token();
        }
    }
    Ok(String::new())
}

/// A function name: an EQName whose unprefixed form takes the prefix `fn`.
#[verifier::spinoff_prover]
fn parse_static_func_name(lex: &mut Lexer) -> (res: Result<String, XPathError>)
    requires
        old(lex).ready(),
    ensures
        final(lex).moved_on_from(&*old(lex)),
        final(lex).mark_v() == old(lex).mark_v(),
        match spec_eqname(old(lex).tokens_v(), old(lex).index_v(), "fn"@) {
            Ok((q, j)) => res matches Ok(s) && s@ == q && final(lex).index_v() == j,
            Err(k) => res matches Err(e) && e.kind == k,
        },
{
    parse_eqname(lex, "fn")
}

#[verifier::spinoff_prover]
fn parse_wildcard(lex: &mut Lexer) -> (res: Result<String, XPathError>)
    requires
        old(lex).ready(),
    ensures
        final(lex).moved_on_from(&*old(lex)),
        res matches Ok(s) && s@ == spec_wildcard(old(lex).tokens_v(), old(lex).index_v()).0
            && final(lex).index_v() == spec_wildcard(old(lex).tokens_v(), old(lex).index_v()).1,
{
    let mut qname = String::new();
    match lex.next_token().get_type() {
        TType::Asterisk => {
            let tok = lex.get_token();
            qname.append(tok.get_name());
            return Ok(qname);
        },
        TType::Name => {
            let tok = lex.get_token();
            qname.append(tok.get_name());
            if lex.next_token().get_type() == TType::ColonAsterisk {
                let tok = lex.get_token();
                qname.append(tok.get_name());
                return Ok(qname);
            } else {
                lex.unget_token();
            }
        },
        TType::AsteriskColon => {
            let tok = lex.get_token();
            qname.append(tok.get_name());
            if lex.next_token().get_type() == TType::Name {
                let tok = lex.get_token();
                qname.append(tok.get_name());
                return Ok(qname);
            } else {
                lex.unget_token();
            }
        },
        TType::BracedURILiteral => {
            let tok = lex.get_token();
            qname.append(tok.get_name());
            if lex.next_token().get_type() == TType::Asterisk {
                let tok = lex.get_token();
                qname.append(tok.get_name());
                return Ok(qname);
            } else {
                lex.unget_token();
            }
        },
        _ => {},
    }
    Ok(String::new())
}


// =====================================================================
// Kind tests.

/// A test that takes no argument: `comment()`, `text()`, `node()`,
/// `namespace-node()`, and also `empty-sequence()` and `item()`.
#[verifier::spinoff_prover]
fn parse_kind_test_sub_none(lex: &mut Lexer, ttype: TType, xnode_type: XNodeType)
    -> (res: Result<XNodePtr, XPathError>)
    requires
        old(lex).ready(),
        ttype != TType::EOF,
        xnode_type != XNodeType::Nil,
        xnode_type != XNodeType::TypedFunctionTest,
    ensures
        final(lex).moved_on_from(&*old(lex)),
        res matches Ok(x) ==> fn_tests_ok(x@),
        reads_as(
            spec_kind_test_none(old(lex).tokens_v(), old(lex).index_v(), ttype, xnode_type),
            res,
            final(lex).index_v(),
        ),
{
    if lex.next_token().get_type() != ttype {
        return Ok(new_nil_xnode());
    }
    lex.get_token();
    if lex.next_token().get_type() != TType::LeftParen {
        return Err(syntax_error_here(lex, "an opening parenthesis is required"));
    }
    lex.get_token();
    if lex.next_token().get_type() != TType::RightParen {
        return Err(syntax_error_here(lex, "a closing parenthesis is required"));
    }
    lex.get_token();
    proof {
        reveal_strlit("");
        assert(""@ =~= Seq::<char>::empty());
    }
    let x = new_xnode(xnode_type, "");
    assert(x@.name =~= Seq::<char>::empty());
    Ok(x)
}

/// `name` `(` EQName `)`: `schema-element(N)` or `schema-attribute(N)`.
#[verifier::spinoff_prover]
fn parse_kind_test_sub_one(lex: &mut Lexer, ttype: TType, xnode_type: XNodeType)
    -> (res: Result<XNodePtr, XPathError>)
    requires
        old(lex).ready(),
        ttype != TType::EOF,
        xnode_type != XNodeType::Nil,
        xnode_type != XNodeType::TypedFunctionTest,
    ensures
        final(lex).moved_on_from(&*old(lex)),
        res matches Ok(x) ==> fn_tests_ok(x@),
        reads_as(
            spec_kind_test_one(old(lex).tokens_v(), old(lex).index_v(), ttype, xnode_type),
            res,
            final(lex).index_v(),
        ),
{
    proof {
        reveal(spec_kind_test_one);
    }
    proof {
        reveal_strlit("");
        assert(""@ =~= Seq::<char>::empty());
    }
    if lex.next_token().get_type() != ttype {
        return Ok(new_nil_xnode());
    }
    lex.get_token();
    if lex.next_token().get_type() != TType::LeftParen {
        return Err(syntax_error_here(lex, "an opening parenthesis is required"));
    }
    lex.get_token();
    let eqname = parse_eqname(lex, "")?;
    if str_eq(eqname.as_str(), "") {
        return Err(syntax_error_here(lex, "a name is required"));
    }
    if lex.next_token().get_type() != TType::RightParen {
        return Err(syntax_error_here(lex, "a closing parenthesis is required"));
    }
    lex.get_token();
    Ok(new_xnode(xnode_type, eqname.as_str()))
}

#[verifier::spinoff_prover]
fn parse_schema_element_test(lex: &mut Lexer) -> (res: Result<XNodePtr, XPathError>)
    requires
        old(lex).ready(),
    ensures
        final(lex).moved_on_from(&*old(lex)),
        res matches Ok(x) ==> fn_tests_ok(x@),
        reads_as(
            spec_kind_test_one(
                old(lex).tokens_v(),
                old(lex).index_v(),
                TType::SchemaElementTest,
                XNodeType::SchemaElementTest,
            ),
            res,
            final(lex).index_v(),
        ),
{
    parse_kind_test_sub_one(lex, TType::SchemaElementTest, XNodeType::SchemaElementTest)
}

#[verifier::spinoff_prover]
fn parse_schema_attribute_test(lex: &mut Lexer) -> (res: Result<XNodePtr, XPathError>)
    requires
        old(lex).ready(),
    ensures
        final(lex).moved_on_from(&*old(lex)),
        res matches Ok(x) ==> fn_tests_ok(x@),
        reads_as(
            spec_kind_test_one(
                old(lex).tokens_v(),
                old(lex).index_v(),
                TType::SchemaAttributeTest,
                XNodeType::SchemaAttributeTest,
            ),
            res,
            final(lex).index_v(),
        ),
{
    parse_kind_test_sub_one(lex, TType::SchemaAttributeTest, XNodeType::SchemaAttributeTest)
}

/// `processing-instruction(...)` with an optional name or string.
#[verifier::spinoff_prover]
fn parse_pi_test(lex: &mut Lexer) -> (res: Result<XNodePtr, XPathError>)
    requires
        old(lex).ready(),
    ensures
        final(lex).moved_on_from(&*old(lex)),
        res matches Ok(x) ==> fn_tests_ok(x@),
        reads_as(spec_pi_test(old(lex).tokens_v(), old(lex).index_v()), res, final(lex).index_v()),
{
    proof {
        reveal(spec_pi_test);
    }
    if lex.next_token().get_type() != TType::PITest {
        return Ok(new_nil_xnode());
    }
    lex.get_token();
    if lex.next_token().get_type() != TType::LeftParen {
        return Err(syntax_error_here(lex, "an opening parenthesis is required"));
    }
    lex.get_token();

    let tok = lex.next_token();
    let mut arg = String::new();
    match tok.get_type() {
        TType::Name | TType::StringLiteral => {
            lex.get_token();
            arg = String::from_str(tok.get_name());
        },
        TType::RightParen => {},
        _ => {
            return Err(syntax_error_here(lex, "a name or a string is required"));
        },
    }
    if lex.next_token().get_type() != TType::RightParen {
        return Err(syntax_error_here(lex, "a closing parenthesis is required"));
    }
    lex.get_token();
    Ok(new_xnode(XNodeType::PITest, arg.as_str()))
}

#[verifier::spinoff_prover]
fn parse_comment_test(lex: &mut Lexer) -> (res: Result<XNodePtr, XPathError>)
    requires
        old(lex).ready(),
    ensures
        final(lex).moved_on_from(&*old(lex)),
        res matches Ok(x) ==> fn_tests_ok(x@),
        reads_as(
            spec_kind_test_none(old(lex).tokens_v(), old(lex).index_v(), TType::CommentTest, XNodeType::CommentTest),
            res,
            final(lex).index_v(),
        ),
{
    parse_kind_test_sub_none(lex, TType::CommentTest, XNodeType::CommentTest)
}

#[verifier::spinoff_prover]
fn parse_text_test(lex: &mut Lexer) -> (res: Result<XNodePtr, XPathError>)
    requires
        old(lex).ready(),
    ensures
        final(lex).moved_on_from(&*old(lex)),
        res matches Ok(x) ==> fn_tests_ok(x@),
        reads_as(
            spec_kind_test_none(old(lex).tokens_v(), old(lex).index_v(), TType::TextTest, XNodeType::TextTest),
            res,
            final(lex).index_v(),
        ),
{
    parse_kind_test_sub_none(lex, TType::TextTest, XNodeType::TextTest)
}

#[verifier::spinoff_prover]
fn parse_namespace_node_test(lex: &mut Lexer) -> (res: Result<XNodePtr, XPathError>)
    requires
        old(lex).ready(),
    ensures
        final(lex).moved_on_from(&*old(lex)),
        res matches Ok(x) ==> fn_tests_ok(x@),
        reads_as(
            spec_kind_test_none(
                old(lex).tokens_v(),
                old(lex).index_v(),
                TType::NamespaceNodeTest,
                XNodeType::NamespaceNodeTest,
            ),
            res,
            final(lex).index_v(),
        ),
{
    parse_kind_test_sub_none(lex, TType::NamespaceNodeTest, XNodeType::NamespaceNodeTest)
}

#[verifier::spinoff_prover]
fn parse_any_kind_test(lex: &mut Lexer) -> (res: Result<XNodePtr, XPathError>)
    requires
        old(lex).ready(),
    ensures
        final(lex).moved_on_from(&*old(lex)),
        res matches Ok(x) ==> fn_tests_ok(x@),
        reads_as(
            spec_kind_test_none(old(lex).tokens_v(), old(lex).index_v(), TType::AnyKindTest, XNodeType::AnyKindTest),
            res,
            final(lex).index_v(),
        ),
{
    parse_kind_test_sub_none(lex, TType::AnyKindTest, XNodeType::AnyKindTest)
}

/// `element(...)`: an element name or `*` (by default `*`), and an optional
/// type name (by default `xs:anyType?`) below it.
#[verifier::spinoff_prover]
fn parse_element_test(lex: &mut Lexer) -> (res: Result<XNodePtr, XPathError>)
    requires
        old(lex).ready(),
    ensures
        final(lex).moved_on_from(&*old(lex)),
        res matches Ok(x) ==> fn_tests_ok(x@),
        reads_as(spec_element_test(old(lex).tokens_v(), old(lex).index_v()), res, final(lex).index_v()),
{
    proof {
        reveal(spec_element_test);
    }
    proof {
        reveal_strlit("");
        assert(""@ =~= Seq::<char>::empty());
    }
    if lex.next_token().get_type() != TType::ElementTest {
        return Ok(new_nil_xnode());
    }
    lex.get_token();
    if lex.next_token().get_type() != TType::LeftParen {
        return Err(syntax_error_here(lex, "an opening parenthesis is required"));
    }
    lex.get_token();

    let mut element_name_or_wildcard = parse_eqname(lex, "")?;
    if str_eq(element_name_or_wildcard.as_str(), "") {
        if lex.next_token().get_type() == TType::Asterisk {
            lex.get_token();
            element_name_or_wildcard = String::from_str("*");
        }
    }

    let mut type_name_text = String::from_str("xs:anyType?");
    if !str_eq(element_name_or_wildcard.as_str(), "") {
        if lex.next_token().get_type() == TType::Comma {
            lex.get_token();
            type_name_text = parse_eqname(lex, "xs")?;
            if str_eq(type_name_text.as_str(), "") {
                return Err(syntax_error_here(lex, "a type name must follow the comma"));
            }
            if lex.next_token().get_type() == TType::Question {
                lex.get_token();
                type_name_text.append("?");
            }
        }
    }

    if str_eq(element_name_or_wildcard.as_str(), "") {
        element_name_or_wildcard = String::from_str("*");
    }

    if lex.next_token().get_type() != TType::RightParen {
        return Err(syntax_error_here(lex, "a closing parenthesis is required"));
    }
    lex.get_token();

    let mut element_test_xnode = new_xnode(XNodeType::ElementTest, element_name_or_wildcard.as_str());
    let type_name_xnode = new_xnode(XNodeType::KindTestTypeName, type_name_text.as_str());
    assign_as_left(&mut element_test_xnode, type_name_xnode);
    Ok(element_test_xnode)
}

/// `attribute(...)`: an attribute name or `*` (by default `*`), and an
/// optional type name (by default `xs:anyType`) below it.
#[verifier::spinoff_prover]
fn parse_attribute_test(lex: &mut Lexer) -> (res: Result<XNodePtr, XPathError>)
    requires
        old(lex).ready(),
    ensures
        final(lex).moved_on_from(&*old(lex)),
        res matches Ok(x) ==> fn_tests_ok(x@),
        reads_as(spec_attribute_test(old(lex).tokens_v(), old(lex).index_v()), res, final(lex).index_v()),
{
    proof {
        reveal(spec_attribute_test);
    }
    proof {
        reveal_strlit("");
        assert(""@ =~= Seq::<char>::empty());
    }
    if lex.next_token().get_type() != TType::AttributeTest {
        return Ok(new_nil_xnode());
    }
    lex.get_token();
    if lex.next_token().get_type() != TType::LeftParen {
        return Err(syntax_error_here(lex, "an opening parenthesis is required"));
    }
    lex.get_token();

    let mut attribute_name_or_wildcard = parse_eqname(lex, "")?;
    if str_eq(attribute_name_or_wildcard.as_str(), "") {
        if lex.next_token().get_type() == TType::Asterisk {
            lex.get_token();
            attribute_name_or_wildcard = String::from_str("*");
        }
    }

    let mut type_name_text = String::from_str("xs:anyType");
    if !str_eq(attribute_name_or_wildcard.as_str(), "") {
        if lex.next_token().get_type() == TType::Comma {
            lex.get_token();
            type_name_text = parse_eqname(lex, "xs")?;
            if str_eq(type_name_text.as_str(), "") {
                return Err(syntax_error_here(lex, "a type name must follow the comma"));
            }
        }
    }

    if str_eq(attribute_name_or_wildcard.as_str(), "") {
        attribute_name_or_wildcard = String::from_str("*");
    }

    if lex.next_token().get_type() != TType::RightParen {
        return Err(syntax_error_here(lex, "a closing parenthesis is required"));
    }
    lex.get_token();

    let mut attribute_test_xnode = new_xnode(XNodeType::AttributeTest, attribute_name_or_wildcard.as_str());
    let type_name_xnode = new_xnode(XNodeType::KindTestTypeName, type_name_text.as_str());
    assign_as_left(&mut attribute_test_xnode, type_name_xnode);
    Ok(attribute_test_xnode)
}

/// `document-node(...)` with an optional element test inside.
#[verifier::spinoff_prover]
fn parse_document_test(lex: &mut Lexer) -> (res: Result<XNodePtr, XPathError>)
    requires
        old(lex).ready(),
    ensures
        final(lex).moved_on_from(&*old(lex)),
        res matches Ok(x) ==> fn_tests_ok(x@),
        reads_as(spec_document_test(old(lex).tokens_v(), old(lex).index_v()), res, final(lex).index_v()),
{
    proof {
        reveal(spec_document_test);
    }
    proof {
        reveal_strlit("");
        assert(""@ =~= Seq::<char>::empty());
    }
    if lex.next_token().get_type() != TType::DocumentTest {
        return Ok(new_nil_xnode());
    }
    lex.get_token();
    if lex.next_token().get_type() != TType::LeftParen {
        return Err(syntax_error_here(lex, "an opening parenthesis is required"));
    }
    lex.get_token();

    let mut s_xnode = parse_element_test(lex)?;
    if is_nil_xnode(&s_xnode) {
        s_xnode = parse_schema_element_test(lex)?;
    }

    if lex.next_token().get_type() != TType::RightParen {
        return Err(syntax_error_here(lex, "a closing parenthesis is required"));
    }
    lex.get_token();

    proof {
        reveal_strlit("");
        assert(""@ =~= Seq::<char>::empty());
    }
    let mut document_test_xnode = new_xnode(XNodeType::DocumentTest, "");
    assign_as_left(&mut document_test_xnode, s_xnode);
    Ok(document_test_xnode)
}

/// A kind test, wrapped in a `KindTest` node.
#[verifier::spinoff_prover]
fn parse_kind_test(lex: &mut Lexer) -> (res: Result<XNodePtr, XPathError>)
    requires
        old(lex).ready(),
    ensures
        final(lex).moved_on_from(&*old(lex)),
        res matches Ok(x) ==> fn_tests_ok(x@),
        reads_as(spec_kind_test(old(lex).tokens_v(), old(lex).index_v()), res, final(lex).index_v()),
{
    proof {
        reveal(spec_kind_test);
    }
    proof {
        reveal_strlit("");
        assert(""@ =~= Seq::<char>::empty());
    }
    let mut xnode = parse_document_test(lex)?;
    if is_nil_xnode(&xnode) {
        xnode = parse_element_test(lex)?;
    }
    if is_nil_xnode(&xnode) {
        xnode = parse_attribute_test(lex)?;
    }
    if is_nil_xnode(&xnode) {
        xnode = parse_schema_element_test(lex)?;
    }
    if is_nil_xnode(&xnode) {
        xnode = parse_schema_attribute_test(lex)?;
    }
    if is_nil_xnode(&xnode) {
        xnode = parse_pi_test(lex)?;
    }
    if is_nil_xnode(&xnode) {
        xnode = parse_comment_test(lex)?;
    }
    if is_nil_xnode(&xnode) {
        xnode = parse_text_test(lex)?;
    }
    if is_nil_xnode(&xnode) {
        xnode = parse_namespace_node_test(lex)?;
    }
    if is_nil_xnode(&xnode) {
        xnode = parse_any_kind_test(lex)?;
    }

    if !is_nil_xnode(&xnode) {
        proof {
            reveal_strlit("");
            assert(""@ =~= Seq::<char>::empty());
        }
        let mut kind_test_xnode = new_xnode(XNodeType::KindTest, "");
        assign_as_left(&mut kind_test_xnode, xnode);
        Ok(kind_test_xnode)
    } else {
        Ok(new_nil_xnode())
    }
}


// =====================================================================
// Building chains.

/// The nodes linked from the first: each takes the next as its right child
/// (a nil node is not linked, which ends the chain there).
fn link_right_chain(items: Vec<XNodePtr>) -> (x: XNodePtr)
    requires
        items@.len() >= 1,
        forall|i: int| 0 <= i < items@.len() ==> fn_tests_ok(#[trigger] items@[i]@),
    ensures
        x@ == link_chain(views(items@)),
        fn_tests_ok(x@),
        x@.n_type == items@[0]@.n_type,
        (forall|i: int| 0 <= i < items@.len() ==> (#[trigger] items@[i]@).right is None)
            ==> right_chain_len(x@) <= items@.len(),
{
    let ghost n0 = items@.len();
    let ghost orig = items@;
    let ghost vs = views(items@);
    let ghost no_right = forall|i: int| 0 <= i < items@.len() ==> (#[trigger] items@[i]@).right is None;
    let mut items = items;
    let mut tail = items.pop().unwrap();
    proof {
        assert(right_chain_len(nil_tree()) == 0);
        if no_right {
            assert(tail@.right is None);
            assert(xt_right(tail@) == nil_tree());
        }
        assert(vs.subrange(n0 - 1, n0 as int).len() == 1);
    }
    while items.len() > 0
        invariant
            forall|i: int| 0 <= i < items@.len() ==> fn_tests_ok(#[trigger] items@[i]@),
            fn_tests_ok(tail@),
            no_right ==> forall|i: int| 0 <= i < items@.len() ==> (#[trigger] items@[i]@).right is None,
            no_right ==> right_chain_len(tail@) + items@.len() <= n0,
            items@.len() < n0,
            n0 == orig.len(),
            vs == views(orig),
            items@ == orig.subrange(0, items@.len() as int),
            tail@.n_type == orig[items@.len() as int]@.n_type,
            tail@ == link_chain(vs.subrange(items@.len() as int, n0 as int)),
        decreases items@.len(),
    {
        let ghost k = items@.len() as int;
        let mut prev = items.pop().unwrap();
        proof {
            assert(right_chain_len(nil_tree()) == 0);
            if no_right {
                assert(prev@.right is None);
                assert(xt_right(prev@) == nil_tree());
            }
            assert(prev@ == orig[k - 1]@);
            assert(vs.subrange(k - 1, n0 as int).drop_first() =~= vs.subrange(k, n0 as int));
            assert(vs.subrange(k - 1, n0 as int)[0] == prev@);
        }
        assign_as_right(&mut prev, tail);
        tail = prev;
    }
    proof {
        assert(vs.subrange(0, n0 as int) =~= vs);
    }
    tail
}

// =====================================================================
// Sequence types.

/// `SequenceType ::= "empty-sequence" "(" ")" | ItemType OccurrenceIndicator?`
#[verifier::spinoff_prover]
fn parse_sequence_type(lex: &mut Lexer) -> (res: Result<XNodePtr, XPathError>)
    requires
        old(lex).ready(),
    ensures
        reads_as(spec_sequence_type(old(lex).tokens_v(), old(lex).index_v()), res, final(lex).index_v()),
        final(lex).moved_on_from(&*old(lex)),
        res matches Ok(x) ==> fn_tests_ok(x@),
        res matches Ok(x) ==> (x@.n_type != XNodeType::Nil ==> x@.n_type == XNodeType::SequenceType),
    decreases old(lex).tokens_v().len() - old(lex).index_v(), 3int,
{
    proof {
        reveal_strlit("");
        assert(""@ =~= Seq::<char>::empty());
    }
    let xnode = parse_kind_test_sub_none(lex, TType::EmptySequence, XNodeType::EmptySequenceTest)?;
    if !is_nil_xnode(&xnode) {
        let mut seq_type_xnode = new_xnode(XNodeType::SequenceType, "");
        assign_as_left(&mut seq_type_xnode, xnode);
        return Ok(seq_type_xnode);
    }

    let xnode = parse_item_type(lex)?;
    if !is_nil_xnode(&xnode) {
        let tok = lex.next_token();
        let mut occurence_indicator = String::new();
        match tok.get_type() {
            TType::Question | TType::Asterisk | TType::Plus => {
                lex.get_token();
                occurence_indicator = String::from_str(tok.get_name());
            },
            _ => {},
        }
        let mut seq_type_xnode = new_xnode(XNodeType::SequenceType, occurence_indicator.as_str());
        assign_as_left(&mut seq_type_xnode, xnode);
        return Ok(seq_type_xnode);
    }
    Ok(new_nil_xnode())
}

/// `ItemType ::= KindTest | "item" "(" ")" | FunctionTest | MapTest |
/// ArrayTest | AtomicOrUnionType | ParenthesizedItemType`
#[verifier::spinoff_prover]
fn parse_item_type(lex: &mut Lexer) -> (res: Result<XNodePtr, XPathError>)
    requires
        old(lex).ready(),
    ensures
        reads_as(spec_item_type(old(lex).tokens_v(), old(lex).index_v()), res, final(lex).index_v()),
        final(lex).moved_on_from(&*old(lex)),
        res matches Ok(x) ==> fn_tests_ok(x@),
    decreases old(lex).tokens_v().len() - old(lex).index_v(), 2int,
{
    proof {
        reveal_strlit("");
        assert(""@ =~= Seq::<char>::empty());
    }
    let xnode = parse_kind_test(lex)?;
    if !is_nil_xnode(&xnode) {
        return Ok(xnode);
    }
    let xnode = parse_kind_test_sub_none(lex, TType::Item, XNodeType::ItemTest)?;
    if !is_nil_xnode(&xnode) {
        return Ok(xnode);
    }
    let xnode = parse_function_test(lex)?;
    if !is_nil_xnode(&xnode) {
        return Ok(xnode);
    }
    let xnode = parse_map_test(lex)?;
    if !is_nil_xnode(&xnode) {
        return Ok(xnode);
    }
    let xnode = parse_array_test(lex)?;
    if !is_nil_xnode(&xnode) {
        return Ok(xnode);
    }
    let atomic_or_union_name = parse_eqname(lex, "xs")?;
    if !str_eq(atomic_or_union_name.as_str(), "") {
        return Ok(new_xnode(XNodeType::AtomicOrUnionType, atomic_or_union_name.as_str()));
    }
    let xnode = parse_parenthesized_item_type(lex)?;
    if !is_nil_xnode(&xnode) {
        return Ok(xnode);
    }
    Ok(new_nil_xnode())
}

/// `FunctionTest ::= "function" "(" "*" ")" |
/// "function" "(" (SequenceType ("," SequenceType)*)? ")" "as" SequenceType`;
/// a typed test keeps its return type and then its parameters in a chain on
/// the right.
#[verifier::spinoff_prover]
pub fn parse_function_test(lex: &mut Lexer) -> (res: Result<XNodePtr, XPathError>)
    requires
        old(lex).ready(),
    ensures
        reads_as(spec_function_test(old(lex).tokens_v(), old(lex).index_v()), res, final(lex).index_v()),
        final(lex).moved_on_from(&*old(lex)),
        res matches Ok(x) ==> fn_tests_ok(x@),
        res matches Ok(x) ==> (x@.n_type == XNodeType::Nil ==> final(lex).index_v() == old(lex).index_v()),
    decreases old(lex).tokens_v().len() - old(lex).index_v(), 1int,
{
    if lex.next_token().get_type() != TType::Function {
        return Ok(new_nil_xnode());
    }
    lex.get_token();
    if lex.next_token().get_type() != TType::LeftParen {
        return Err(syntax_error_here(lex, "a function test needs an opening parenthesis"));
    }
    lex.get_token();
    proof {
        reveal_strlit("");
        assert(""@ =~= Seq::<char>::empty());
    }
    if lex.next_token().get_type() == TType::Asterisk {
        lex.get_token();
        if lex.next_token().get_type() != TType::RightParen {
            return Err(syntax_error_here(lex, "a closing parenthesis must end the argument list"));
        }
        lex.get_token();
        return Ok(new_xnode(XNodeType::AnyFunctionTest, ""));
    }

    let sequence_type_list_xnode = parse_sequence_type_list(lex)?;

    if lex.next_token().get_type() != TType::RightParen {
        return Err(syntax_error_here(lex, "a closing parenthesis must end the argument list"));
    }
    lex.get_token();

    if lex.next_token().get_type() != TType::Name || !str_eq(lex.next_token().get_name(), "as") {
        return Err(syntax_error_here(lex, "the return type must be given after as"));
    }
    lex.get_token();

    let sequence_type_xnode = parse_sequence_type(lex)?;
    let mut return_type_xnode = new_xnode(XNodeType::ReturnType, "");
    assign_as_left(&mut return_type_xnode, sequence_type_xnode);
    assign_as_right(&mut return_type_xnode, sequence_type_list_xnode);

    let mut xnode = new_xnode(XNodeType::TypedFunctionTest, "");
    proof {
        assert(xt_left(xnode@) == nil_tree());
        assert(fn_tests_ok(nil_tree()));
    }
    assign_as_right(&mut xnode, return_type_xnode);
    Ok(xnode)
}

/// A chain of `Param` nodes, one for each sequence type of the list.
#[verifier::spinoff_prover]
fn parse_sequence_type_list(lex: &mut Lexer) -> (res: Result<XNodePtr, XPathError>)
    requires
        old(lex).ready(),
    ensures
        reads_as(spec_sequence_type_list(old(lex).tokens_v(), old(lex).index_v()), res, final(lex).index_v()),
        final(lex).moved_on_from(&*old(lex)),
        res matches Ok(x) ==> fn_tests_ok(x@),
    decreases old(lex).tokens_v().len() - old(lex).index_v(), 4int,
{
    let sequence_type_xnode = parse_sequence_type(lex)?;
    if is_nil_xnode(&sequence_type_xnode) {
        return Ok(sequence_type_xnode);
    }
    proof {
        reveal_strlit("");
        assert(""@ =~= Seq::<char>::empty());
    }
    let mut params: Vec<XNodePtr> = Vec::new();
    let mut top_param_xnode = new_xnode(XNodeType::Param, "");
    assign_as_left(&mut top_param_xnode, sequence_type_xnode);
    params.push(top_param_xnode);
    let ghost t = lex.tokens_v();
    let ghost i1 = lex.index_v();
    proof {
    assert(""@ =~= Seq::<char>::empty());
        assert(views(params@) =~= seq![top_param_xnode@]);
    }

    while lex.next_token().get_type() == TType::Comma
        invariant
            lex.moved_on_from(&*old(lex)),
            t == lex.tokens_v(),
            params@.len() >= 1,
            forall|i: int| 0 <= i < params@.len() ==> fn_tests_ok(#[trigger] params@[i]@),
            spec_sequence_type_list(t, old(lex).index_v())
                == linked(spec_sequence_type_params(t, lex.index_v(), views(params@))),
        decreases lex.tokens_v().len() - lex.index_v(),
    {
        let ghost p = lex.index_v();
        let ghost before = params@;
        lex.get_token();
        assert(lex.index_v() == p + 1);
        let sequence_type_xnode = parse_sequence_type(lex)?;
        let mut param_xnode = new_xnode(XNodeType::Param, "");
        assign_as_left(&mut param_xnode, sequence_type_xnode);
        params.push(param_xnode);
        proof {
            reveal_strlit("");
            assert(""@ =~= Seq::<char>::empty());
            assert(views(params@) =~= views(before).push(param_xnode@));
            assert(params@[0] == before[0]);
        }
    }
    Ok(link_right_chain(params))
}

/// `MapTest ::= "map" "(" "*" ")" | "map" "(" AtomicOrUnionType ","
/// SequenceType ")"`; `map(*)` reads as `map(xs:anyAtomicType, item()*)`.
#[verifier::spinoff_prover]
fn parse_map_test(lex: &mut Lexer) -> (res: Result<XNodePtr, XPathError>)
    requires
        old(lex).ready(),
    ensures
        reads_as(spec_map_test(old(lex).tokens_v(), old(lex).index_v()), res, final(lex).index_v()),
        final(lex).moved_on_from(&*old(lex)),
        res matches Ok(x) ==> fn_tests_ok(x@),
        res matches Ok(x) ==> (x@.n_type == XNodeType::Nil ==> final(lex).index_v() == old(lex).index_v()),
    decreases old(lex).tokens_v().len() - old(lex).index_v(), 1int,
{
    if lex.next_token().get_type() != TType::MapTest {
        return Ok(new_nil_xnode());
    }
    lex.get_token();
    if lex.next_token().get_type() != TType::LeftParen {
        return Err(syntax_error_here(lex, "an opening parenthesis is required"));
    }
    lex.get_token();
    proof {
        reveal_strlit("");
        assert(""@ =~= Seq::<char>::empty());
    }

    let mut xnode = new_xnode(XNodeType::MapTest, "");
    if lex.next_token().get_type() == TType::Asterisk {
        lex.get_token();
        let any_atomic_xnode = new_xnode(XNodeType::AtomicOrUnionType, "xs:anyAtomicType");
        assign_as_left(&mut xnode, any_atomic_xnode);
        let mut sequence_type_xnode = new_xnode(XNodeType::SequenceType, "*");
        let item_test_xnode = new_xnode(XNodeType::ItemTest, "");
        assign_as_left(&mut sequence_type_xnode, item_test_xnode);
        assign_as_right(&mut xnode, sequence_type_xnode);
    } else {
        let atomic_or_union_name = parse_eqname(lex, "xs")?;
        if str_eq(atomic_or_union_name.as_str(), "") {
            return Err(syntax_error_here(lex, "the key type is missing"));
        }
        let key_type_xnode = new_xnode(XNodeType::AtomicOrUnionType, atomic_or_union_name.as_str());
        assign_as_left(&mut xnode, key_type_xnode);

        if lex.next_token().get_type() != TType::Comma {
            return Err(syntax_error_here(lex, "a comma must separate the key type from the value type"));
        }
        lex.get_token();
        let sequence_type_xnode = parse_sequence_type(lex)?;
        assign_as_right(&mut xnode, sequence_type_xnode);
    }

    if lex.next_token().get_type() != TType::RightParen {
        return Err(syntax_error_here(lex, "a closing parenthesis is required"));
    }
    lex.get_token();
    Ok(xnode)
}

/// `ArrayTest ::= "array" "(" "*" ")" | "array" "(" SequenceType ")"`;
/// `array(*)` reads as `array(item()*)`.
#[verifier::spinoff_prover]
fn parse_array_test(lex: &mut Lexer) -> (res: Result<XNodePtr, XPathError>)
    requires
        old(lex).ready(),
    ensures
        reads_as(spec_array_test(old(lex).tokens_v(), old(lex).index_v()), res, final(lex).index_v()),
        final(lex).moved_on_from(&*old(lex)),
        res matches Ok(x) ==> fn_tests_ok(x@),
        res matches Ok(x) ==> (x@.n_type == XNodeType::Nil ==> final(lex).index_v() == old(lex).index_v()),
    decreases old(lex).tokens_v().len() - old(lex).index_v(), 1int,
{
    if lex.next_token().get_type() != TType::ArrayTest {
        return Ok(new_nil_xnode());
    }
    lex.get_token();
    if lex.next_token().get_type() != TType::LeftParen {
        return Err(syntax_error_here(lex, "an opening parenthesis is required"));
    }
    lex.get_token();
    proof {
        reveal_strlit("");
        assert(""@ =~= Seq::<char>::empty());
    }

    let mut xnode = new_xnode(XNodeType::ArrayTest, "");
    if lex.next_token().get_type() == TType::Asterisk {
        lex.get_token();
        let mut sequence_type_xnode = new_xnode(XNodeType::SequenceType, "*");
        let item_test_xnode = new_xnode(XNodeType::ItemTest, "");
        assign_as_left(&mut sequence_type_xnode, item_test_xnode);
        assign_as_left(&mut xnode, sequence_type_xnode);
    } else {
        let sequence_type_xnode = parse_sequence_type(lex)?;
        assign_as_left(&mut xnode, sequence_type_xnode);
    }

    if lex.next_token().get_type() != TType::RightParen {
        return Err(syntax_error_here(lex, "a closing parenthesis is required"));
    }
    lex.get_token();
    Ok(xnode)
}

/// `ParenthesizedItemType ::= "(" ItemType ")"`
#[verifier::spinoff_prover]
fn parse_parenthesized_item_type(lex: &mut Lexer) -> (res: Result<XNodePtr, XPathError>)
    requires
        old(lex).ready(),
    ensures
        reads_as(
            spec_parenthesized_item_type(old(lex).tokens_v(), old(lex).index_v()),
            res,
            final(lex).index_v(),
        ),
        final(lex).moved_on_from(&*old(lex)),
        res matches Ok(x) ==> fn_tests_ok(x@),
    decreases old(lex).tokens_v().len() - old(lex).index_v(), 1int,
{
    if lex.next_token().get_type() != TType::LeftParen {
        return Ok(new_nil_xnode());
    }
    lex.get_token();
    let xnode = parse_item_type(lex)?;
    if lex.next_token().get_type() != TType::RightParen {
        return Err(syntax_error_here(lex, "a closing parenthesis is required"));
    }
    lex.get_token();
    proof {
        reveal_strlit("");
        assert(""@ =~= Seq::<char>::empty());
    }
    let mut paren_xnode = new_xnode(XNodeType::ParenthesizedItemType, "");
    assign_as_left(&mut paren_xnode, xnode);
    Ok(paren_xnode)
}

/// `SingleType ::= TypeName "?"?`
#[verifier::spinoff_prover]
fn parse_single_type(lex: &mut Lexer) -> (res: Result<XNodePtr, XPathError>)
    requires
        old(lex).ready(),
    ensures
        reads_as(spec_single_type(old(lex).tokens_v(), old(lex).index_v()), res, final(lex).index_v()),
        final(lex).moved_on_from(&*old(lex)),
        res matches Ok(x) ==> fn_tests_ok(x@),
{
    proof {
        reveal_strlit("");
        assert(""@ =~= Seq::<char>::empty());
    }
    proof {
        reveal(spec_single_type);
    }
    let mut eqname = parse_eqname(lex, "")?;
    if !str_eq(eqname.as_str(), "") {
        let tok = lex.next_token();
        if tok.get_type() == TType::Question {
            lex.get_token();
            eqname.append(tok.get_name());
        }
        proof {
            reveal_strlit("");
            assert(""@ =~= Seq::<char>::empty());
        }
        let mut single_type_xnode = new_xnode(XNodeType::SingleType, "");
        let atomic_type_xnode = new_xnode(XNodeType::TypeName, eqname.as_str());
        assign_as_left(&mut single_type_xnode, atomic_type_xnode);
        return Ok(single_type_xnode);
    }
    Ok(new_nil_xnode())
}


// =====================================================================
// Checks on the next token.

/// An error of the kind "not implemented", with the tokens around the cursor.
fn unimplemented_here(lex: &Lexer, description: &str) -> (e: XPathError)
    requires
        lex.ready(),
    ensures
        e.kind == XPathErrorKind::Unimplemented,
        e.message@ == around_text(lex.tokens_v(), lex.index_v()) + ": "@ + description@,
{
    let context = lex.around_tokens();
    error_in_context(XPathErrorKind::Unimplemented, context.as_str(), description)
}

/// Succeeds when the token at the cursor is of kind `ttype`.
fn expect_ttype(lex: &Lexer, ttype: TType, description: &str) -> (res: Result<(), XPathError>)
    requires
        lex.ready(),
    ensures
        res is Ok <==> lex.current().0 == ttype,
        res matches Err(e) ==> e.kind == XPathErrorKind::SyntaxError,
{
    if lex.next_token().get_type() != ttype {
        return Err(syntax_error_here(lex, description));
    }
    Ok(())
}

/// Succeeds when the token at the cursor is the name `name`. The lexer
/// leaves `then`, `else`, `in`, `return`, `satisfies` and `as` as plain
/// names, so this is the check for those words.
fn expect_name(lex: &Lexer, name: &str, description: &str) -> (res: Result<(), XPathError>)
    requires
        lex.ready(),
    ensures
        res is Ok <==> (lex.current().0 == TType::Name && lex.current().1 == name@),
        res matches Err(e) ==> e.kind == XPathErrorKind::SyntaxError,
{
    let tok = lex.next_token();
    if tok.get_type() != TType::Name || !str_eq(tok.get_name(), name) {
        return Err(syntax_error_here(lex, description));
    }
    Ok(())
}

/// Whether the token at the cursor is the name `as`.
fn at_name_as(lex: &Lexer) -> (b: bool)
    requires
        lex.ready(),
    ensures
        b == (lex.current().0 == TType::Name && lex.current().1 == "as"@),
{
    let tok = lex.next_token();
    tok.get_type() == TType::Name && str_eq(tok.get_name(), "as")
}

// =====================================================================
// Axes.

fn is_xnode_reverse_axis(n_type: XNodeType) -> (b: bool)
    ensures
        b == spec_is_reverse_axis(n_type),
{
    match n_type {
        XNodeType::AxisParent | XNodeType::AxisAncestor | XNodeType::AxisAncestorOrSelf
        | XNodeType::AxisPreceding | XNodeType::AxisPrecedingSibling => true,
        _ => false,
    }
}

fn axis_from_name(name: &str) -> (r: Option<XNodeType>)
    ensures
        r == spec_axis_from_name(name@),
{
    if str_eq(name, "ancestor") {
        Some(XNodeType::AxisAncestor)
    } else if str_eq(name, "ancestor-or-self") {
        Some(XNodeType::AxisAncestorOrSelf)
    } else if str_eq(name, "attribute") {
        Some(XNodeType::AxisAttribute)
    } else if str_eq(name, "child") {
        Some(XNodeType::AxisChild)
    } else if str_eq(name, "descendant") {
        Some(XNodeType::AxisDescendant)
    } else if str_eq(name, "descendant-or-self") {
        Some(XNodeType::AxisDescendantOrSelf)
    } else if str_eq(name, "following") {
        Some(XNodeType::AxisFollowing)
    } else if str_eq(name, "following-sibling") {
        Some(XNodeType::AxisFollowingSibling)
    } else if str_eq(name, "namespace") {
        Some(XNodeType::AxisNamespace)
    } else if str_eq(name, "parent") {
        Some(XNodeType::AxisParent)
    } else if str_eq(name, "preceding") {
        Some(XNodeType::AxisPreceding)
    } else if str_eq(name, "preceding-sibling") {
        Some(XNodeType::AxisPrecedingSibling)
    } else if str_eq(name, "self") {
        Some(XNodeType::AxisSelf)
    } else {
        None
    }
}

// =====================================================================
// Primary expressions without subexpressions.

/// `Literal ::= NumericLiteral | StringLiteral`: a node of the literal's
/// kind whose name is its text.
#[verifier::spinoff_prover]
fn parse_literal(lex: &mut Lexer) -> (res: Result<XNodePtr, XPathError>)
    requires
        old(lex).ready(),
    ensures
        final(lex).moved_on_from(&*old(lex)),
        res matches Ok(x) ==> fn_tests_ok(x@),
        reads_as(spec_literal(old(lex).tokens_v(), old(lex).index_v()), res, final(lex).index_v()),
{
    let tok = lex.next_token();
    match tok.get_type() {
        TType::StringLiteral => {
            lex.get_token();
            Ok(new_xnode(XNodeType::StringLiteral, tok.get_name()))
        },
        TType::IntegerLiteral => {
            lex.get_token();
            Ok(new_xnode(XNodeType::IntegerLiteral, tok.get_name()))
        },
        TType::DecimalLiteral => {
            lex.get_token();
            Ok(new_xnode(XNodeType::DecimalLiteral, tok.get_name()))
        },
        TType::DoubleLiteral => {
            lex.get_token();
            Ok(new_xnode(XNodeType::DoubleLiteral, tok.get_name()))
        },
        _ => Ok(new_nil_xnode()),
    }
}

/// `VarRef ::= "$" VarName`: a `VarRef` node named by the variable.
#[verifier::spinoff_prover]
fn parse_varref(lex: &mut Lexer) -> (res: Result<XNodePtr, XPathError>)
    requires
        old(lex).ready(),
    ensures
        final(lex).moved_on_from(&*old(lex)),
        res matches Ok(x) ==> fn_tests_ok(x@),
        reads_as(spec_varref(old(lex).tokens_v(), old(lex).index_v()), res, final(lex).index_v()),
{
    if lex.next_token().get_type() != TType::Dollar {
        return Ok(new_nil_xnode());
    }
    lex.get_token();
    proof {
        reveal_strlit("");
        assert(""@ =~= Seq::<char>::empty());
    }
    let eqname = parse_eqname(lex, "")?;
    if !str_eq(eqname.as_str(), "") {
        Ok(new_xnode(XNodeType::VarRef, eqname.as_str()))
    } else {
        Err(syntax_error_here(lex, "a variable reference needs a name after $"))
    }
}

/// `ContextItemExpr ::= "."`
#[verifier::spinoff_prover]
fn parse_context_item_expr(lex: &mut Lexer) -> (res: Result<XNodePtr, XPathError>)
    requires
        old(lex).ready(),
    ensures
        final(lex).moved_on_from(&*old(lex)),
        res matches Ok(x) ==> fn_tests_ok(x@),
        reads_as(spec_context_item(old(lex).tokens_v(), old(lex).index_v()), res, final(lex).index_v()),
{
    if lex.next_token().get_type() == TType::Dot {
        lex.get_token();
        Ok(new_xnode(XNodeType::ContextItem, "."))
    } else {
        Ok(new_nil_xnode())
    }
}

/// `NamedFunctionRef ::= EQName "#" IntegerLiteral`: a `NamedFunctionRef`
/// node named `name#arity`; anything else leaves the cursor where it was.
#[verifier::spinoff_prover]
fn parse_named_function_ref(lex: &mut Lexer) -> (res: Result<XNodePtr, XPathError>)
    requires
        old(lex).ready(),
    ensures
        final(lex).moved_on_from(&*old(lex)),
        res matches Ok(x) ==> fn_tests_ok(x@),
        reads_as(spec_named_function_ref(old(lex).tokens_v(), old(lex).index_v()), res, final(lex).index_v()),
{
    lex.mark_token_index();
    let func_name = parse_static_func_name(lex)?;
    proof {
        reveal_strlit("");
        assert(""@ =~= Seq::<char>::empty());
    }
    if str_eq(func_name.as_str(), "") {
        lex.restore_marked_index();
        return Ok(new_nil_xnode());
    }
    if lex.next_token().get_type() != TType::Sharp {
        lex.restore_marked_index();
        return Ok(new_nil_xnode());
    }
    lex.get_token();
    let tok = lex.next_token();
    if tok.get_type() != TType::IntegerLiteral {
        lex.restore_marked_index();
        return Ok(new_nil_xnode());
    }
    lex.get_token();
    let mut name = func_name;
    name.append("#");
    name.append(tok.get_name());
    Ok(new_xnode(XNodeType::NamedFunctionRef, name.as_str()))
}

/// The sequence type `item()*`, which a parameter or an inline function
/// without a declared type has.
fn default_sequence_type() -> (x: XNodePtr)
    ensures
        x@ == spec_default_sequence_type(),
        fn_tests_ok(x@),
{
    proof {
        reveal_strlit("");
        assert(""@ =~= Seq::<char>::empty());
    }
    let mut xnode = new_xnode(XNodeType::SequenceType, "*");
    let item_test_xnode = new_xnode(XNodeType::ItemTest, "");
    assert(item_test_xnode@.name =~= Seq::<char>::empty());
    assign_as_left(&mut xnode, item_test_xnode);
    xnode
}

/// `Param ::= "$" EQName TypeDeclaration?`: a `Param` node named by the
/// parameter, with its sequence type (by default `item()*`) on the left.
#[verifier::spinoff_prover]
fn parse_param(lex: &mut Lexer) -> (res: Result<XNodePtr, XPathError>)
    requires
        old(lex).ready(),
    ensures
        final(lex).moved_on_from(&*old(lex)),
        res matches Ok(x) ==> fn_tests_ok(x@),
        reads_as(spec_param(old(lex).tokens_v(), old(lex).index_v()), res, final(lex).index_v()),
{
    proof {
        reveal_strlit("");
        assert(""@ =~= Seq::<char>::empty());
    }
    if lex.next_token().get_type() != TType::Dollar {
        return Ok(new_nil_xnode());
    }
    lex.get_token();
    let param_name = parse_eqname(lex, "")?;
    if str_eq(param_name.as_str(), "") {
        return Err(syntax_error_here(lex, "a parameter needs a name"));
    }
    let mut param_xnode = new_xnode(XNodeType::Param, param_name.as_str());
    if at_name_as(lex) {
        lex.get_token();
        let seq_type_xnode = parse_sequence_type(lex)?;
        assign_as_left(&mut param_xnode, seq_type_xnode);
    } else {
        assign_as_left(&mut param_xnode, default_sequence_type());
    }
    Ok(param_xnode)
}

/// `ParamList ::= Param ("," Param)*`: the parameters linked on the right.
#[verifier::spinoff_prover]
fn parse_param_list(lex: &mut Lexer) -> (res: Result<XNodePtr, XPathError>)
    requires
        old(lex).ready(),
    ensures
        final(lex).moved_on_from(&*old(lex)),
        res matches Ok(x) ==> fn_tests_ok(x@),
        reads_as(spec_param_list(old(lex).tokens_v(), old(lex).index_v()), res, final(lex).index_v()),
{
    let top_param_xnode = parse_param(lex)?;
    if is_nil_xnode(&top_param_xnode) {
        return Ok(top_param_xnode);
    }
    let mut params: Vec<XNodePtr> = Vec::new();
    params.push(top_param_xnode);
    let ghost t = lex.tokens_v();
    proof {
        assert(views(params@) =~= seq![top_param_xnode@]);
    }
    while lex.next_token().get_type() == TType::Comma
        invariant
            lex.moved_on_from(&*old(lex)),
            t == lex.tokens_v(),
            params@.len() >= 1,
            forall|i: int| 0 <= i < params@.len() ==> fn_tests_ok(#[trigger] params@[i]@),
            spec_param_list(t, old(lex).index_v()) == linked(spec_param_loop(t, lex.index_v(), views(params@))),
        decreases lex.tokens_v().len() - lex.index_v(),
    {
        let ghost before = params@;
        let ghost p = lex.index_v();
        lex.get_token();
        assert(lex.index_v() == p + 1);
        let param_xnode = parse_param(lex)?;
        params.push(param_xnode);
        proof {
            assert(views(params@) =~= views(before).push(param_xnode@));
        }
    }
    Ok(link_right_chain(params))
}


// =====================================================================
// Expressions.

fn bin_op_node_type(level: BinLevel, t: TType) -> (r: Option<XNodeType>)
    ensures
        r == spec_bin_op(level, t),
{
    match level {
        BinLevel::Expr => if t == TType::Comma { Some(XNodeType::OperatorConcatenate) } else { None },
        BinLevel::Or => if t == TType::Or { Some(XNodeType::OperatorOr) } else { None },
        BinLevel::And => if t == TType::And { Some(XNodeType::OperatorAnd) } else { None },
        BinLevel::Comparison => match t {
            TType::ValueEQ => Some(XNodeType::OperatorValueEQ),
            TType::ValueNE => Some(XNodeType::OperatorValueNE),
            TType::ValueLT => Some(XNodeType::OperatorValueLT),
            TType::ValueGT => Some(XNodeType::OperatorValueGT),
            TType::ValueLE => Some(XNodeType::OperatorValueLE),
            TType::ValueGE => Some(XNodeType::OperatorValueGE),
            TType::GeneralEQ => Some(XNodeType::OperatorGeneralEQ),
            TType::GeneralNE => Some(XNodeType::OperatorGeneralNE),
            TType::GeneralLT => Some(XNodeType::OperatorGeneralLT),
            TType::GeneralGT => Some(XNodeType::OperatorGeneralGT),
            TType::GeneralLE => Some(XNodeType::OperatorGeneralLE),
            TType::GeneralGE => Some(XNodeType::OperatorGeneralGE),
            TType::IsSameNode => Some(XNodeType::OperatorIsSameNode),
            TType::NodeBefore => Some(XNodeType::OperatorNodeBefore),
            TType::NodeAfter => Some(XNodeType::OperatorNodeAfter),
            _ => None,
        },
        BinLevel::StringConcat => if t == TType::OperatorConcat { Some(XNodeType::OperatorConcat) } else { None },
        BinLevel::Range => if t == TType::To { Some(XNodeType::OperatorTo) } else { None },
        BinLevel::Additive => match t {
            TType::Plus => Some(XNodeType::OperatorAdd),
            TType::Minus => Some(XNodeType::OperatorSubtract),
            _ => None,
        },
        BinLevel::Multiplicative => match t {
            TType::Asterisk => Some(XNodeType::OperatorMultiply),
            TType::Div => Some(XNodeType::OperatorDiv),
            TType::IDiv => Some(XNodeType::OperatorIDiv),
            TType::Mod => Some(XNodeType::OperatorMod),
            _ => None,
        },
        BinLevel::Union => if t == TType::Union { Some(XNodeType::OperatorUnion) } else { None },
        BinLevel::IntersectExcept => match t {
            TType::Intersect => Some(XNodeType::OperatorIntersect),
            TType::Except => Some(XNodeType::OperatorExcept),
            _ => None,
        },
        BinLevel::SimpleMap => if t == TType::OperatorMap { Some(XNodeType::OperatorMap) } else { None },
    }
}

/// The levels whose operator joins two operands at most: comparisons and
/// ranges do not chain.
fn bin_op_once(level: BinLevel) -> (b: bool)
    ensures
        b == spec_bin_once(level),
{
    match level {
        BinLevel::Comparison | BinLevel::Range => true,
        _ => false,
    }
}

/// One operand of a level: the rule of the level below.
#[verifier::spinoff_prover]
fn parse_bin_operand(lex: &mut Lexer, level: BinLevel) -> (res: Result<XNodePtr, XPathError>)
    requires
        old(lex).ready(),
    ensures
        reads_as(spec_bin_operand(old(lex).tokens_v(), old(lex).index_v(), level), res, final(lex).index_v()),
        final(lex).moved_on_from(&*old(lex)),
        res matches Ok(x) ==> fn_tests_ok(x@),
    decreases old(lex).tokens_v().len() - old(lex).index_v(), bin_rank(level) - 30,
{
    proof {
        reveal(spec_bin_operand);
        reveal(spec_expr_single);
        reveal(spec_bin);
        reveal(spec_instanceof);
        reveal(spec_path);
    }
    match level {
        BinLevel::Expr => parse_expr_single(lex),
        BinLevel::Or => parse_and_expr(lex),
        BinLevel::And => parse_comparison_expr(lex),
        BinLevel::Comparison => parse_string_concat_expr(lex),
        BinLevel::StringConcat => parse_range_expr(lex),
        BinLevel::Range => parse_additive_expr(lex),
        BinLevel::Additive => parse_multiplicative_expr(lex),
        BinLevel::Multiplicative => parse_union_expr(lex),
        BinLevel::Union => parse_intersect_except_expr(lex),
        BinLevel::IntersectExcept => parse_instanceof_expr(lex),
        BinLevel::SimpleMap => parse_path_expr(lex),
    }
}

/// `operand (op operand)*`, joined to the left: each operator becomes a node
/// named by its text, with the operands so far on the left and the next on
/// the right. Comparisons and ranges take one operator at most.
#[verifier::spinoff_prover]
fn parse_bin_op_sub(lex: &mut Lexer, level: BinLevel) -> (res: Result<XNodePtr, XPathError>)
    requires
        old(lex).ready(),
    ensures
        reads_as(spec_bin(old(lex).tokens_v(), old(lex).index_v(), level), res, final(lex).index_v()),
        final(lex).moved_on_from(&*old(lex)),
        res matches Ok(x) ==> fn_tests_ok(x@),
    decreases old(lex).tokens_v().len() - old(lex).index_v(), bin_rank(level),
{
    proof {
        reveal(spec_bin);
        reveal(spec_bin_operand);
        reveal(spec_bin_loop);
    }
    let ghost t = lex.tokens_v();
    let mut xnode = parse_bin_operand(lex, level)?;
    loop
        invariant_except_break
            spec_bin(t, old(lex).index_v(), level) == spec_bin_loop(t, lex.index_v(), level, xnode@),
        invariant
            lex.moved_on_from(&*old(lex)),
            t == lex.tokens_v(),
            fn_tests_ok(xnode@),
        ensures
            spec_bin(t, old(lex).index_v(), level) == Ok::<(XTree, int), XPathErrorKind>((xnode@, lex.index_v())),
        decreases lex.tokens_v().len() - lex.index_v(),
    {
        proof {
            reveal(spec_bin);
            reveal(spec_bin_operand);
            reveal(spec_bin_loop);
        }
        let ghost p = lex.index_v();
        let tok = lex.next_token();
        let n_type = match bin_op_node_type(level, tok.get_type()) {
            Some(t) => t,
            None => break,
        };
        lex.get_token();
        assert(lex.index_v() == p + 1);
        let next_node = parse_bin_operand(lex, level)?;
        let mut xnode_op = new_xnode(n_type, tok.get_name());
        assign_as_left(&mut xnode_op, xnode);
        assign_as_right(&mut xnode_op, next_node);
        xnode = xnode_op;
        if bin_op_once(level) {
            break;
        }
    }
    Ok(xnode)
}

/// `Expr ::= ExprSingle ("," ExprSingle)*`
#[verifier::spinoff_prover]
fn parse_expr(lex: &mut Lexer) -> (res: Result<XNodePtr, XPathError>)
    requires
        old(lex).ready(),
    ensures
        reads_as(spec_expr(old(lex).tokens_v(), old(lex).index_v()), res, final(lex).index_v()),
        final(lex).moved_on_from(&*old(lex)),
        res matches Ok(x) ==> fn_tests_ok(x@),
    decreases old(lex).tokens_v().len() - old(lex).index_v(), 1400int,
{
    proof {
        reveal(spec_expr);
        reveal(spec_bin);
    }
    parse_bin_op_sub(lex, BinLevel::Expr)
}

/// `ExprSingle ::= ForExpr | LetExpr | QuantifiedExpr | IfExpr | OrExpr`
#[verifier::spinoff_prover]
fn parse_expr_single(lex: &mut Lexer) -> (res: Result<XNodePtr, XPathError>)
    requires
        old(lex).ready(),
    ensures
        reads_as(spec_expr_single(old(lex).tokens_v(), old(lex).index_v()), res, final(lex).index_v()),
        final(lex).moved_on_from(&*old(lex)),
        res matches Ok(x) ==> fn_tests_ok(x@),
    decreases old(lex).tokens_v().len() - old(lex).index_v(), 1300int,
{
    proof {
        reveal(spec_expr_single);
        reveal(spec_for_expr);
        reveal(spec_let_expr);
        reveal(spec_quantified_expr);
        reveal(spec_if_expr);
        reveal(spec_bin);
    }
    let xnode = parse_for_expr(lex)?;
    if !is_nil_xnode(&xnode) {
        return Ok(xnode);
    }
    let xnode = parse_let_expr(lex)?;
    if !is_nil_xnode(&xnode) {
        return Ok(xnode);
    }
    let xnode = parse_quantified_expr(lex)?;
    if !is_nil_xnode(&xnode) {
        return Ok(xnode);
    }
    let xnode = parse_if_expr(lex)?;
    if !is_nil_xnode(&xnode) {
        return Ok(xnode);
    }
    parse_or_expr(lex)
}

/// `ForExpr ::= "for" SimpleForBinding ("," SimpleForBinding)* "return"
/// ExprSingle`: a `ForExpr` node, then its bindings and the returned
/// expression in a chain on the right.
#[verifier::spinoff_prover]
fn parse_for_expr(lex: &mut Lexer) -> (res: Result<XNodePtr, XPathError>)
    requires
        old(lex).ready(),
    ensures
        reads_as(spec_for_expr(old(lex).tokens_v(), old(lex).index_v()), res, final(lex).index_v()),
        final(lex).moved_on_from(&*old(lex)),
        res matches Ok(x) ==> fn_tests_ok(x@),
        res matches Ok(x) ==> (x@.n_type == XNodeType::Nil ==> final(lex).index_v() == old(lex).index_v()),
        res matches Ok(x) ==> (x@.n_type != XNodeType::Nil ==> x@.n_type == XNodeType::ForExpr),
    decreases old(lex).tokens_v().len() - old(lex).index_v(), 1int,
{
    proof {
        reveal(spec_for_expr);
        reveal(spec_bound_expr);
        reveal(spec_binding_loop);
        reveal(spec_binding);
        reveal(spec_expr_single);
    }
    if lex.next_token().get_type() != TType::For {
        return Ok(new_nil_xnode());
    }
    lex.get_token();
    let ghost t = lex.tokens_v();
    let ghost p0 = lex.index_v();
    let mut chain: Vec<XNodePtr> = Vec::new();
    chain.push(new_xnode(XNodeType::ForExpr, "for"));
    proof {
        assert(views(chain@) =~= seq![chain@[0]@]);
        assert(spec_for_expr(t, old(lex).index_v()) == spec_bound_expr(
            t,
            old(lex).index_v(),
            p0,
            XNodeType::ForVarBind,
            leaf(XNodeType::ForExpr, "for"@),
            "return"@,
        ));
    }
    loop
        invariant_except_break
            spec_binding_loop(t, p0, XNodeType::ForVarBind, seq![chain@[0]@])
                == spec_binding_loop(t, lex.index_v(), XNodeType::ForVarBind, views(chain@)),
        invariant
            p0 == old(lex).index_v() + 1,
            chain@[0]@ == leaf(XNodeType::ForExpr, "for"@),
            spec_for_expr(t, old(lex).index_v()) == spec_bound_expr(
                t,
                old(lex).index_v(),
                p0,
                XNodeType::ForVarBind,
                leaf(XNodeType::ForExpr, "for"@),
                "return"@,
            ),
            lex.moved_on_from(&*old(lex)),
            t == lex.tokens_v(),
            lex.index_v() > old(lex).index_v(),
            chain@.len() >= 1,
            chain@[0]@.n_type == XNodeType::ForExpr,
            forall|i: int| 0 <= i < chain@.len() ==> fn_tests_ok(#[trigger] chain@[i]@),
        ensures
            spec_binding_loop(t, p0, XNodeType::ForVarBind, seq![chain@[0]@])
                == Ok::<(Seq<XTree>, int), XPathErrorKind>((views(chain@), lex.index_v())),
        decreases lex.tokens_v().len() - lex.index_v(),
    {
        proof {
            reveal(spec_for_expr);
            reveal(spec_bound_expr);
            reveal(spec_binding_loop);
            reveal(spec_binding);
            reveal(spec_expr_single);
        }
        let ghost before = chain@;
        let var_bind_xnode = parse_simple_for_binding(lex)?;
        if is_nil_xnode(&var_bind_xnode) {
            break;
        }
        chain.push(var_bind_xnode);
        proof {
            assert(views(chain@) =~= views(before).push(var_bind_xnode@));
            assert(chain@[0] == before[0]);
        }
        let ghost q = lex.index_v();
        if lex.next_token().get_type() != TType::Comma {
            break;
        }
        lex.get_token();
        assert(lex.index_v() == q + 1);
    }
    expect_name(lex, "return", "a for expression needs return")?;
    lex.get_token();
    let expr_single_xnode = parse_expr_single(lex)?;
    let ghost bindings = views(chain@);
    chain.push(expr_single_xnode);
    proof {
        assert(views(chain@) =~= bindings.push(expr_single_xnode@));
    }
    Ok(link_right_chain(chain))
}

/// `SimpleForBinding ::= "$" VarName "in" ExprSingle`
#[verifier::spinoff_prover]
fn parse_simple_for_binding(lex: &mut Lexer) -> (res: Result<XNodePtr, XPathError>)
    requires
        old(lex).ready(),
    ensures
        reads_as(
            spec_binding(old(lex).tokens_v(), old(lex).index_v(), XNodeType::ForVarBind),
            res,
            final(lex).index_v(),
        ),
        final(lex).moved_on_from(&*old(lex)),
        res matches Ok(x) ==> fn_tests_ok(x@),
    decreases old(lex).tokens_v().len() - old(lex).index_v(), 2int,
{
    parse_simple_binding(lex, XNodeType::ForVarBind)
}

/// `LetExpr ::= "let" SimpleLetBinding ("," SimpleLetBinding)* "return"
/// ExprSingle`, built as a for expression is.
#[verifier::spinoff_prover]
fn parse_let_expr(lex: &mut Lexer) -> (res: Result<XNodePtr, XPathError>)
    requires
        old(lex).ready(),
    ensures
        reads_as(spec_let_expr(old(lex).tokens_v(), old(lex).index_v()), res, final(lex).index_v()),
        final(lex).moved_on_from(&*old(lex)),
        res matches Ok(x) ==> fn_tests_ok(x@),
        res matches Ok(x) ==> (x@.n_type == XNodeType::Nil ==> final(lex).index_v() == old(lex).index_v()),
        res matches Ok(x) ==> (x@.n_type != XNodeType::Nil ==> x@.n_type == XNodeType::LetExpr),
    decreases old(lex).tokens_v().len() - old(lex).index_v(), 1int,
{
    proof {
        reveal(spec_let_expr);
        reveal(spec_bound_expr);
        reveal(spec_binding_loop);
        reveal(spec_binding);
        reveal(spec_expr_single);
    }
    if lex.next_token().get_type() != TType::Let {
        return Ok(new_nil_xnode());
    }
    lex.get_token();
    let ghost t = lex.tokens_v();
    let ghost p0 = lex.index_v();
    let mut chain: Vec<XNodePtr> = Vec::new();
    chain.push(new_xnode(XNodeType::LetExpr, "let"));
    proof {
        assert(views(chain@) =~= seq![chain@[0]@]);
        assert(spec_let_expr(t, old(lex).index_v()) == spec_bound_expr(
            t,
            old(lex).index_v(),
            p0,
            XNodeType::LetVarBind,
            leaf(XNodeType::LetExpr, "let"@),
            "return"@,
        ));
    }
    loop
        invariant_except_break
            spec_binding_loop(t, p0, XNodeType::LetVarBind, seq![chain@[0]@])
                == spec_binding_loop(t, lex.index_v(), XNodeType::LetVarBind, views(chain@)),
        invariant
            p0 == old(lex).index_v() + 1,
            chain@[0]@ == leaf(XNodeType::LetExpr, "let"@),
            spec_let_expr(t, old(lex).index_v()) == spec_bound_expr(
                t,
                old(lex).index_v(),
                p0,
                XNodeType::LetVarBind,
                leaf(XNodeType::LetExpr, "let"@),
                "return"@,
            ),
            lex.moved_on_from(&*old(lex)),
            t == lex.tokens_v(),
            lex.index_v() > old(lex).index_v(),
            chain@.len() >= 1,
            chain@[0]@.n_type == XNodeType::LetExpr,
            forall|i: int| 0 <= i < chain@.len() ==> fn_tests_ok(#[trigger] chain@[i]@),
        ensures
            spec_binding_loop(t, p0, XNodeType::LetVarBind, seq![chain@[0]@])
                == Ok::<(Seq<XTree>, int), XPathErrorKind>((views(chain@), lex.index_v())),
        decreases lex.tokens_v().len() - lex.index_v(),
    {
        proof {
            reveal(spec_let_expr);
            reveal(spec_bound_expr);
            reveal(spec_binding_loop);
            reveal(spec_binding);
            reveal(spec_expr_single);
        }
        let ghost before = chain@;
        let var_bind_xnode = parse_simple_let_binding(lex)?;
        if is_nil_xnode(&var_bind_xnode) {
            break;
        }
        chain.push(var_bind_xnode);
        proof {
            assert(views(chain@) =~= views(before).push(var_bind_xnode@));
            assert(chain@[0] == before[0]);
        }
        let ghost q = lex.index_v();
        if lex.next_token().get_type() != TType::Comma {
            break;
        }
        lex.get_token();
        assert(lex.index_v() == q + 1);
    }
    expect_name(lex, "return", "a let expression needs return")?;
    lex.get_token();
    let expr_single_xnode = parse_expr_single(lex)?;
    let ghost bindings = views(chain@);
    chain.push(expr_single_xnode);
    proof {
        assert(views(chain@) =~= bindings.push(expr_single_xnode@));
    }
    Ok(link_right_chain(chain))
}

/// `SimpleLetBinding ::= "$" VarName ":=" ExprSingle`: a `LetVarBind` node
/// named by the variable, with the expression on the left.
#[verifier::spinoff_prover]
fn parse_simple_let_binding(lex: &mut Lexer) -> (res: Result<XNodePtr, XPathError>)
    requires
        old(lex).ready(),
    ensures
        reads_as(
            spec_binding(old(lex).tokens_v(), old(lex).index_v(), XNodeType::LetVarBind),
            res,
            final(lex).index_v(),
        ),
        final(lex).moved_on_from(&*old(lex)),
        res matches Ok(x) ==> fn_tests_ok(x@),
        res matches Ok(x) ==> (x@.n_type == XNodeType::Nil ==> final(lex).index_v() == old(lex).index_v()),
        res matches Ok(x) ==> (x@.n_type != XNodeType::Nil ==> x@.n_type == XNodeType::LetVarBind),
    decreases old(lex).tokens_v().len() - old(lex).index_v(), 1int,
{
    proof {
        reveal(spec_binding);
        reveal(spec_expr_single);
    }
    proof {
        reveal_strlit("");
        assert(""@ =~= Seq::<char>::empty());
    }
    if lex.next_token().get_type() != TType::Dollar {
        return Ok(new_nil_xnode());
    }
    lex.get_token();
    let var_name = parse_eqname(lex, "")?;
    if str_eq(var_name.as_str(), "") {
        return Err(syntax_error_here(lex, "a variable name must follow $"));
    }
    expect_ttype(lex, TType::Bind, "a variable name must be followed by :=")?;
    lex.get_token();
    let expr_single_xnode = parse_expr_single(lex)?;
    let mut var_bind_xnode = new_xnode(XNodeType::LetVarBind, var_name.as_str());
    assign_as_left(&mut var_bind_xnode, expr_single_xnode);
    Ok(var_bind_xnode)
}

/// `QuantifiedExpr ::= ("some" | "every") "$" VarName "in" ExprSingle
/// ("," "$" VarName "in" ExprSingle)* "satisfies" ExprSingle`, built as a
/// for expression is.
#[verifier::spinoff_prover]
fn parse_quantified_expr(lex: &mut Lexer) -> (res: Result<XNodePtr, XPathError>)
    requires
        old(lex).ready(),
    ensures
        reads_as(spec_quantified_expr(old(lex).tokens_v(), old(lex).index_v()), res, final(lex).index_v()),
        final(lex).moved_on_from(&*old(lex)),
        res matches Ok(x) ==> fn_tests_ok(x@),
        res matches Ok(x) ==> (x@.n_type == XNodeType::Nil ==> final(lex).index_v() == old(lex).index_v()),
        res matches Ok(x) ==> (x@.n_type != XNodeType::Nil ==> (x@.n_type == XNodeType::SomeExpr
            || x@.n_type == XNodeType::EveryExpr)),
    decreases old(lex).tokens_v().len() - old(lex).index_v(), 1int,
{
    proof {
        reveal(spec_quantified_expr);
        reveal(spec_bound_expr);
        reveal(spec_binding_loop);
        reveal(spec_binding);
        reveal(spec_expr_single);
    }
    let tok = lex.next_token();
    let bind_type = match tok.get_type() {
        TType::SomeKw => XNodeType::SomeVarBind,
        TType::Every => XNodeType::EveryVarBind,
        _ => {
            return Ok(new_nil_xnode());
        },
    };
    lex.get_token();
    let quantified_expr_xnode = if bind_type == XNodeType::SomeVarBind {
        new_xnode(XNodeType::SomeExpr, "some")
    } else {
        new_xnode(XNodeType::EveryExpr, "every")
    };
    let ghost t = lex.tokens_v();
    let ghost p0 = lex.index_v();
    let mut chain: Vec<XNodePtr> = Vec::new();
    chain.push(quantified_expr_xnode);
    proof {
        assert(views(chain@) =~= seq![chain@[0]@]);
        assert(spec_quantified_expr(t, old(lex).index_v()) == spec_bound_expr(
            t,
            old(lex).index_v(),
            p0,
            bind_type,
            chain@[0]@,
            "satisfies"@,
        ));
    }
    loop
        invariant_except_break
            spec_binding_loop(t, p0, bind_type, seq![chain@[0]@])
                == spec_binding_loop(t, lex.index_v(), bind_type, views(chain@)),
        invariant
            p0 == old(lex).index_v() + 1,
            spec_quantified_expr(t, old(lex).index_v()) == spec_bound_expr(
                t,
                old(lex).index_v(),
                p0,
                bind_type,
                chain@[0]@,
                "satisfies"@,
            ),
            lex.moved_on_from(&*old(lex)),
            t == lex.tokens_v(),
            lex.index_v() > old(lex).index_v(),
            chain@.len() >= 1,
            chain@[0]@.n_type == XNodeType::SomeExpr || chain@[0]@.n_type == XNodeType::EveryExpr,
            bind_type == XNodeType::SomeVarBind || bind_type == XNodeType::EveryVarBind,
            forall|i: int| 0 <= i < chain@.len() ==> fn_tests_ok(#[trigger] chain@[i]@),
        ensures
            spec_binding_loop(t, p0, bind_type, seq![chain@[0]@])
                == Ok::<(Seq<XTree>, int), XPathErrorKind>((views(chain@), lex.index_v())),
        decreases lex.tokens_v().len() - lex.index_v(),
    {
        proof {
            reveal(spec_quantified_expr);
            reveal(spec_bound_expr);
            reveal(spec_binding_loop);
            reveal(spec_binding);
            reveal(spec_expr_single);
        }
        let ghost before = chain@;
        let var_bind_xnode = parse_simple_binding(lex, bind_type)?;
        if is_nil_xnode(&var_bind_xnode) {
            break;
        }
        chain.push(var_bind_xnode);
        proof {
            assert(views(chain@) =~= views(before).push(var_bind_xnode@));
            assert(chain@[0] == before[0]);
        }
        let ghost q = lex.index_v();
        if lex.next_token().get_type() != TType::Comma {
            break;
        }
        lex.get_token();
        assert(lex.index_v() == q + 1);
    }
    expect_name(lex, "satisfies", "some or every needs satisfies")?;
    lex.get_token();
    let expr_single_xnode = parse_expr_single(lex)?;
    let ghost bindings = views(chain@);
    chain.push(expr_single_xnode);
    proof {
        assert(views(chain@) =~= bindings.push(expr_single_xnode@));
    }
    Ok(link_right_chain(chain))
}

/// `"$" VarName "in" ExprSingle`: a node of kind `xnode_type` named by the
/// variable, with the expression on the left.
#[verifier::spinoff_prover]
fn parse_simple_binding(lex: &mut Lexer, xnode_type: XNodeType) -> (res: Result<XNodePtr, XPathError>)
    requires
        old(lex).ready(),
        xnode_type != XNodeType::Nil,
        xnode_type != XNodeType::TypedFunctionTest,
        xnode_type != XNodeType::LetVarBind,
    ensures
        reads_as(
            spec_binding(old(lex).tokens_v(), old(lex).index_v(), xnode_type),
            res,
            final(lex).index_v(),
        ),
        final(lex).moved_on_from(&*old(lex)),
        res matches Ok(x) ==> fn_tests_ok(x@),
        res matches Ok(x) ==> (x@.n_type == XNodeType::Nil ==> final(lex).index_v() == old(lex).index_v()),
        res matches Ok(x) ==> (x@.n_type != XNodeType::Nil ==> x@.n_type == xnode_type),
    decreases old(lex).tokens_v().len() - old(lex).index_v(), 1int,
{
    proof {
        reveal(spec_binding);
        reveal(spec_expr_single);
    }
    proof {
        reveal_strlit("");
        assert(""@ =~= Seq::<char>::empty());
    }
    if lex.next_token().get_type() != TType::Dollar {
        return Ok(new_nil_xnode());
    }
    lex.get_token();
    let var_name = parse_eqname(lex, "")?;
    if str_eq(var_name.as_str(), "") {
        return Err(syntax_error_here(lex, "a variable name must follow $"));
    }
    expect_name(lex, "in", "a variable name must be followed by in")?;
    lex.get_token();
    let expr_single_xnode = parse_expr_single(lex)?;
    let mut var_bind_xnode = new_xnode(xnode_type, var_name.as_str());
    assign_as_left(&mut var_bind_xnode, expr_single_xnode);
    Ok(var_bind_xnode)
}

/// `IfExpr ::= "if" "(" Expr ")" "then" ExprSingle "else" ExprSingle`: an
/// `IfExpr` node with the condition on the left and an `IfThenElse` node
/// (the two branches) on the right.
#[verifier::spinoff_prover]
fn parse_if_expr(lex: &mut Lexer) -> (res: Result<XNodePtr, XPathError>)
    requires
        old(lex).ready(),
    ensures
        reads_as(spec_if_expr(old(lex).tokens_v(), old(lex).index_v()), res, final(lex).index_v()),
        final(lex).moved_on_from(&*old(lex)),
        res matches Ok(x) ==> fn_tests_ok(x@),
        res matches Ok(x) ==> (x@.n_type == XNodeType::Nil ==> final(lex).index_v() == old(lex).index_v()),
        res matches Ok(x) ==> (x@.n_type != XNodeType::Nil ==> x@.n_type == XNodeType::IfExpr),
    decreases old(lex).tokens_v().len() - old(lex).index_v(), 1int,
{
    proof {
        reveal(spec_if_expr);
        reveal(spec_expr);
        reveal(spec_expr_single);
    }
    if lex.next_token().get_type() != TType::If {
        return Ok(new_nil_xnode());
    }
    lex.get_token();
    expect_ttype(lex, TType::LeftParen, "if needs an opening parenthesis")?;
    lex.get_token();
    let xnode_cond = parse_expr(lex)?;
    if is_nil_xnode(&xnode_cond) {
        return Err(syntax_error_here(lex, "the condition of if is not an expression"));
    }
    expect_ttype(lex, TType::RightParen, "a closing parenthesis must end the condition")?;
    lex.get_token();
    expect_name(lex, "then", "if needs then")?;
    lex.get_token();
    let xnode_then = parse_expr_single(lex)?;
    if is_nil_xnode(&xnode_then) {
        return Err(syntax_error_here(lex, "the then branch is not an expression"));
    }
    expect_name(lex, "else", "if needs else")?;
    lex.get_token();
    let xnode_else = parse_expr_single(lex)?;
    if is_nil_xnode(&xnode_else) {
        return Err(syntax_error_here(lex, "the else branch is not an expression"));
    }
    let mut xnode_if_then_else = new_xnode(XNodeType::IfThenElse, "if_then_else");
    assign_as_left(&mut xnode_if_then_else, xnode_then);
    assign_as_right(&mut xnode_if_then_else, xnode_else);
    let mut xnode_if_expr = new_xnode(XNodeType::IfExpr, "if_expr");
    assign_as_left(&mut xnode_if_expr, xnode_cond);
    assign_as_right(&mut xnode_if_expr, xnode_if_then_else);
    Ok(xnode_if_expr)
}

/// `OrExpr ::= AndExpr ("or" AndExpr)*`
#[verifier::spinoff_prover]
fn parse_or_expr(lex: &mut Lexer) -> (res: Result<XNodePtr, XPathError>)
    requires
        old(lex).ready(),
    ensures
        reads_as(spec_bin(old(lex).tokens_v(), old(lex).index_v(), BinLevel::Or), res, final(lex).index_v()),
        final(lex).moved_on_from(&*old(lex)),
        res matches Ok(x) ==> fn_tests_ok(x@),
    decreases old(lex).tokens_v().len() - old(lex).index_v(), 1180int,
{
    parse_bin_op_sub(lex, BinLevel::Or)
}

/// `AndExpr ::= ComparisonExpr ("and" ComparisonExpr)*`
#[verifier::spinoff_prover]
fn parse_and_expr(lex: &mut Lexer) -> (res: Result<XNodePtr, XPathError>)
    requires
        old(lex).ready(),
    ensures
        reads_as(spec_bin(old(lex).tokens_v(), old(lex).index_v(), BinLevel::And), res, final(lex).index_v()),
        final(lex).moved_on_from(&*old(lex)),
        res matches Ok(x) ==> fn_tests_ok(x@),
    decreases old(lex).tokens_v().len() - old(lex).index_v(), 1080int,
{
    parse_bin_op_sub(lex, BinLevel::And)
}

/// `ComparisonExpr ::= StringConcatExpr ((ValueComp | GeneralComp |
/// NodeComp) StringConcatExpr)?`
#[verifier::spinoff_prover]
fn parse_comparison_expr(lex: &mut Lexer) -> (res: Result<XNodePtr, XPathError>)
    requires
        old(lex).ready(),
    ensures
        reads_as(
            spec_bin(old(lex).tokens_v(), old(lex).index_v(), BinLevel::Comparison),
            res,
            final(lex).index_v(),
        ),
        final(lex).moved_on_from(&*old(lex)),
        res matches Ok(x) ==> fn_tests_ok(x@),
    decreases old(lex).tokens_v().len() - old(lex).index_v(), 980int,
{
    parse_bin_op_sub(lex, BinLevel::Comparison)
}

/// `StringConcatExpr ::= RangeExpr ("||" RangeExpr)*`
#[verifier::spinoff_prover]
fn parse_string_concat_expr(lex: &mut Lexer) -> (res: Result<XNodePtr, XPathError>)
    requires
        old(lex).ready(),
    ensures
        reads_as(
            spec_bin(old(lex).tokens_v(), old(lex).index_v(), BinLevel::StringConcat),
            res,
            final(lex).index_v(),
        ),
        final(lex).moved_on_from(&*old(lex)),
        res matches Ok(x) ==> fn_tests_ok(x@),
    decreases old(lex).tokens_v().len() - old(lex).index_v(), 880int,
{
    parse_bin_op_sub(lex, BinLevel::StringConcat)
}

/// `RangeExpr ::= AdditiveExpr ("to" AdditiveExpr)?`
#[verifier::spinoff_prover]
fn parse_range_expr(lex: &mut Lexer) -> (res: Result<XNodePtr, XPathError>)
    requires
        old(lex).ready(),
    ensures
        reads_as(
            spec_bin(old(lex).tokens_v(), old(lex).index_v(), BinLevel::Range),
            res,
            final(lex).index_v(),
        ),
        final(lex).moved_on_from(&*old(lex)),
        res matches Ok(x) ==> fn_tests_ok(x@),
    decreases old(lex).tokens_v().len() - old(lex).index_v(), 780int,
{
    parse_bin_op_sub(lex, BinLevel::Range)
}

/// `AdditiveExpr ::= MultiplicativeExpr (("+" | "-") MultiplicativeExpr)*`
#[verifier::spinoff_prover]
fn parse_additive_expr(lex: &mut Lexer) -> (res: Result<XNodePtr, XPathError>)
    requires
        old(lex).ready(),
    ensures
        reads_as(
            spec_bin(old(lex).tokens_v(), old(lex).index_v(), BinLevel::Additive),
            res,
            final(lex).index_v(),
        ),
        final(lex).moved_on_from(&*old(lex)),
        res matches Ok(x) ==> fn_tests_ok(x@),
    decreases old(lex).tokens_v().len() - old(lex).index_v(), 680int,
{
    parse_bin_op_sub(lex, BinLevel::Additive)
}

/// `MultiplicativeExpr ::= UnionExpr (("*" | "div" | "idiv" | "mod")
/// UnionExpr)*`
#[verifier::spinoff_prover]
fn parse_multiplicative_expr(lex: &mut Lexer) -> (res: Result<XNodePtr, XPathError>)
    requires
        old(lex).ready(),
    ensures
        reads_as(
            spec_bin(old(lex).tokens_v(), old(lex).index_v(), BinLevel::Multiplicative),
            res,
            final(lex).index_v(),
        ),
        final(lex).moved_on_from(&*old(lex)),
        res matches Ok(x) ==> fn_tests_ok(x@),
    decreases old(lex).tokens_v().len() - old(lex).index_v(), 580int,
{
    parse_bin_op_sub(lex, BinLevel::Multiplicative)
}

/// `UnionExpr ::= IntersectExceptExpr (("union" | "|") IntersectExceptExpr)*`
#[verifier::spinoff_prover]
fn parse_union_expr(lex: &mut Lexer) -> (res: Result<XNodePtr, XPathError>)
    requires
        old(lex).ready(),
    ensures
        reads_as(
            spec_bin(old(lex).tokens_v(), old(lex).index_v(), BinLevel::Union),
            res,
            final(lex).index_v(),
        ),
        final(lex).moved_on_from(&*old(lex)),
        res matches Ok(x) ==> fn_tests_ok(x@),
    decreases old(lex).tokens_v().len() - old(lex).index_v(), 480int,
{
    parse_bin_op_sub(lex, BinLevel::Union)
}

/// `IntersectExceptExpr ::= InstanceofExpr (("intersect" | "except")
/// InstanceofExpr)*`
#[verifier::spinoff_prover]
fn parse_intersect_except_expr(lex: &mut Lexer) -> (res: Result<XNodePtr, XPathError>)
    requires
        old(lex).ready(),
    ensures
        reads_as(
            spec_bin(old(lex).tokens_v(), old(lex).index_v(), BinLevel::IntersectExcept),
            res,
            final(lex).index_v(),
        ),
        final(lex).moved_on_from(&*old(lex)),
        res matches Ok(x) ==> fn_tests_ok(x@),
    decreases old(lex).tokens_v().len() - old(lex).index_v(), 380int,
{
    parse_bin_op_sub(lex, BinLevel::IntersectExcept)
}

/// `InstanceofExpr ::= TreatExpr ("instance" "of" SequenceType)?`
#[verifier::spinoff_prover]
fn parse_instanceof_expr(lex: &mut Lexer) -> (res: Result<XNodePtr, XPathError>)
    requires
        old(lex).ready(),
    ensures
        reads_as(spec_instanceof(old(lex).tokens_v(), old(lex).index_v()), res, final(lex).index_v()),
        final(lex).moved_on_from(&*old(lex)),
        res matches Ok(x) ==> fn_tests_ok(x@),
    decreases old(lex).tokens_v().len() - old(lex).index_v(), 330int,
{
    proof {
        reveal(spec_instanceof);
        reveal(spec_treat);
    }
    let xnode = parse_treat_expr(lex)?;
    if lex.next_token().get_type() == TType::InstanceOf {
        lex.get_token();
        let seq_type_xnode = parse_sequence_type(lex)?;
        if is_nil_xnode(&seq_type_xnode) {
            return Err(syntax_error_here(lex, "instance of must be followed by a sequence type"));
        }
        proof {
            reveal_strlit("");
            assert(""@ =~= Seq::<char>::empty());
        }
        let mut instance_of_xnode = new_xnode(XNodeType::OperatorInstanceOf, "");
        assign_as_left(&mut instance_of_xnode, xnode);
        assign_as_right(&mut instance_of_xnode, seq_type_xnode);
        return Ok(instance_of_xnode);
    }
    Ok(xnode)
}

/// `TreatExpr ::= CastableExpr ("treat" "as" SequenceType)?`
#[verifier::spinoff_prover]
fn parse_treat_expr(lex: &mut Lexer) -> (res: Result<XNodePtr, XPathError>)
    requires
        old(lex).ready(),
    ensures
        reads_as(spec_treat(old(lex).tokens_v(), old(lex).index_v()), res, final(lex).index_v()),
        final(lex).moved_on_from(&*old(lex)),
        res matches Ok(x) ==> fn_tests_ok(x@),
    decreases old(lex).tokens_v().len() - old(lex).index_v(), 320int,
{
    proof {
        reveal_strlit("");
        assert(""@ =~= Seq::<char>::empty());
    }
    proof {
        reveal(spec_treat);
        reveal(spec_castable);
    }
    let xnode = parse_castable_expr(lex)?;
    if lex.next_token().get_type() == TType::TreatAs {
        lex.get_token();
        let seq_type_xnode = parse_sequence_type(lex)?;
        if is_nil_xnode(&seq_type_xnode) {
            return Err(syntax_error_here(lex, "treat as must be followed by a sequence type"));
        }
        let mut treat_as_xnode = new_xnode(XNodeType::OperatorTreatAs, "");
        assign_as_left(&mut treat_as_xnode, xnode);
        assign_as_right(&mut treat_as_xnode, seq_type_xnode);
        return Ok(treat_as_xnode);
    }
    Ok(xnode)
}

/// `CastableExpr ::= CastExpr ("castable" "as" SingleType)?`
#[verifier::spinoff_prover]
fn parse_castable_expr(lex: &mut Lexer) -> (res: Result<XNodePtr, XPathError>)
    requires
        old(lex).ready(),
    ensures
        reads_as(spec_castable(old(lex).tokens_v(), old(lex).index_v()), res, final(lex).index_v()),
        final(lex).moved_on_from(&*old(lex)),
        res matches Ok(x) ==> fn_tests_ok(x@),
    decreases old(lex).tokens_v().len() - old(lex).index_v(), 310int,
{
    proof {
        reveal_strlit("");
        assert(""@ =~= Seq::<char>::empty());
    }
    proof {
        reveal(spec_castable);
        reveal(spec_cast);
    }
    let xnode = parse_cast_expr(lex)?;
    if lex.next_token().get_type() == TType::CastableAs {
        lex.get_token();
        let single_type_xnode = parse_single_type(lex)?;
        if is_nil_xnode(&single_type_xnode) {
            return Err(syntax_error_here(lex, "the name of the target type is required"));
        }
        let mut castable_xnode = new_xnode(XNodeType::OperatorCastableAs, "");
        assign_as_left(&mut castable_xnode, xnode);
        assign_as_right(&mut castable_xnode, single_type_xnode);
        return Ok(castable_xnode);
    }
    Ok(xnode)
}

/// `CastExpr ::= ArrowExpr ("cast" "as" SingleType)?`
#[verifier::spinoff_prover]
fn parse_cast_expr(lex: &mut Lexer) -> (res: Result<XNodePtr, XPathError>)
    requires
        old(lex).ready(),
    ensures
        reads_as(spec_cast(old(lex).tokens_v(), old(lex).index_v()), res, final(lex).index_v()),
        final(lex).moved_on_from(&*old(lex)),
        res matches Ok(x) ==> fn_tests_ok(x@),
    decreases old(lex).tokens_v().len() - old(lex).index_v(), 300int,
{
    proof {
        reveal_strlit("");
        assert(""@ =~= Seq::<char>::empty());
    }
    proof {
        reveal(spec_cast);
        reveal(spec_arrow);
    }
    let xnode = parse_arrow_expr(lex)?;
    if lex.next_token().get_type() == TType::CastAs {
        lex.get_token();
        let single_type_xnode = parse_single_type(lex)?;
        if is_nil_xnode(&single_type_xnode) {
            return Err(syntax_error_here(lex, "the name of the target type is required"));
        }
        let mut cast_xnode = new_xnode(XNodeType::OperatorCastAs, "");
        assign_as_left(&mut cast_xnode, xnode);
        assign_as_right(&mut cast_xnode, single_type_xnode);
        return Ok(cast_xnode);
    }
    Ok(xnode)
}

/// `ArrowExpr ::= UnaryExpr ("=>" ArrowFunctionSpecifier ArgumentList)*`:
/// with a function name, a `FunctionCall` node whose arguments are the
/// expression so far and then the argument list; with a variable, an
/// `ApplyArgument` node that applies the variable to those arguments.
#[verifier::spinoff_prover]
fn parse_arrow_expr(lex: &mut Lexer) -> (res: Result<XNodePtr, XPathError>)
    requires
        old(lex).ready(),
    ensures
        reads_as(spec_arrow(old(lex).tokens_v(), old(lex).index_v()), res, final(lex).index_v()),
        final(lex).moved_on_from(&*old(lex)),
        res matches Ok(x) ==> fn_tests_ok(x@),
    decreases old(lex).tokens_v().len() - old(lex).index_v(), 290int,
{
    proof {
        reveal_strlit("");
        assert(""@ =~= Seq::<char>::empty());
    }
    proof {
        reveal(spec_arrow);
        reveal(spec_unary);
        reveal(spec_arrow_loop);
        reveal(spec_argument_list);
    }
    let mut curr_xnode = parse_unary_expr(lex)?;
    proof {
        reveal_strlit("");
        assert(""@ =~= Seq::<char>::empty());
    }
    let ghost t = lex.tokens_v();
    while lex.next_token().get_type() == TType::Arrow
        invariant
            t == lex.tokens_v(),
            spec_arrow(t, old(lex).index_v()) == spec_arrow_loop(t, lex.index_v(), curr_xnode@),
            lex.moved_on_from(&*old(lex)),
            fn_tests_ok(curr_xnode@),
        decreases lex.tokens_v().len() - lex.index_v(),
    {
        proof {
            reveal(spec_arrow);
            reveal(spec_unary);
            reveal(spec_arrow_loop);
            reveal(spec_argument_list);
        }
        let ghost p = lex.index_v();
        proof {
            reveal_strlit("");
            assert(""@ =~= Seq::<char>::empty());
        }
        lex.get_token();
        assert(lex.index_v() == p + 1);
        let func_name = parse_static_func_name(lex)?;
        if !str_eq(func_name.as_str(), "") {
            let mut fcall_xnode = new_xnode(XNodeType::FunctionCall, func_name.as_str());
            let arglist_xnode = parse_argument_list(lex)?;
            let mut arg_top_xnode = new_xnode(XNodeType::ArgumentTop, "");
            assign_as_left(&mut arg_top_xnode, curr_xnode);
            assign_as_right(&mut arg_top_xnode, arglist_xnode);
            assign_as_right(&mut fcall_xnode, arg_top_xnode);
            curr_xnode = fcall_xnode;
        } else {
            let varref_xnode = parse_varref(lex)?;
            if is_nil_xnode(&varref_xnode) {
                return Err(syntax_error_here(lex, "the arrow operator needs a function"));
            }
            let mut apply_argument_xnode = new_xnode(XNodeType::ApplyArgument, "");
            assign_as_left(&mut apply_argument_xnode, varref_xnode);
            let mut argument_top_xnode = new_xnode(XNodeType::ArgumentListTop, "");
            let arglist_xnode = parse_argument_list(lex)?;
            let mut arg_top_xnode = new_xnode(XNodeType::ArgumentTop, "");
            assign_as_left(&mut arg_top_xnode, curr_xnode);
            assign_as_right(&mut arg_top_xnode, arglist_xnode);
            assign_as_left(&mut argument_top_xnode, arg_top_xnode);
            assign_as_right(&mut apply_argument_xnode, argument_top_xnode);
            curr_xnode = apply_argument_xnode;
        }
    }
    Ok(curr_xnode)
}

/// `UnaryExpr ::= ("-" | "+")? ValueExpr`: a sign becomes a node with the
/// operand on the right.
#[verifier::spinoff_prover]
fn parse_unary_expr(lex: &mut Lexer) -> (res: Result<XNodePtr, XPathError>)
    requires
        old(lex).ready(),
    ensures
        reads_as(spec_unary(old(lex).tokens_v(), old(lex).index_v()), res, final(lex).index_v()),
        final(lex).moved_on_from(&*old(lex)),
        res matches Ok(x) ==> fn_tests_ok(x@),
    decreases old(lex).tokens_v().len() - old(lex).index_v(), 280int,
{
    proof {
        reveal(spec_unary);
        reveal(spec_bin);
    }
    let tok = lex.next_token();
    match tok.get_type() {
        TType::Minus => {
            lex.get_token();
            let next_node = parse_value_expr(lex)?;
            let mut xnode_op = new_xnode(XNodeType::OperatorUnaryMinus, "-");
            assign_as_right(&mut xnode_op, next_node);
            Ok(xnode_op)
        },
        TType::Plus => {
            lex.get_token();
            let next_node = parse_value_expr(lex)?;
            let mut xnode_op = new_xnode(XNodeType::OperatorUnaryPlus, "+");
            assign_as_right(&mut xnode_op, next_node);
            Ok(xnode_op)
        },
        _ => parse_value_expr(lex),
    }
}

/// `ValueExpr ::= SimpleMapExpr`, `SimpleMapExpr ::= PathExpr ("!"
/// PathExpr)*`
#[verifier::spinoff_prover]
fn parse_value_expr(lex: &mut Lexer) -> (res: Result<XNodePtr, XPathError>)
    requires
        old(lex).ready(),
    ensures
        reads_as(
            spec_bin(old(lex).tokens_v(), old(lex).index_v(), BinLevel::SimpleMap),
            res,
            final(lex).index_v(),
        ),
        final(lex).moved_on_from(&*old(lex)),
        res matches Ok(x) ==> fn_tests_ok(x@),
    decreases old(lex).tokens_v().len() - old(lex).index_v(), 270int,
{
    parse_bin_op_sub(lex, BinLevel::SimpleMap)
}

/// `PathExpr ::= ("/" RelativePathExpr?) | ("//" RelativePathExpr) |
/// RelativePathExpr`: a leading `/` starts from the root, `//` from the
/// root and then every descendant.
#[verifier::spinoff_prover]
fn parse_path_expr(lex: &mut Lexer) -> (res: Result<XNodePtr, XPathError>)
    requires
        old(lex).ready(),
    ensures
        reads_as(spec_path(old(lex).tokens_v(), old(lex).index_v()), res, final(lex).index_v()),
        final(lex).moved_on_from(&*old(lex)),
        res matches Ok(x) ==> fn_tests_ok(x@),
    decreases old(lex).tokens_v().len() - old(lex).index_v(), 210int,
{
    proof {
        reveal(spec_path);
        reveal(spec_relative);
    }
    let tok = lex.next_token();
    match tok.get_type() {
        TType::Slash => {
            lex.get_token();
            let mut op_path_xnode = new_xnode(XNodeType::OperatorPath, "parse_path_expr Slash");
            let root_xnode = new_xnode(XNodeType::AxisRoot, "node()");
            assign_as_left(&mut op_path_xnode, root_xnode);
            let rel_xnode = parse_relative_path_expr(lex)?;
            assign_as_right(&mut op_path_xnode, rel_xnode);
            Ok(op_path_xnode)
        },
        TType::SlashSlash => {
            lex.get_token();
            let mut op_path_xnode_u = new_xnode(XNodeType::OperatorPath, "parse_path_expr SlashSlash 1");
            let root_xnode = new_xnode(XNodeType::AxisRoot, "/");
            assign_as_left(&mut op_path_xnode_u, root_xnode);
            let mut op_path_xnode_l = new_xnode(XNodeType::OperatorPath, "parse_path_expr SlashSlash 2");
            let ds_xnode = new_xnode(XNodeType::AxisDescendantOrSelf, "node()");
            assign_as_left(&mut op_path_xnode_l, ds_xnode);
            let rel_xnode = parse_relative_path_expr(lex)?;
            assign_as_right(&mut op_path_xnode_l, rel_xnode);
            assign_as_right(&mut op_path_xnode_u, op_path_xnode_l);
            Ok(op_path_xnode_u)
        },
        _ => parse_relative_path_expr(lex),
    }
}

/// `RelativePathExpr ::= StepExpr (("/" | "//") StepExpr)*`: a chain of
/// `OperatorPath` nodes on the right, one for each step (and one more with
/// the descendant axis for each `//`); a single step is returned as it is.
#[verifier::spinoff_prover]
fn parse_relative_path_expr(lex: &mut Lexer) -> (res: Result<XNodePtr, XPathError>)
    requires
        old(lex).ready(),
    ensures
        reads_as(spec_relative(old(lex).tokens_v(), old(lex).index_v()), res, final(lex).index_v()),
        final(lex).moved_on_from(&*old(lex)),
        res matches Ok(x) ==> fn_tests_ok(x@),
    decreases old(lex).tokens_v().len() - old(lex).index_v(), 200int,
{
    proof {
        reveal_strlit("");
        assert(""@ =~= Seq::<char>::empty());
    }
    proof {
        reveal(spec_relative);
        reveal(spec_step);
        reveal(spec_relative_loop);
    }
    let step_expr_xnode = parse_step_expr(lex)?;
    if is_nil_xnode(&step_expr_xnode) {
        return Ok(new_nil_xnode());
    }
    let ghost t = lex.tokens_v();
    let ghost j = lex.index_v();
    let mut rest: Vec<XNodePtr> = Vec::new();
    proof {
        assert(views(rest@) =~= Seq::<XTree>::empty());
    }
    loop
        invariant_except_break
            spec_relative_loop(t, j, Seq::empty()) == spec_relative_loop(t, lex.index_v(), views(rest@)),
        invariant
            lex.moved_on_from(&*old(lex)),
            t == lex.tokens_v(),
            spec_relative(t, old(lex).index_v())
                == close_relative(step_expr_xnode@, spec_relative_loop(t, j, Seq::empty())),
            forall|i: int| 0 <= i < rest@.len() ==> fn_tests_ok(#[trigger] rest@[i]@),
        ensures
            spec_relative_loop(t, j, Seq::empty()) == Ok::<(Seq<XTree>, int), XPathErrorKind>((views(rest@), lex.index_v())),
        decreases lex.tokens_v().len() - lex.index_v(),
    {
        proof {
            reveal(spec_relative);
            reveal(spec_step);
            reveal(spec_relative_loop);
        }
        let ghost p = lex.index_v();
        let ghost before = views(rest@);
        let tok = lex.next_token();
        match tok.get_type() {
            TType::Slash => {
                lex.get_token();
                assert(lex.index_v() == p + 1);
                let step_xnode = parse_step_expr(lex)?;
                let mut op_path_xnode = new_xnode(XNodeType::OperatorPath, "parse_relative_path_expr Slash");
                assign_as_left(&mut op_path_xnode, step_xnode);
                rest.push(op_path_xnode);
                proof {
                    assert(views(rest@) =~= before.push(op_path_xnode@));
                }
            },
            TType::SlashSlash => {
                lex.get_token();
                assert(lex.index_v() == p + 1);
                let step_xnode = parse_step_expr(lex)?;
                let mut op_path_xnode_u = new_xnode(XNodeType::OperatorPath, "parse_relative_path_expr SlashSlash 1");
                let ds_xnode = new_xnode(XNodeType::AxisDescendantOrSelf, "node()");
                assign_as_left(&mut op_path_xnode_u, ds_xnode);
                let mut op_path_xnode_l = new_xnode(XNodeType::OperatorPath, "parse_relative_path_expr SlashSlash 2");
                assign_as_left(&mut op_path_xnode_l, step_xnode);
                rest.push(op_path_xnode_u);
                rest.push(op_path_xnode_l);
                proof {
                    assert(views(rest@) =~= before.push(op_path_xnode_u@).push(op_path_xnode_l@));
                }
            },
            _ => {
                break;
            },
        }
    }
    if rest.len() == 0 {
        return Ok(step_expr_xnode);
    }
    let mut top_op_path_xnode = new_xnode(XNodeType::OperatorPath, "parse_relative_path_expr TOP");
    assign_as_left(&mut top_op_path_xnode, step_expr_xnode);
    assign_as_right(&mut top_op_path_xnode, link_right_chain(rest));
    Ok(top_op_path_xnode)
}

/// `StepExpr ::= PostfixExpr | AxisStep`
#[verifier::spinoff_prover]
fn parse_step_expr(lex: &mut Lexer) -> (res: Result<XNodePtr, XPathError>)
    requires
        old(lex).ready(),
    ensures
        reads_as(spec_step(old(lex).tokens_v(), old(lex).index_v()), res, final(lex).index_v()),
        final(lex).moved_on_from(&*old(lex)),
        res matches Ok(x) ==> fn_tests_ok(x@),
    decreases old(lex).tokens_v().len() - old(lex).index_v(), 190int,
{
    proof {
        reveal(spec_step);
        reveal(spec_postfix_expr);
        reveal(spec_axis_step);
    }
    let xnode = parse_postfix_expr(lex)?;
    if !is_nil_xnode(&xnode) {
        return Ok(xnode);
    }
    parse_axis_step(lex)
}

/// `AxisStep ::= (ReverseStep | ForwardStep) PredicateList`: an axis node
/// named by its name test, or with its kind test on the left, and its
/// predicates on the right. `@` abbreviates `attribute::`, `..` the parent's
/// `node()`, and no axis `child::`.
#[verifier::spinoff_prover]
fn parse_axis_step(lex: &mut Lexer) -> (res: Result<XNodePtr, XPathError>)
    requires
        old(lex).ready(),
    ensures
        reads_as(spec_axis_step(old(lex).tokens_v(), old(lex).index_v()), res, final(lex).index_v()),
        final(lex).moved_on_from(&*old(lex)),
        res matches Ok(x) ==> fn_tests_ok(x@),
    decreases old(lex).tokens_v().len() - old(lex).index_v(), 160int,
{
    proof {
        reveal(spec_axis_step);
        reveal(spec_node_test);
    }
    let tok = lex.next_token();
    match tok.get_type() {
        TType::AxisName => {
            lex.get_token();
            expect_ttype(lex, TType::ColonColon, "an axis name must be followed by ::")?;
            lex.get_token();
            let axis = match axis_from_name(tok.get_name()) {
                Some(a) => a,
                None => {
                    return Err(syntax_error_here(lex, "not an axis name"));
                },
            };
            if axis == XNodeType::AxisNamespace {
                return Err(unimplemented_here(lex, "the namespace axis is not implemented"));
            }
            parse_node_test(lex, axis)
        },
        TType::At => {
            lex.get_token();
            parse_node_test(lex, XNodeType::AxisAttribute)
        },
        TType::DotDot => {
            lex.get_token();
            Ok(new_xnode(XNodeType::AxisParent, "node()"))
        },
        _ => parse_node_test(lex, XNodeType::AxisChild),
    }
}

/// `NodeTest ::= KindTest | NameTest`, `NameTest ::= EQName | Wildcard`
#[verifier::spinoff_prover]
fn parse_node_test(lex: &mut Lexer, axis_type: XNodeType) -> (res: Result<XNodePtr, XPathError>)
    requires
        old(lex).ready(),
        axis_type != XNodeType::Nil,
        axis_type != XNodeType::TypedFunctionTest,
    ensures
        reads_as(
            spec_node_test(old(lex).tokens_v(), old(lex).index_v(), axis_type),
            res,
            final(lex).index_v(),
        ),
        final(lex).moved_on_from(&*old(lex)),
        res matches Ok(x) ==> fn_tests_ok(x@),
        res matches Ok(x) ==> (x@.n_type != XNodeType::Nil ==> x@.n_type == axis_type),
    decreases old(lex).tokens_v().len() - old(lex).index_v(), 150int,
{
    proof {
        reveal(spec_node_test);
        reveal(spec_predicate_list);
    }
    proof {
        reveal_strlit("");
        assert(""@ =~= Seq::<char>::empty());
    }
    let mut name = parse_wildcard(lex)?;
    if str_eq(name.as_str(), "") {
        name = parse_eqname(lex, "")?;
    }
    if !str_eq(name.as_str(), "") {
        let mut axis_xnode = new_xnode(axis_type, name.as_str());
        let predicates_xnode = parse_predicate_list(lex, is_xnode_reverse_axis(axis_type))?;
        assign_as_right(&mut axis_xnode, predicates_xnode);
        return Ok(axis_xnode);
    }
    let kind_test_xnode = parse_kind_test(lex)?;
    if !is_nil_xnode(&kind_test_xnode) {
        let mut axis_xnode = new_xnode(axis_type, "");
        assign_as_left(&mut axis_xnode, kind_test_xnode);
        let predicates_xnode = parse_predicate_list(lex, is_xnode_reverse_axis(axis_type))?;
        assign_as_right(&mut axis_xnode, predicates_xnode);
        return Ok(axis_xnode);
    }
    Ok(new_nil_xnode())
}

/// `PredicateList ::= Predicate*`: a chain on the right of `PredicateTop`
/// nodes (`PredicateRevTop` on a reverse axis), each with its expression on
/// the left. The list ends at the first predicate without an expression.
#[verifier::spinoff_prover]
fn parse_predicate_list(lex: &mut Lexer, reverse_order: bool) -> (res: Result<XNodePtr, XPathError>)
    requires
        old(lex).ready(),
    ensures
        reads_as(
            spec_predicate_list(old(lex).tokens_v(), old(lex).index_v(), reverse_order),
            res,
            final(lex).index_v(),
        ),
        final(lex).moved_on_from(&*old(lex)),
        res matches Ok(x) ==> fn_tests_ok(x@),
    decreases old(lex).tokens_v().len() - old(lex).index_v(), 140int,
{
    proof {
        reveal(spec_predicate_list);
        reveal(spec_predicate);
    }
    let xnode = parse_predicate(lex)?;
    if is_nil_xnode(&xnode) {
        return Ok(xnode);
    }
    let next_node = parse_predicate_list(lex, reverse_order)?;
    let xnode_type = if !reverse_order {
        XNodeType::PredicateTop
    } else {
        XNodeType::PredicateRevTop
    };
    let mut xnode_pred = new_xnode(xnode_type, "Predicate");
    assign_as_left(&mut xnode_pred, xnode);
    assign_as_right(&mut xnode_pred, next_node);
    Ok(xnode_pred)
}

/// `Predicate ::= "[" Expr "]"`: the expression.
#[verifier::spinoff_prover]
fn parse_predicate(lex: &mut Lexer) -> (res: Result<XNodePtr, XPathError>)
    requires
        old(lex).ready(),
    ensures
        reads_as(spec_predicate(old(lex).tokens_v(), old(lex).index_v()), res, final(lex).index_v()),
        final(lex).moved_on_from(&*old(lex)),
        res matches Ok(x) ==> fn_tests_ok(x@),
        old(lex).current().0 != TType::LeftBracket ==> (res matches Ok(x) && x@ == nil_tree()
            && final(lex).index_v() == old(lex).index_v()),
        old(lex).current().0 == TType::LeftBracket ==> final(lex).index_v() > old(lex).index_v(),
    decreases old(lex).tokens_v().len() - old(lex).index_v(), 1int,
{
    proof {
        reveal(spec_predicate);
        reveal(spec_expr);
    }
    if lex.next_token().get_type() != TType::LeftBracket {
        return Ok(new_nil_xnode());
    }
    lex.get_token();
    let xnode = parse_expr(lex)?;
    expect_ttype(lex, TType::RightBracket, "a closing bracket must end the predicate")?;
    lex.get_token();
    Ok(xnode)
}

/// `PostfixExpr ::= PrimaryExpr (Predicate | ArgumentList | Lookup)*`: each
/// postfix makes a node (`ApplyPredicate`, `ApplyArgument` or `OperatorMap`)
/// with the expression so far on the left and the postfix on the right.
#[verifier::spinoff_prover]
fn parse_postfix_expr(lex: &mut Lexer) -> (res: Result<XNodePtr, XPathError>)
    requires
        old(lex).ready(),
    ensures
        reads_as(spec_postfix_expr(old(lex).tokens_v(), old(lex).index_v()), res, final(lex).index_v()),
        final(lex).moved_on_from(&*old(lex)),
        res matches Ok(x) ==> fn_tests_ok(x@),
    decreases old(lex).tokens_v().len() - old(lex).index_v(), 180int,
{
    proof {
        reveal(spec_postfix_expr);
        reveal(spec_primary);
        reveal(spec_postfix_loop);
        reveal(spec_postfix);
    }
    let primary_xnode = parse_primary_expr(lex)?;
    if is_nil_xnode(&primary_xnode) {
        return Ok(primary_xnode);
    }
    proof {
        reveal_strlit("");
        assert(""@ =~= Seq::<char>::empty());
    }
    let ghost t = lex.tokens_v();
    let mut curr_xnode = primary_xnode;
    loop
        invariant
            t == lex.tokens_v(),
            spec_postfix_expr(t, old(lex).index_v()) == spec_postfix_loop(t, lex.index_v(), curr_xnode@),
            lex.moved_on_from(&*old(lex)),
            fn_tests_ok(curr_xnode@),
        decreases lex.tokens_v().len() - lex.index_v(),
    {
        proof {
            reveal(spec_postfix_expr);
            reveal(spec_primary);
            reveal(spec_postfix_loop);
            reveal(spec_postfix);
        }
        let postfix_xnode = parse_postfix(lex)?;
        if is_nil_xnode(&postfix_xnode) {
            return Ok(curr_xnode);
        }
        let apply_type = match get_xnode_type(&postfix_xnode) {
            XNodeType::PredicateTop => XNodeType::ApplyPredicate,
            XNodeType::ArgumentListTop => XNodeType::ApplyArgument,
            _ => XNodeType::OperatorMap,
        };
        proof {
            reveal_strlit("");
            assert(""@ =~= Seq::<char>::empty());
        }
        let mut apply_postfix_xnode = new_xnode(apply_type, "");
        assign_as_left(&mut apply_postfix_xnode, curr_xnode);
        assign_as_right(&mut apply_postfix_xnode, postfix_xnode);
        curr_xnode = apply_postfix_xnode;
    }
}

/// `Postfix ::= Predicate | ArgumentList | Lookup`: a predicate under a
/// `PredicateTop` node, an argument list under an `ArgumentListTop` node, or
/// a lookup.
#[verifier::spinoff_prover]
fn parse_postfix(lex: &mut Lexer) -> (res: Result<XNodePtr, XPathError>)
    requires
        old(lex).ready(),
    ensures
        reads_as(spec_postfix(old(lex).tokens_v(), old(lex).index_v()), res, final(lex).index_v()),
        final(lex).moved_on_from(&*old(lex)),
        res matches Ok(x) ==> fn_tests_ok(x@),
        res matches Ok(x) ==> (x@.n_type != XNodeType::Nil ==> final(lex).index_v() > old(lex).index_v()),
    decreases old(lex).tokens_v().len() - old(lex).index_v(), 130int,
{
    proof {
        reveal(spec_postfix);
        reveal(spec_predicate);
        reveal(spec_argument_list);
        reveal(spec_unary_lookup);
    }
    proof {
        reveal_strlit("");
        assert(""@ =~= Seq::<char>::empty());
    }
    match lex.next_token().get_type() {
        TType::LeftBracket => {
            let xnode = parse_predicate(lex)?;
            let mut predicate_top_xnode = new_xnode(XNodeType::PredicateTop, "");
            assign_as_left(&mut predicate_top_xnode, xnode);
            Ok(predicate_top_xnode)
        },
        TType::LeftParen => {
            let xnode = parse_argument_list(lex)?;
            let mut argument_top_xnode = new_xnode(XNodeType::ArgumentListTop, "");
            assign_as_left(&mut argument_top_xnode, xnode);
            Ok(argument_top_xnode)
        },
        TType::Question => parse_unary_lookup(lex),
        _ => Ok(new_nil_xnode()),
    }
}

/// `PrimaryExpr ::= Literal | VarRef | ParenthesizedExpr | ContextItemExpr |
/// FunctionCall | FunctionItemExpr | MapConstructor | ArrayConstructor |
/// UnaryLookup`
#[verifier::spinoff_prover]
fn parse_primary_expr(lex: &mut Lexer) -> (res: Result<XNodePtr, XPathError>)
    requires
        old(lex).ready(),
    ensures
        reads_as(spec_primary(old(lex).tokens_v(), old(lex).index_v()), res, final(lex).index_v()),
        final(lex).moved_on_from(&*old(lex)),
        res matches Ok(x) ==> fn_tests_ok(x@),
    decreases old(lex).tokens_v().len() - old(lex).index_v(), 170int,
{
    proof {
        reveal(spec_primary);
        reveal(spec_primary_rest);
        reveal(spec_primary_items);
        reveal(spec_parenthesized_expr);
        reveal(spec_function_call);
        reveal(spec_function_item);
        reveal(spec_map_constructor);
        reveal(spec_array_constructor);
        reveal(spec_unary_lookup);
    }
    let xnode = parse_literal(lex)?;
    if !is_nil_xnode(&xnode) {
        return Ok(xnode);
    }
    let xnode = parse_varref(lex)?;
    if !is_nil_xnode(&xnode) {
        return Ok(xnode);
    }
    let xnode = parse_parenthesized_expr(lex)?;
    if !is_nil_xnode(&xnode) {
        return Ok(xnode);
    }
    let xnode = parse_context_item_expr(lex)?;
    if !is_nil_xnode(&xnode) {
        return Ok(xnode);
    }
    let xnode = parse_function_call(lex)?;
    if !is_nil_xnode(&xnode) {
        return Ok(xnode);
    }
    let xnode = parse_function_item_expr(lex)?;
    if !is_nil_xnode(&xnode) {
        return Ok(xnode);
    }
    let xnode = parse_map_constructor(lex)?;
    if !is_nil_xnode(&xnode) {
        return Ok(xnode);
    }
    let xnode = parse_array_constructor(lex)?;
    if !is_nil_xnode(&xnode) {
        return Ok(xnode);
    }
    let xnode = parse_unary_lookup(lex)?;
    if !is_nil_xnode(&xnode) {
        return Ok(xnode);
    }
    Ok(new_nil_xnode())
}

/// `ParenthesizedExpr ::= "(" Expr? ")"`: a `ParenthesizedExpr` node with
/// the expression on the left.
#[verifier::spinoff_prover]
fn parse_parenthesized_expr(lex: &mut Lexer) -> (res: Result<XNodePtr, XPathError>)
    requires
        old(lex).ready(),
    ensures
        reads_as(spec_parenthesized_expr(old(lex).tokens_v(), old(lex).index_v()), res, final(lex).index_v()),
        final(lex).moved_on_from(&*old(lex)),
        res matches Ok(x) ==> fn_tests_ok(x@),
        res matches Ok(x) ==> (x@.n_type == XNodeType::Nil ==> final(lex).index_v() == old(lex).index_v()),
        res matches Ok(x) ==> (x@.n_type != XNodeType::Nil ==> x@.n_type == XNodeType::ParenthesizedExpr),
        old(lex).current().0 == TType::LeftParen ==> final(lex).index_v() > old(lex).index_v(),
    decreases old(lex).tokens_v().len() - old(lex).index_v(), 1int,
{
    proof {
        reveal(spec_parenthesized_expr);
        reveal(spec_expr);
    }
    if lex.next_token().get_type() != TType::LeftParen {
        return Ok(new_nil_xnode());
    }
    lex.get_token();
    let xnode = parse_expr(lex)?;
    expect_ttype(lex, TType::RightParen, "a closing parenthesis is required")?;
    lex.get_token();
    proof {
        reveal_strlit("");
        assert(""@ =~= Seq::<char>::empty());
    }
    let mut parenthesized_expr_xnode = new_xnode(XNodeType::ParenthesizedExpr, "");
    assign_as_left(&mut parenthesized_expr_xnode, xnode);
    Ok(parenthesized_expr_xnode)
}

/// `FunctionItemExpr ::= NamedFunctionRef | InlineFunctionExpr`
#[verifier::spinoff_prover]
fn parse_function_item_expr(lex: &mut Lexer) -> (res: Result<XNodePtr, XPathError>)
    requires
        old(lex).ready(),
    ensures
        reads_as(spec_function_item(old(lex).tokens_v(), old(lex).index_v()), res, final(lex).index_v()),
        final(lex).moved_on_from(&*old(lex)),
        res matches Ok(x) ==> fn_tests_ok(x@),
    decreases old(lex).tokens_v().len() - old(lex).index_v(), 120int,
{
    proof {
        reveal(spec_function_item);
        reveal(spec_inline_function);
    }
    let xnode = parse_named_function_ref(lex)?;
    if !is_nil_xnode(&xnode) {
        return Ok(xnode);
    }
    parse_inline_function_expr(lex)
}

/// `InlineFunctionExpr ::= "function" "(" ParamList? ")" ("as"
/// SequenceType)? FunctionBody`: an `InlineFunction` node with the body on
/// the left and, on the right, a `ReturnType` node (the return type, by
/// default `item()*`) followed by the parameters.
#[verifier::spinoff_prover]
#[verifier::rlimit(60)]
fn parse_inline_function_expr(lex: &mut Lexer) -> (res: Result<XNodePtr, XPathError>)
    requires
        old(lex).ready(),
    ensures
        reads_as(spec_inline_function(old(lex).tokens_v(), old(lex).index_v()), res, final(lex).index_v()),
        final(lex).moved_on_from(&*old(lex)),
        res matches Ok(x) ==> fn_tests_ok(x@),
        res matches Ok(x) ==> (x@.n_type == XNodeType::Nil ==> final(lex).index_v() == old(lex).index_v()),
        res matches Ok(x) ==> (x@.n_type != XNodeType::Nil ==> x@.n_type == XNodeType::InlineFunction),
    decreases old(lex).tokens_v().len() - old(lex).index_v(), 1int,
{
    proof {
        reveal(spec_inline_function);
        reveal(spec_function_body);
    }
    if lex.next_token().get_type() != TType::Function {
        return Ok(new_nil_xnode());
    }
    lex.get_token();
    expect_ttype(lex, TType::LeftParen, "function needs an opening parenthesis")?;
    lex.get_token();
    let param_list_xnode = parse_param_list(lex)?;
    expect_ttype(lex, TType::RightParen, "a closing parenthesis must end the parameter list")?;
    lex.get_token();
    proof {
        reveal_strlit("");
        assert(""@ =~= Seq::<char>::empty());
    }
    let mut return_type_xnode = new_xnode(XNodeType::ReturnType, "");
    if at_name_as(lex) {
        lex.get_token();
        let xnode = parse_sequence_type(lex)?;
        assign_as_left(&mut return_type_xnode, xnode);
    } else {
        assign_as_left(&mut return_type_xnode, default_sequence_type());
    }
    let function_body_xnode = parse_function_body(lex)?;
    assign_as_right(&mut return_type_xnode, param_list_xnode);
    let mut inline_function_xnode = new_xnode(XNodeType::InlineFunction, "(inline function)");
    assign_as_left(&mut inline_function_xnode, function_body_xnode);
    assign_as_right(&mut inline_function_xnode, return_type_xnode);
    Ok(inline_function_xnode)
}

/// `FunctionBody ::= "{" Expr? "}"`: the expression.
#[verifier::spinoff_prover]
fn parse_function_body(lex: &mut Lexer) -> (res: Result<XNodePtr, XPathError>)
    requires
        old(lex).ready(),
    ensures
        reads_as(spec_function_body(old(lex).tokens_v(), old(lex).index_v()), res, final(lex).index_v()),
        final(lex).moved_on_from(&*old(lex)),
        res matches Ok(x) ==> fn_tests_ok(x@),
    decreases old(lex).tokens_v().len() - old(lex).index_v(), 1int,
{
    proof {
        reveal(spec_function_body);
        reveal(spec_expr);
    }
    expect_ttype(lex, TType::LeftCurly, "an opening brace must start the function body")?;
    lex.get_token();
    let xnode = parse_expr(lex)?;
    expect_ttype(lex, TType::RightCurly, "a closing brace must end the function body")?;
    lex.get_token();
    Ok(xnode)
}

/// `MapConstructor ::= "map" "{" (MapConstructorEntry (","
/// MapConstructorEntry)*)? "}"`: a map node with the entries on the left.
#[verifier::spinoff_prover]
fn parse_map_constructor(lex: &mut Lexer) -> (res: Result<XNodePtr, XPathError>)
    requires
        old(lex).ready(),
    ensures
        reads_as(spec_map_constructor(old(lex).tokens_v(), old(lex).index_v()), res, final(lex).index_v()),
        final(lex).moved_on_from(&*old(lex)),
        res matches Ok(x) ==> fn_tests_ok(x@),
        res matches Ok(x) ==> (x@.n_type == XNodeType::Nil ==> final(lex).index_v() == old(lex).index_v()),
        res matches Ok(x) ==> (x@.n_type != XNodeType::Nil ==> x@.n_type == XNodeType::MapExpr),
    decreases old(lex).tokens_v().len() - old(lex).index_v(), 1int,
{
    proof {
        reveal(spec_map_constructor);
        reveal(spec_map_entries);
    }
    if lex.next_token().get_type() != TType::MapKw {
        return Ok(new_nil_xnode());
    }
    lex.get_token();
    expect_ttype(lex, TType::LeftCurly, "an opening brace must start the map")?;
    lex.get_token();
    let entries_xnode = parse_map_constructor_entries(lex)?;
    expect_ttype(lex, TType::RightCurly, "a closing brace must end the map")?;
    lex.get_token();
    proof {
        reveal_strlit("");
        assert(""@ =~= Seq::<char>::empty());
    }
    let mut map_xnode = new_xnode(XNodeType::MapExpr, "");
    assign_as_left(&mut map_xnode, entries_xnode);
    Ok(map_xnode)
}

/// The entries of a map constructor: a chain on the right of `MapConstruct`
/// nodes, each with its entry on the left.
#[verifier::spinoff_prover]
fn parse_map_constructor_entries(lex: &mut Lexer) -> (res: Result<XNodePtr, XPathError>)
    requires
        old(lex).ready(),
    ensures
        reads_as(spec_map_entries(old(lex).tokens_v(), old(lex).index_v()), res, final(lex).index_v()),
        final(lex).moved_on_from(&*old(lex)),
        res matches Ok(x) ==> fn_tests_ok(x@),
    decreases old(lex).tokens_v().len() - old(lex).index_v(), 1500int,
{
    proof {
        reveal(spec_map_entries);
        reveal(spec_map_entry);
        reveal(spec_map_entries_loop);
    }
    let xnode = parse_map_constructor_entry(lex)?;
    if is_nil_xnode(&xnode) {
        return Ok(xnode);
    }
    proof {
        reveal_strlit("");
        assert(""@ =~= Seq::<char>::empty());
    }
    let mut entries: Vec<XNodePtr> = Vec::new();
    let mut top_xnode = new_xnode(XNodeType::MapConstruct, "");
    assign_as_left(&mut top_xnode, xnode);
    entries.push(top_xnode);
    let ghost t = lex.tokens_v();
    proof {
        assert(views(entries@) =~= seq![top_xnode@]);
    }
    while lex.next_token().get_type() == TType::Comma
        invariant
            t == lex.tokens_v(),
            spec_map_entries(t, old(lex).index_v()) == linked(spec_map_entries_loop(t, lex.index_v(), views(entries@))),
            lex.moved_on_from(&*old(lex)),
            entries@.len() >= 1,
            forall|i: int| 0 <= i < entries@.len() ==> fn_tests_ok(#[trigger] entries@[i]@),
        decreases lex.tokens_v().len() - lex.index_v(),
    {
        proof {
            reveal(spec_map_entries);
            reveal(spec_map_entry);
            reveal(spec_map_entries_loop);
        }
        let ghost p = lex.index_v();
        let ghost before = views(entries@);
        lex.get_token();
        assert(lex.index_v() == p + 1);
        let entry_xnode = parse_map_constructor_entry(lex)?;
        let mut entry_list_xnode = new_xnode(XNodeType::MapConstruct, "");
        assign_as_left(&mut entry_list_xnode, entry_xnode);
        entries.push(entry_list_xnode);
        proof {
            reveal_strlit("");
            assert(""@ =~= Seq::<char>::empty());
            assert(views(entries@) =~= before.push(entry_list_xnode@));
        }
    }
    Ok(link_right_chain(entries))
}

/// `MapConstructorEntry ::= ExprSingle ":" ExprSingle`: a `MapEntry` node
/// with the key on the left and the value on the right.
#[verifier::spinoff_prover]
fn parse_map_constructor_entry(lex: &mut Lexer) -> (res: Result<XNodePtr, XPathError>)
    requires
        old(lex).ready(),
    ensures
        reads_as(spec_map_entry(old(lex).tokens_v(), old(lex).index_v()), res, final(lex).index_v()),
        final(lex).moved_on_from(&*old(lex)),
        res matches Ok(x) ==> fn_tests_ok(x@),
    decreases old(lex).tokens_v().len() - old(lex).index_v(), 1470int,
{
    proof {
        reveal(spec_map_entry);
        reveal(spec_expr_single);
    }
    let key_xnode = parse_expr_single(lex)?;
    if is_nil_xnode(&key_xnode) {
        return Ok(key_xnode);
    }
    expect_ttype(lex, TType::Colon, "a colon must follow the key of a map entry")?;
    lex.get_token();
    let value_xnode = parse_expr_single(lex)?;
    if is_nil_xnode(&value_xnode) {
        return Err(syntax_error_here(lex, "a map entry needs a value"));
    }
    proof {
        reveal_strlit("");
        assert(""@ =~= Seq::<char>::empty());
    }
    let mut xnode = new_xnode(XNodeType::MapEntry, "");
    assign_as_left(&mut xnode, key_xnode);
    assign_as_right(&mut xnode, value_xnode);
    Ok(xnode)
}

/// `ArrayConstructor ::= SquareArrayConstructor | CurlyArrayConstructor`
#[verifier::spinoff_prover]
fn parse_array_constructor(lex: &mut Lexer) -> (res: Result<XNodePtr, XPathError>)
    requires
        old(lex).ready(),
    ensures
        reads_as(spec_array_constructor(old(lex).tokens_v(), old(lex).index_v()), res, final(lex).index_v()),
        final(lex).moved_on_from(&*old(lex)),
        res matches Ok(x) ==> fn_tests_ok(x@),
    decreases old(lex).tokens_v().len() - old(lex).index_v(), 120int,
{
    proof {
        reveal(spec_array_constructor);
        reveal(spec_curly_array);
        reveal(spec_square_array);
    }
    let xnode = parse_curly_array_constructor(lex)?;
    if !is_nil_xnode(&xnode) {
        return Ok(xnode);
    }
    let xnode = parse_square_array_constructor(lex)?;
    if !is_nil_xnode(&xnode) {
        return Ok(xnode);
    }
    Ok(new_nil_xnode())
}

/// `SquareArrayConstructor ::= "[" (ExprSingle ("," ExprSingle)*)? "]"`: a
/// `SquareArray` node with its members on the left.
#[verifier::spinoff_prover]
fn parse_square_array_constructor(lex: &mut Lexer) -> (res: Result<XNodePtr, XPathError>)
    requires
        old(lex).ready(),
    ensures
        reads_as(spec_square_array(old(lex).tokens_v(), old(lex).index_v()), res, final(lex).index_v()),
        final(lex).moved_on_from(&*old(lex)),
        res matches Ok(x) ==> fn_tests_ok(x@),
        res matches Ok(x) ==> (x@.n_type == XNodeType::Nil ==> final(lex).index_v() == old(lex).index_v()),
        res matches Ok(x) ==> (x@.n_type != XNodeType::Nil ==> x@.n_type == XNodeType::SquareArray),
    decreases old(lex).tokens_v().len() - old(lex).index_v(), 1int,
{
    proof {
        reveal(spec_square_array);
        reveal(spec_array_members);
    }
    if lex.next_token().get_type() != TType::LeftBracket {
        return Ok(new_nil_xnode());
    }
    lex.get_token();
    let array_top_xnode = parse_expr_in_array(lex)?;
    expect_ttype(lex, TType::RightBracket, "a closing bracket must end the array")?;
    lex.get_token();
    proof {
        reveal_strlit("");
        assert(""@ =~= Seq::<char>::empty());
    }
    let mut array_xnode = new_xnode(XNodeType::SquareArray, "");
    assign_as_left(&mut array_xnode, array_top_xnode);
    Ok(array_xnode)
}

/// `CurlyArrayConstructor ::= "array" "{" Expr? "}"`: a `CurlyArray` node
/// with the expression on the left.
#[verifier::spinoff_prover]
fn parse_curly_array_constructor(lex: &mut Lexer) -> (res: Result<XNodePtr, XPathError>)
    requires
        old(lex).ready(),
    ensures
        reads_as(spec_curly_array(old(lex).tokens_v(), old(lex).index_v()), res, final(lex).index_v()),
        final(lex).moved_on_from(&*old(lex)),
        res matches Ok(x) ==> fn_tests_ok(x@),
        res matches Ok(x) ==> (x@.n_type == XNodeType::Nil ==> final(lex).index_v() == old(lex).index_v()),
        res matches Ok(x) ==> (x@.n_type != XNodeType::Nil ==> x@.n_type == XNodeType::CurlyArray),
    decreases old(lex).tokens_v().len() - old(lex).index_v(), 1int,
{
    proof {
        reveal(spec_curly_array);
        reveal(spec_expr);
    }
    if lex.next_token().get_type() != TType::Array {
        return Ok(new_nil_xnode());
    }
    lex.get_token();
    expect_ttype(lex, TType::LeftCurly, "an opening brace must start the array")?;
    lex.get_token();
    let array_top_xnode = parse_expr(lex)?;
    expect_ttype(lex, TType::RightCurly, "a closing brace must end the array")?;
    lex.get_token();
    proof {
        reveal_strlit("");
        assert(""@ =~= Seq::<char>::empty());
    }
    let mut array_xnode = new_xnode(XNodeType::CurlyArray, "");
    assign_as_left(&mut array_xnode, array_top_xnode);
    Ok(array_xnode)
}

/// The members of a square array: a chain on the right of `ArrayEntry`
/// nodes, each with its member on the left.
#[verifier::spinoff_prover]
fn parse_expr_in_array(lex: &mut Lexer) -> (res: Result<XNodePtr, XPathError>)
    requires
        old(lex).ready(),
    ensures
        reads_as(spec_array_members(old(lex).tokens_v(), old(lex).index_v()), res, final(lex).index_v()),
        final(lex).moved_on_from(&*old(lex)),
        res matches Ok(x) ==> fn_tests_ok(x@),
    decreases old(lex).tokens_v().len() - old(lex).index_v(), 1470int,
{
    proof {
        reveal(spec_array_members);
        reveal(spec_expr_single);
        reveal(spec_array_members_loop);
    }
    let xnode = parse_expr_single(lex)?;
    if is_nil_xnode(&xnode) {
        return Ok(xnode);
    }
    proof {
        reveal_strlit("");
        assert(""@ =~= Seq::<char>::empty());
    }
    let mut members: Vec<XNodePtr> = Vec::new();
    let mut top_xnode = new_xnode(XNodeType::ArrayEntry, "");
    assign_as_left(&mut top_xnode, xnode);
    members.push(top_xnode);
    let ghost t = lex.tokens_v();
    proof {
        assert(views(members@) =~= seq![top_xnode@]);
    }
    while lex.next_token().get_type() == TType::Comma
        invariant
            t == lex.tokens_v(),
            spec_array_members(t, old(lex).index_v())
                == linked(spec_array_members_loop(t, lex.index_v(), views(members@))),
            lex.moved_on_from(&*old(lex)),
            members@.len() >= 1,
            forall|i: int| 0 <= i < members@.len() ==> fn_tests_ok(#[trigger] members@[i]@),
        decreases lex.tokens_v().len() - lex.index_v(),
    {
        proof {
            reveal(spec_array_members);
            reveal(spec_expr_single);
            reveal(spec_array_members_loop);
        }
        let ghost p = lex.index_v();
        let ghost before = views(members@);
        lex.get_token();
        assert(lex.index_v() == p + 1);
        let expr_xnode = parse_expr_single(lex)?;
        let mut entry_xnode = new_xnode(XNodeType::ArrayEntry, "");
        assign_as_left(&mut entry_xnode, expr_xnode);
        members.push(entry_xnode);
        proof {
            reveal_strlit("");
            assert(""@ =~= Seq::<char>::empty());
            assert(views(members@) =~= before.push(entry_xnode@));
        }
    }
    Ok(link_right_chain(members))
}

/// `UnaryLookup ::= "?" KeySpecifier`: a name or an integer becomes a
/// literal key under an `UnaryLookupByExpr` node, a parenthesized
/// expression that node's key too, and `*` an `UnaryLookupByWildcard` node.
/// Anything else after `?` leaves the cursor on the `?`.
#[verifier::spinoff_prover]
fn parse_unary_lookup(lex: &mut Lexer) -> (res: Result<XNodePtr, XPathError>)
    requires
        old(lex).ready(),
    ensures
        reads_as(spec_unary_lookup(old(lex).tokens_v(), old(lex).index_v()), res, final(lex).index_v()),
        final(lex).moved_on_from(&*old(lex)),
        res matches Ok(x) ==> fn_tests_ok(x@),
        res matches Ok(x) ==> (x@.n_type == XNodeType::Nil <==> final(lex).index_v() == old(lex).index_v()),
    decreases old(lex).tokens_v().len() - old(lex).index_v(), 1int,
{
    proof {
        reveal(spec_unary_lookup);
        reveal(spec_parenthesized_expr);
    }
    if lex.next_token().get_type() != TType::Question {
        return Ok(new_nil_xnode());
    }
    lex.get_token();
    proof {
        reveal_strlit("");
        assert(""@ =~= Seq::<char>::empty());
    }
    let tok = lex.next_token();
    match tok.get_type() {
        TType::Name => {
            lex.get_token();
            let key_xnode = new_xnode(XNodeType::StringLiteral, tok.get_name());
            let mut xnode = new_xnode(XNodeType::UnaryLookupByExpr, "");
            assign_as_left(&mut xnode, key_xnode);
            Ok(xnode)
        },
        TType::IntegerLiteral => {
            lex.get_token();
            let key_xnode = new_xnode(XNodeType::IntegerLiteral, tok.get_name());
            let mut xnode = new_xnode(XNodeType::UnaryLookupByExpr, "");
            assign_as_left(&mut xnode, key_xnode);
            Ok(xnode)
        },
        TType::Asterisk => {
            lex.get_token();
            Ok(new_xnode(XNodeType::UnaryLookupByWildcard, "*"))
        },
        TType::LeftParen => {
            let key_xnode = parse_parenthesized_expr(lex)?;
            let mut xnode = new_xnode(XNodeType::UnaryLookupByExpr, "");
            assign_as_left(&mut xnode, key_xnode);
            Ok(xnode)
        },
        _ => {
            lex.unget_token();
            Ok(new_nil_xnode())
        },
    }
}

/// `FunctionCall ::= EQName ArgumentList`: a `FunctionCall` node named by
/// the function (`fn:` added to an unprefixed name), or `PartialFunctionCall`
/// when an argument is `?`, with the arguments on the right. The function
/// must be one that the evaluator has, with that number of arguments.
#[verifier::spinoff_prover]
fn parse_function_call(lex: &mut Lexer) -> (res: Result<XNodePtr, XPathError>)
    requires
        old(lex).ready(),
    ensures
        reads_as(spec_function_call(old(lex).tokens_v(), old(lex).index_v()), res, final(lex).index_v()),
        final(lex).moved_on_from(&*old(lex)),
        res matches Ok(x) ==> fn_tests_ok(x@),
        res matches Ok(x) ==> (x@.n_type != XNodeType::Nil ==> {
            &&& x@.n_type == (if chain_has_placeholder(xt_right(x@)) {
                XNodeType::PartialFunctionCall
            } else {
                XNodeType::FunctionCall
            })
            &&& spec_check_function_spec(x@.name, right_chain_len(xt_right(x@)) as int)
        }),
        res matches Ok(x) ==> (x@.n_type == XNodeType::Nil ==> final(lex).index_v() == old(lex).index_v()),
    decreases old(lex).tokens_v().len() - old(lex).index_v(), 120int,
{
    proof {
        reveal(spec_function_call);
        reveal(spec_argument_list);
    }
    lex.mark_token_index();
    let func_name = parse_static_func_name(lex)?;
    proof {
        reveal_strlit("");
        assert(""@ =~= Seq::<char>::empty());
    }
    if str_eq(func_name.as_str(), "") {
        lex.restore_marked_index();
        return Ok(new_nil_xnode());
    }
    if lex.next_token().get_type() != TType::LeftParen {
        lex.restore_marked_index();
        return Ok(new_nil_xnode());
    }
    let arg_node = parse_argument_list(lex)?;

    let mut arity: usize = 0;
    let mut is_partial_call = false;
    let mut curr = arg_node.copy();
    while !is_nil_xnode(&curr)
        invariant
            arity + right_chain_len(curr@) == right_chain_len(arg_node@),
            right_chain_len(arg_node@) <= usize::MAX,
            chain_has_placeholder(arg_node@) == (is_partial_call || chain_has_placeholder(curr@)),
        decreases right_chain_len(curr@),
    {
        if get_xnode_type(&curr) == XNodeType::ArgumentPlaceholder {
            is_partial_call = true;
        }
        arity += 1;
        curr = get_right(&curr);
    }

    if !check_function_spec(func_name.as_str(), arity) {
        return Err(error_in_context(
            XPathErrorKind::SyntaxError,
            func_name.as_str(),
            "the function is not implemented, or takes another number of arguments",
        ));
    }
    let func_type = if is_partial_call {
        XNodeType::PartialFunctionCall
    } else {
        XNodeType::FunctionCall
    };
    let mut func_node = new_xnode(func_type, func_name.as_str());
    assign_as_right(&mut func_node, arg_node);
    Ok(func_node)
}

/// `ArgumentList ::= "(" (Argument ("," Argument)*)? ")"`: the arguments in
/// a chain on the right.
#[verifier::spinoff_prover]
fn parse_argument_list(lex: &mut Lexer) -> (res: Result<XNodePtr, XPathError>)
    requires
        old(lex).ready(),
    ensures
        reads_as(spec_argument_list(old(lex).tokens_v(), old(lex).index_v()), res, final(lex).index_v()),
        final(lex).moved_on_from(&*old(lex)),
        res matches Ok(x) ==> fn_tests_ok(x@),
        res matches Ok(x) ==> right_chain_len(x@) <= usize::MAX,
        old(lex).current().0 == TType::LeftParen ==> final(lex).index_v() > old(lex).index_v(),
    decreases old(lex).tokens_v().len() - old(lex).index_v(), 1int,
{
    proof {
        reveal(spec_argument_list);
        reveal(spec_arguments);
    }
    expect_ttype(lex, TType::LeftParen, "an opening parenthesis must start the arguments")?;
    lex.get_token();
    let xnode = parse_argument_list_sub(lex)?;
    expect_ttype(lex, TType::RightParen, "a closing parenthesis must end the arguments")?;
    lex.get_token();
    Ok(xnode)
}

/// The arguments between the parentheses, linked on the right up to the
/// first missing one.
#[verifier::spinoff_prover]
fn parse_argument_list_sub(lex: &mut Lexer) -> (res: Result<XNodePtr, XPathError>)
    requires
        old(lex).ready(),
    ensures
        reads_as(spec_arguments(old(lex).tokens_v(), old(lex).index_v()), res, final(lex).index_v()),
        final(lex).moved_on_from(&*old(lex)),
        res matches Ok(x) ==> fn_tests_ok(x@),
        res matches Ok(x) ==> right_chain_len(x@) <= usize::MAX,
    decreases old(lex).tokens_v().len() - old(lex).index_v(), 1500int,
{
    proof {
        reveal(spec_arguments);
        reveal(spec_argument);
        reveal(spec_arguments_loop);
    }
    let xnode = parse_argument(lex)?;
    if is_nil_xnode(&xnode) {
        proof {
            assert(right_chain_len(xnode@) == 0);
        }
        return Ok(xnode);
    }
    let ghost t = lex.tokens_v();
    let mut args: Vec<XNodePtr> = Vec::new();
    args.push(xnode);
    proof {
        assert(views(args@) =~= seq![xnode@]);
    }
    while lex.next_token().get_type() == TType::Comma
        invariant
            t == lex.tokens_v(),
            spec_arguments(t, old(lex).index_v()) == linked(spec_arguments_loop(t, lex.index_v(), views(args@))),
            lex.moved_on_from(&*old(lex)),
            args@.len() >= 1,
            forall|i: int| 0 <= i < args@.len() ==> fn_tests_ok(#[trigger] args@[i]@),
            forall|i: int| 0 <= i < args@.len() ==> (#[trigger] args@[i]@).right is None,
        decreases lex.tokens_v().len() - lex.index_v(),
    {
        proof {
            reveal(spec_arguments);
            reveal(spec_argument);
            reveal(spec_arguments_loop);
        }
        let ghost p = lex.index_v();
        let ghost before = views(args@);
        lex.get_token();
        assert(lex.index_v() == p + 1);
        let next_arg_xnode = parse_argument(lex)?;
        args.push(next_arg_xnode);
        proof {
            assert(views(args@) =~= before.push(next_arg_xnode@));
        }
    }
    // The chain is no longer than the list, whose length fits in a `usize`.
    let n = args.len();
    assert(n <= usize::MAX);
    Ok(link_right_chain(args))
}

/// `Argument ::= ExprSingle | "?"`: an `ArgumentTop` node with the
/// expression on the left, or an `ArgumentPlaceholder` node.
#[verifier::spinoff_prover]
fn parse_argument(lex: &mut Lexer) -> (res: Result<XNodePtr, XPathError>)
    requires
        old(lex).ready(),
    ensures
        reads_as(spec_argument(old(lex).tokens_v(), old(lex).index_v()), res, final(lex).index_v()),
        final(lex).moved_on_from(&*old(lex)),
        res matches Ok(x) ==> fn_tests_ok(x@),
        res matches Ok(x) ==> x@.right is None,
    decreases old(lex).tokens_v().len() - old(lex).index_v(), 1470int,
{
    proof {
        reveal(spec_argument);
        reveal(spec_expr_single);
    }
    let xnode = parse_expr_single(lex)?;
    proof {
        reveal_strlit("");
        assert(""@ =~= Seq::<char>::empty());
    }
    if !is_nil_xnode(&xnode) {
        let mut xnode_top = new_xnode(XNodeType::ArgumentTop, "");
        assign_as_left(&mut xnode_top, xnode);
        return Ok(xnode_top);
    }
    if lex.next_token().get_type() == TType::Question {
        lex.get_token();
        return Ok(new_xnode(XNodeType::ArgumentPlaceholder, "?"));
    }
    Ok(new_nil_xnode())
}

// =====================================================================
// The whole expression.

/// `XPath ::= Expr`, which must take every token.
#[verifier::spinoff_prover]
fn parse_main(lex: &mut Lexer) -> (res: Result<XNodePtr, XPathError>)
    requires
        old(lex).ready(),
    ensures
        final(lex).moved_on_from(&*old(lex)),
        res matches Ok(x) ==> fn_tests_ok(x@),
        reads_as(spec_xpath(old(lex).tokens_v(), old(lex).index_v()), res, final(lex).index_v()),
{
    proof {
        reveal(spec_expr);
    }
    let xnode = parse_expr(lex)?;
    expect_ttype(lex, TType::EOF, "tokens are left after the expression")?;
    Ok(xnode)
}

/// Reads an XPath expression into its syntax tree: the tree that
/// `spec_compile` gives, or an error where the lexer or the grammar refuses
/// the expression. A tree that comes back has every function test complete,
/// as the subtype checks require.
pub fn compile_xpath(xpath: &String) -> (res: Result<XNodePtr, XPathError>)
    requires
        xpath@.len() + 4 <= usize::MAX,
    ensures
        match spec_compile(xpath@) {
            Ok(x) => res matches Ok(r) && r@ == x,
            Err(k) => res matches Err(e) && e.kind == k,
        },
        res matches Ok(x) ==> fn_tests_ok(x@),
{
    let mut lex = Lexer::new(xpath)?;
    parse_main(&mut lex)
}

} // verus!
