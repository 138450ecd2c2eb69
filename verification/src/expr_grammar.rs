//! The XPath expression grammar as the parser reads it, in the form of
//! `grammar`: for each rule, the tree that the tokens from a position give
//! and the position after them, or the kind of its error (a syntax error,
//! but for the namespace axis, which is not implemented). The repeated parts
//! of a rule are rules of their own that carry what was read so far.

use vstd::prelude::*;
use crate::error::XPathErrorKind;
use crate::func::spec_check_function_spec;
use crate::grammar::{
    Parsed, ParsedList, kind, text, ahead, not_behind, leaf, with_left, with_right, linked, link_chain,
    spec_eqname, spec_wildcard, spec_kind_test, spec_sequence_type, spec_single_type,
    spec_default_sequence_type, is_word,
};
use crate::lexer::{TType, TokenV, index_after_get, spec_tokenize, spec_ttype_label};
use crate::xnode::{XNodeType, XTree, nil_tree, right_chain_len, chain_has_placeholder, spec_xnode_type_label};

verus! {

// =====================================================================
// Binary operators.

/// The grammar levels that read operands joined by binary operators.
#[derive(PartialEq, Eq, Structural, Clone, Copy)]
pub enum BinLevel {
    Expr,
    Or,
    And,
    Comparison,
    StringConcat,
    Range,
    Additive,
    Multiplicative,
    Union,
    IntersectExcept,
    SimpleMap,
}

/// The node kind of the binary operator `t` at a level, if `t` is one.
pub open spec fn spec_bin_op(level: BinLevel, t: TType) -> Option<XNodeType> {
    match level {
        BinLevel::Expr => if t == TType::Comma { Some(XNodeType::OperatorConcatenate) } else { None },
        BinLevel::Or => if t == TType::Or { Some(XNodeType::OperatorOr) } else { None },
        BinLevel::And => if t == TType::And { Some(XNodeType::OperatorAnd) } else { None },
        BinLevel::Comparison => match t {
            TType::ValueEQ => Some(XNodeType::OperatorValueEQ),
            TType::ValueNE => Some(XNodeType::OperatorValueNE),
            TType::ValueLT => Some(XNodeType::OperatorValueLT),
            TType::ValueGT => Some(XNodeType::OperatorValueGT),
            TType::ValueLE => Some(XNodeType::OperatorValueLE),
            TType::ValueGE => Some(XNodeType::OperatorValueGE),
            TType::GeneralEQ => Some(XNodeType::OperatorGeneralEQ),
            TType::GeneralNE => Some(XNodeType::OperatorGeneralNE),
            TType::GeneralLT => Some(XNodeType::OperatorGeneralLT),
            TType::GeneralGT => Some(XNodeType::OperatorGeneralGT),
            TType::GeneralLE => Some(XNodeType::OperatorGeneralLE),
            TType::GeneralGE => Some(XNodeType::OperatorGeneralGE),
            TType::IsSameNode => Some(XNodeType::OperatorIsSameNode),
            TType::NodeBefore => Some(XNodeType::OperatorNodeBefore),
            TType::NodeAfter => Some(XNodeType::OperatorNodeAfter),
            _ => None,
        },
        BinLevel::StringConcat => if t == TType::OperatorConcat { Some(XNodeType::OperatorConcat) } else { None },
        BinLevel::Range => if t == TType::To { Some(XNodeType::OperatorTo) } else { None },
        BinLevel::Additive => match t {
            TType::Plus => Some(XNodeType::OperatorAdd),
            TType::Minus => Some(XNodeType::OperatorSubtract),
            _ => None,
        },
        BinLevel::Multiplicative => match t {
            TType::Asterisk => Some(XNodeType::OperatorMultiply),
            TType::Div => Some(XNodeType::OperatorDiv),
            TType::IDiv => Some(XNodeType::OperatorIDiv),
            TType::Mod => Some(XNodeType::OperatorMod),
            _ => None,
        },
        BinLevel::Union => if t == TType::Union { Some(XNodeType::OperatorUnion) } else { None },
        BinLevel::IntersectExcept => match t {
            TType::Intersect => Some(XNodeType::OperatorIntersect),
            TType::Except => Some(XNodeType::OperatorExcept),
            _ => None,
        },
        BinLevel::SimpleMap => if t == TType::OperatorMap { Some(XNodeType::OperatorMap) } else { None },
    }
}

/// The levels whose operator joins two operands at most: comparisons and
/// ranges do not chain.
pub open spec fn spec_bin_once(level: BinLevel) -> bool {
    level == BinLevel::Comparison || level == BinLevel::Range
}

/// The place of a level among the mutually recursive rules: a rule calls
/// rules placed lower on the same token, and any rule once it has read a
/// token.
pub open spec fn bin_rank(level: BinLevel) -> int {
    match level {
        BinLevel::Expr => 1370,
        BinLevel::Or => 1170,
        BinLevel::And => 1070,
        BinLevel::Comparison => 970,
        BinLevel::StringConcat => 870,
        BinLevel::Range => 770,
        BinLevel::Additive => 670,
        BinLevel::Multiplicative => 570,
        BinLevel::Union => 470,
        BinLevel::IntersectExcept => 370,
        BinLevel::SimpleMap => 260,
    }
}

/// The node that a binary operator makes is the operator that its token
/// names: a token `X` (a comparison, `or`, `and`, `to`, `div`, `idiv`,
/// `mod`, `union`, `intersect`, `except`) gives the node `OperatorX`, at
/// whatever level it is read; `,` gives `OperatorConcatenate`, `||`
/// `OperatorConcat`, `+` `OperatorAdd`, `-` `OperatorSubtract`, `*`
/// `OperatorMultiply` and `!` `OperatorMap`.
pub proof fn law_operator_nodes(level: BinLevel, tt: TType, k: XNodeType)
    requires
        spec_bin_op(level, tt) == Some(k),
    ensures
        (tt != TType::Comma && tt != TType::OperatorConcat && tt != TType::Plus && tt != TType::Minus && tt != TType::Asterisk && tt != TType::OperatorMap) ==> spec_xnode_type_label(k) == "Operator"@ + spec_ttype_label(tt),
        tt == TType::Comma ==> spec_xnode_type_label(k) == "OperatorConcatenate"@,
        tt == TType::OperatorConcat ==> spec_xnode_type_label(k) == "OperatorConcat"@,
        tt == TType::Plus ==> spec_xnode_type_label(k) == "OperatorAdd"@,
        tt == TType::Minus ==> spec_xnode_type_label(k) == "OperatorSubtract"@,
        tt == TType::Asterisk ==> spec_xnode_type_label(k) == "OperatorMultiply"@,
        tt == TType::OperatorMap ==> spec_xnode_type_label(k) == "OperatorMap"@,
{
    reveal_strlit("Operator");
    if tt == TType::Or {
        reveal_strlit("Or");
        reveal_strlit("OperatorOr");
        assert("Operator"@ + "Or"@ =~= "OperatorOr"@);
    }
    if tt == TType::And {
        reveal_strlit("And");
        reveal_strlit("OperatorAnd");
        assert("Operator"@ + "And"@ =~= "OperatorAnd"@);
    }
    if tt == TType::ValueEQ {
        reveal_strlit("ValueEQ");
        reveal_strlit("OperatorValueEQ");
        assert("Operator"@ + "ValueEQ"@ =~= "OperatorValueEQ"@);
    }
    if tt == TType::ValueNE {
        reveal_strlit("ValueNE");
        reveal_strlit("OperatorValueNE");
        assert("Operator"@ + "ValueNE"@ =~= "OperatorValueNE"@);
    }
    if tt == TType::ValueLT {
        reveal_strlit("ValueLT");
        reveal_strlit("OperatorValueLT");
        assert("Operator"@ + "ValueLT"@ =~= "OperatorValueLT"@);
    }
    if tt == TType::ValueGT {
        reveal_strlit("ValueGT");
        reveal_strlit("OperatorValueGT");
        assert("Operator"@ + "ValueGT"@ =~= "OperatorValueGT"@);
    }
    if tt == TType::ValueLE {
        reveal_strlit("ValueLE");
        reveal_strlit("OperatorValueLE");
        assert("Operator"@ + "ValueLE"@ =~= "OperatorValueLE"@);
    }
    if tt == TType::ValueGE {
        reveal_strlit("ValueGE");
        reveal_strlit("OperatorValueGE");
        assert("Operator"@ + "ValueGE"@ =~= "OperatorValueGE"@);
    }
    if tt == TType::GeneralEQ {
        reveal_strlit("GeneralEQ");
        reveal_strlit("OperatorGeneralEQ");
        assert("Operator"@ + "GeneralEQ"@ =~= "OperatorGeneralEQ"@);
    }
    if tt == TType::GeneralNE {
        reveal_strlit("GeneralNE");
        reveal_strlit("OperatorGeneralNE");
        assert("Operator"@ + "GeneralNE"@ =~= "OperatorGeneralNE"@);
    }
    if tt == TType::GeneralLT {
        reveal_strlit("GeneralLT");
        reveal_strlit("OperatorGeneralLT");
        assert("Operator"@ + "GeneralLT"@ =~= "OperatorGeneralLT"@);
    }
    if tt == TType::GeneralGT {
        reveal_strlit("GeneralGT");
        reveal_strlit("OperatorGeneralGT");
        assert("Operator"@ + "GeneralGT"@ =~= "OperatorGeneralGT"@);
    }
    if tt == TType::GeneralLE {
        reveal_strlit("GeneralLE");
        reveal_strlit("OperatorGeneralLE");
        assert("Operator"@ + "GeneralLE"@ =~= "OperatorGeneralLE"@);
    }
    if tt == TType::GeneralGE {
        reveal_strlit("GeneralGE");
        reveal_strlit("OperatorGeneralGE");
        assert("Operator"@ + "GeneralGE"@ =~= "OperatorGeneralGE"@);
    }
    if tt == TType::IsSameNode {
        reveal_strlit("IsSameNode");
        reveal_strlit("OperatorIsSameNode");
        assert("Operator"@ + "IsSameNode"@ =~= "OperatorIsSameNode"@);
    }
    if tt == TType::NodeBefore {
        reveal_strlit("NodeBefore");
        reveal_strlit("OperatorNodeBefore");
        assert("Operator"@ + "NodeBefore"@ =~= "OperatorNodeBefore"@);
    }
    if tt == TType::NodeAfter {
        reveal_strlit("NodeAfter");
        reveal_strlit("OperatorNodeAfter");
        assert("Operator"@ + "NodeAfter"@ =~= "OperatorNodeAfter"@);
    }
    if tt == TType::To {
        reveal_strlit("To");
        reveal_strlit("OperatorTo");
        assert("Operator"@ + "To"@ =~= "OperatorTo"@);
    }
    if tt == TType::Div {
        reveal_strlit("Div");
        reveal_strlit("OperatorDiv");
        assert("Operator"@ + "Div"@ =~= "OperatorDiv"@);
    }
    if tt == TType::IDiv {
        reveal_strlit("IDiv");
        reveal_strlit("OperatorIDiv");
        assert("Operator"@ + "IDiv"@ =~= "OperatorIDiv"@);
    }
    if tt == TType::Mod {
        reveal_strlit("Mod");
        reveal_strlit("OperatorMod");
        assert("Operator"@ + "Mod"@ =~= "OperatorMod"@);
    }
    if tt == TType::Union {
        reveal_strlit("Union");
        reveal_strlit("OperatorUnion");
        assert("Operator"@ + "Union"@ =~= "OperatorUnion"@);
    }
    if tt == TType::Intersect {
        reveal_strlit("Intersect");
        reveal_strlit("OperatorIntersect");
        assert("Operator"@ + "Intersect"@ =~= "OperatorIntersect"@);
    }
    if tt == TType::Except {
        reveal_strlit("Except");
        reveal_strlit("OperatorExcept");
        assert("Operator"@ + "Except"@ =~= "OperatorExcept"@);
    }
}

// =====================================================================
// Primary expressions without subexpressions.

/// The node kind of a literal token.
pub open spec fn literal_kind(t: TType) -> Option<XNodeType> {
    match t {
        TType::StringLiteral => Some(XNodeType::StringLiteral),
        TType::IntegerLiteral => Some(XNodeType::IntegerLiteral),
        TType::DecimalLiteral => Some(XNodeType::DecimalLiteral),
        TType::DoubleLiteral => Some(XNodeType::DoubleLiteral),
        _ => None,
    }
}

/// `Literal`: a node of the literal's kind named by its text.
pub open spec fn spec_literal(t: Seq<TokenV>, i: int) -> Parsed {
    match literal_kind(kind(t, i)) {
        Some(k) => Ok((leaf(k, text(t, i)), i + 1)),
        None => Ok((nil_tree(), i)),
    }
}

/// `VarRef ::= "$" VarName`
pub open spec fn spec_varref(t: Seq<TokenV>, i: int) -> Parsed {
    if kind(t, i) != TType::Dollar {
        Ok((nil_tree(), i))
    } else {
        match spec_eqname(t, i + 1, Seq::empty()) {
            Err(e) => Err(e),
            Ok((q, j)) => if q == Seq::<char>::empty() {
                Err(XPathErrorKind::SyntaxError)
            } else {
                Ok((leaf(XNodeType::VarRef, q), j))
            },
        }
    }
}

/// `ContextItemExpr ::= "."`
pub open spec fn spec_context_item(t: Seq<TokenV>, i: int) -> Parsed {
    if kind(t, i) == TType::Dot {
        Ok((leaf(XNodeType::ContextItem, "."@), i + 1))
    } else {
        Ok((nil_tree(), i))
    }
}

/// `NamedFunctionRef ::= EQName "#" IntegerLiteral`; anything else gives
/// the nil tree where it began.
pub open spec fn spec_named_function_ref(t: Seq<TokenV>, i: int) -> Parsed {
    match spec_eqname(t, i, "fn"@) {
        Err(e) => Err(e),
        Ok((q, j)) => if q != Seq::<char>::empty() && kind(t, j) == TType::Sharp
            && kind(t, j + 1) == TType::IntegerLiteral {
            Ok((leaf(XNodeType::NamedFunctionRef, q + "#"@ + text(t, j + 1)), j + 2))
        } else {
            Ok((nil_tree(), i))
        },
    }
}

/// Whether the token at `i` is the name `as`.
pub open spec fn at_as(t: Seq<TokenV>, i: int) -> bool {
    kind(t, i) == TType::Name && text(t, i) == "as"@
}

/// `Param ::= "$" EQName TypeDeclaration?`: the sequence type by default
/// is `item()*`.
pub open spec fn spec_param(t: Seq<TokenV>, i: int) -> Parsed {
    if kind(t, i) != TType::Dollar {
        Ok((nil_tree(), i))
    } else {
        match spec_eqname(t, i + 1, Seq::empty()) {
            Err(e) => Err(e),
            Ok((q, j)) => if q == Seq::<char>::empty() {
                Err(XPathErrorKind::SyntaxError)
            } else if at_as(t, j) {
                match spec_sequence_type(t, j + 1) {
                    Err(e) => Err(e),
                    Ok((st, k)) => Ok((with_left(leaf(XNodeType::Param, q), st), k)),
                }
            } else {
                Ok((with_left(leaf(XNodeType::Param, q), spec_default_sequence_type()), j))
            },
        }
    }
}

/// `ParamList ::= Param ("," Param)*`: the parameters linked on the right.
pub open spec fn spec_param_list(t: Seq<TokenV>, i: int) -> Parsed {
    match spec_param(t, i) {
        Err(e) => Err(e),
        Ok((x, j)) => if x.n_type == XNodeType::Nil || !not_behind(t, i, j) {
            Ok((x, j))
        } else {
            linked(spec_param_loop(t, j, seq![x]))
        },
    }
}

/// The parameters that follow commas from `p` on, after those of `acc`.
pub open spec fn spec_param_loop(t: Seq<TokenV>, p: int, acc: Seq<XTree>) -> ParsedList
    decreases t.len() - p,
{
    if kind(t, p) != TType::Comma || !ahead(t, p, p + 1) {
        Ok((acc, p))
    } else {
        match spec_param(t, p + 1) {
            Err(e) => Err(e),
            Ok((x, q)) => if !not_behind(t, p + 1, q) {
                Err(XPathErrorKind::SyntaxError)
            } else {
                spec_param_loop(t, q, acc.push(x))
            },
        }
    }
}

// =====================================================================
// Expressions.

/// `Expr ::= ExprSingle ("," ExprSingle)*`
#[verifier::opaque]
pub open spec fn spec_expr(t: Seq<TokenV>, i: int) -> Parsed
    decreases t.len() - i, 1400int,
{
    spec_bin(t, i, BinLevel::Expr)
}

/// `operand (op operand)*`, joined to the left: each operator becomes a node
/// named by its text, with the operands so far on the left and the next on
/// the right.
#[verifier::opaque]
pub open spec fn spec_bin(t: Seq<TokenV>, i: int, level: BinLevel) -> Parsed
    decreases t.len() - i, bin_rank(level),
{
    match spec_bin_operand(t, i, level) {
        Err(e) => Err(e),
        Ok((x, j)) => if !not_behind(t, i, j) {
            Err(XPathErrorKind::SyntaxError)
        } else {
            spec_bin_loop(t, j, level, x)
        },
    }
}

/// The operators and operands of a level from `p` on, joined to `acc`.
#[verifier::opaque]
pub open spec fn spec_bin_loop(t: Seq<TokenV>, p: int, level: BinLevel, acc: XTree) -> Parsed
    decreases t.len() - p, bin_rank(level) - 10,
{
    match spec_bin_op(level, kind(t, p)) {
        None => Ok((acc, p)),
        Some(k) => if !ahead(t, p, p + 1) {
            Err(XPathErrorKind::SyntaxError)
        } else {
            match spec_bin_operand(t, p + 1, level) {
                Err(e) => Err(e),
                Ok((y, q)) => {
                    let node = with_right(with_left(leaf(k, text(t, p)), acc), y);
                    if spec_bin_once(level) {
                        Ok((node, q))
                    } else if !ahead(t, p, q) {
                        Err(XPathErrorKind::SyntaxError)
                    } else {
                        spec_bin_loop(t, q, level, node)
                    }
                },
            }
        },
    }
}

/// One operand of a level: the rule of the level below.
#[verifier::opaque]
pub open spec fn spec_bin_operand(t: Seq<TokenV>, i: int, level: BinLevel) -> Parsed
    decreases t.len() - i, bin_rank(level) - 30,
{
    match level {
        BinLevel::Expr => spec_expr_single(t, i),
        BinLevel::Or => spec_bin(t, i, BinLevel::And),
        BinLevel::And => spec_bin(t, i, BinLevel::Comparison),
        BinLevel::Comparison => spec_bin(t, i, BinLevel::StringConcat),
        BinLevel::StringConcat => spec_bin(t, i, BinLevel::Range),
        BinLevel::Range => spec_bin(t, i, BinLevel::Additive),
        BinLevel::Additive => spec_bin(t, i, BinLevel::Multiplicative),
        BinLevel::Multiplicative => spec_bin(t, i, BinLevel::Union),
        BinLevel::Union => spec_bin(t, i, BinLevel::IntersectExcept),
        BinLevel::IntersectExcept => spec_instanceof(t, i),
        BinLevel::SimpleMap => spec_path(t, i),
    }
}

/// `ExprSingle ::= ForExpr | LetExpr | QuantifiedExpr | IfExpr | OrExpr`
#[verifier::opaque]
pub open spec fn spec_expr_single(t: Seq<TokenV>, i: int) -> Parsed
    decreases t.len() - i, 1300int,
{
    match spec_for_expr(t, i) {
        Err(e) => Err(e),
        Ok((x1, j1)) => if x1.n_type != XNodeType::Nil {
            Ok((x1, j1))
        } else if !not_behind(t, i, j1) {
            Err(XPathErrorKind::SyntaxError)
        } else {
            match spec_let_expr(t, j1) {
                Err(e) => Err(e),
                Ok((x2, j2)) => if x2.n_type != XNodeType::Nil {
                    Ok((x2, j2))
                } else if !not_behind(t, i, j2) {
                    Err(XPathErrorKind::SyntaxError)
                } else {
                    match spec_quantified_expr(t, j2) {
                        Err(e) => Err(e),
                        Ok((x3, j3)) => if x3.n_type != XNodeType::Nil {
                            Ok((x3, j3))
                        } else if !not_behind(t, i, j3) {
                            Err(XPathErrorKind::SyntaxError)
                        } else {
                            match spec_if_expr(t, j3) {
                                Err(e) => Err(e),
                                Ok((x4, j4)) => if x4.n_type != XNodeType::Nil {
                                    Ok((x4, j4))
                                } else if !not_behind(t, i, j4) {
                                    Err(XPathErrorKind::SyntaxError)
                                } else {
                                    spec_bin(t, j4, BinLevel::Or)
                                },
                            }
                        },
                    }
                },
            }
        },
    }
}

/// The rest of a `for`, `let`, `some` or `every` expression from `p`: the
/// bindings, the word `after` and the expression it introduces, all linked
/// after `head`.
#[verifier::opaque]
pub open spec fn spec_bound_expr(
    t: Seq<TokenV>,
    i: int,
    p: int,
    bind: XNodeType,
    head: XTree,
    after: Seq<char>,
) -> Parsed
    decreases t.len() - i, 9int,
{
    if !ahead(t, i, p) {
        Err(XPathErrorKind::SyntaxError)
    } else {
        match spec_binding_loop(t, p, bind, seq![head]) {
            Err(e) => Err(e),
            Ok((chain, q)) => if !is_word(t, q, after) {
                Err(XPathErrorKind::SyntaxError)
            } else {
                let r = index_after_get(q, t.len() as int);
                if !ahead(t, i, r) {
                    Err(XPathErrorKind::SyntaxError)
                } else {
                    match spec_expr_single(t, r) {
                        Err(e) => Err(e),
                        Ok((e, k)) => Ok((link_chain(chain.push(e)), k)),
                    }
                }
            },
        }
    }
}

/// `ForExpr ::= "for" SimpleForBinding ("," SimpleForBinding)* "return"
/// ExprSingle`: a `ForExpr` node, then its bindings and the returned
/// expression in a chain on the right.
#[verifier::opaque]
pub open spec fn spec_for_expr(t: Seq<TokenV>, i: int) -> Parsed
    decreases t.len() - i, 10int,
{
    if kind(t, i) != TType::For {
        Ok((nil_tree(), i))
    } else {
        spec_bound_expr(t, i, i + 1, XNodeType::ForVarBind, leaf(XNodeType::ForExpr, "for"@), "return"@)
    }
}

/// `LetExpr ::= "let" SimpleLetBinding ("," SimpleLetBinding)* "return"
/// ExprSingle`, built as a for expression is.
#[verifier::opaque]
pub open spec fn spec_let_expr(t: Seq<TokenV>, i: int) -> Parsed
    decreases t.len() - i, 10int,
{
    if kind(t, i) != TType::Let {
        Ok((nil_tree(), i))
    } else {
        spec_bound_expr(t, i, i + 1, XNodeType::LetVarBind, leaf(XNodeType::LetExpr, "let"@), "return"@)
    }
}

/// `QuantifiedExpr ::= ("some" | "every") "$" VarName "in" ExprSingle (","
/// "$" VarName "in" ExprSingle)* "satisfies" ExprSingle`
#[verifier::opaque]
pub open spec fn spec_quantified_expr(t: Seq<TokenV>, i: int) -> Parsed
    decreases t.len() - i, 10int,
{
    if kind(t, i) == TType::SomeKw {
        spec_bound_expr(t, i, i + 1, XNodeType::SomeVarBind, leaf(XNodeType::SomeExpr, "some"@), "satisfies"@)
    } else if kind(t, i) == TType::Every {
        spec_bound_expr(t, i, i + 1, XNodeType::EveryVarBind, leaf(XNodeType::EveryExpr, "every"@), "satisfies"@)
    } else {
        Ok((nil_tree(), i))
    }
}

/// The bindings from `p` on, after the trees of `acc`: a binding of kind
/// `bind` (`let` bindings are read with `:=`, the others with `in`), then
/// more after each comma. A missing binding ends the list.
#[verifier::opaque]
pub open spec fn spec_binding_loop(t: Seq<TokenV>, p: int, bind: XNodeType, acc: Seq<XTree>) -> ParsedList
    decreases t.len() - p, 8int,
{
    match spec_binding(t, p, bind) {
        Err(e) => Err(e),
        Ok((b, q)) => if b.n_type == XNodeType::Nil {
            Ok((acc, q))
        } else if kind(t, q) != TType::Comma {
            Ok((acc.push(b), q))
        } else if !ahead(t, p, q + 1) {
            Err(XPathErrorKind::SyntaxError)
        } else {
            spec_binding_loop(t, q + 1, bind, acc.push(b))
        },
    }
}

/// `"$" VarName ("in" | ":=") ExprSingle`: a node of kind `bind` named by
/// the variable, with the expression on the left. `:=` belongs to `let`;
/// for `in` any name is taken.
#[verifier::opaque]
pub open spec fn spec_binding(t: Seq<TokenV>, i: int, bind: XNodeType) -> Parsed
    decreases t.len() - i, 7int,
{
    if kind(t, i) != TType::Dollar {
        Ok((nil_tree(), i))
    } else {
        match spec_eqname(t, i + 1, Seq::empty()) {
            Err(e) => Err(e),
            Ok((q, j)) => {
                let ok = if bind == XNodeType::LetVarBind {
                    kind(t, j) == TType::Bind
                } else {
                    is_word(t, j, "in"@)
                };
                if q == Seq::<char>::empty() || !ok {
                    Err(XPathErrorKind::SyntaxError)
                } else {
                    let e = index_after_get(j, t.len() as int);
                    if !ahead(t, i, e) {
                        Err(XPathErrorKind::SyntaxError)
                    } else {
                        match spec_expr_single(t, e) {
                            Err(e) => Err(e),
                            Ok((x, f)) => Ok((with_left(leaf(bind, q), x), f)),
                        }
                    }
                }
            },
        }
    }
}

/// `IfExpr ::= "if" "(" Expr ")" "then" ExprSingle "else" ExprSingle`: an
/// `IfExpr` node with the condition on the left and an `IfThenElse` node
/// (the two branches) on the right. None of the three may be missing.
#[verifier::opaque]
pub open spec fn spec_if_expr(t: Seq<TokenV>, i: int) -> Parsed
    decreases t.len() - i, 10int,
{
    if kind(t, i) != TType::If {
        Ok((nil_tree(), i))
    } else if kind(t, i + 1) != TType::LeftParen || !ahead(t, i, i + 2) {
        Err(XPathErrorKind::SyntaxError)
    } else {
        match spec_expr(t, i + 2) {
            Err(e) => Err(e),
            Ok((c, j)) => if c.n_type == XNodeType::Nil || kind(t, j) != TType::RightParen
                || !is_word(t, j + 1, "then"@) {
                Err(XPathErrorKind::SyntaxError)
            } else {
                let a = index_after_get(j + 1, t.len() as int);
                if !ahead(t, i, a) {
                    Err(XPathErrorKind::SyntaxError)
                } else {
                    match spec_expr_single(t, a) {
                        Err(e) => Err(e),
                        Ok((th, b)) => if th.n_type == XNodeType::Nil || !is_word(t, b, "else"@) {
                            Err(XPathErrorKind::SyntaxError)
                        } else {
                            let d = index_after_get(b, t.len() as int);
                            if !ahead(t, i, d) {
                                Err(XPathErrorKind::SyntaxError)
                            } else {
                                match spec_expr_single(t, d) {
                                    Err(e) => Err(e),
                                    Ok((el, f)) => if el.n_type == XNodeType::Nil {
                                        Err(XPathErrorKind::SyntaxError)
                                    } else {
                                        Ok((
                                            with_right(
                                                with_left(leaf(XNodeType::IfExpr, "if_expr"@), c),
                                                with_right(
                                                    with_left(leaf(XNodeType::IfThenElse, "if_then_else"@), th),
                                                    el,
                                                ),
                                            ),
                                            f,
                                        ))
                                    },
                                }
                            }
                        },
                    }
                }
            },
        }
    }
}

/// `operand (op type)?` for the operators that take a type on the right:
/// `op` at `j` after the operand `x`, then the type that `ty` reads; a
/// missing type is an error.
pub open spec fn with_type_operator(t: Seq<TokenV>, x: XTree, j: int, op: TType, k: XNodeType, ty: Parsed) -> Parsed {
    if kind(t, j) != op {
        Ok((x, j))
    } else {
        match ty {
            Err(e) => Err(e),
            Ok((st, e)) => if st.n_type == XNodeType::Nil {
                Err(XPathErrorKind::SyntaxError)
            } else {
                Ok((with_right(with_left(leaf(k, Seq::empty()), x), st), e))
            },
        }
    }
}

/// `InstanceofExpr ::= TreatExpr ("instance" "of" SequenceType)?`
#[verifier::opaque]
pub open spec fn spec_instanceof(t: Seq<TokenV>, i: int) -> Parsed
    decreases t.len() - i, 330int,
{
    match spec_treat(t, i) {
        Err(e) => Err(e),
        Ok((x, j)) => {
            let ty = spec_sequence_type(t, j + 1);
            with_type_operator(t, x, j, TType::InstanceOf, XNodeType::OperatorInstanceOf, ty)
        },
    }
}

/// `TreatExpr ::= CastableExpr ("treat" "as" SequenceType)?`
#[verifier::opaque]
pub open spec fn spec_treat(t: Seq<TokenV>, i: int) -> Parsed
    decreases t.len() - i, 320int,
{
    match spec_castable(t, i) {
        Err(e) => Err(e),
        Ok((x, j)) => {
            let ty = spec_sequence_type(t, j + 1);
            with_type_operator(t, x, j, TType::TreatAs, XNodeType::OperatorTreatAs, ty)
        },
    }
}

/// `CastableExpr ::= CastExpr ("castable" "as" SingleType)?`
#[verifier::opaque]
pub open spec fn spec_castable(t: Seq<TokenV>, i: int) -> Parsed
    decreases t.len() - i, 310int,
{
    match spec_cast(t, i) {
        Err(e) => Err(e),
        Ok((x, j)) => {
            let ty = spec_single_type(t, j + 1);
            with_type_operator(t, x, j, TType::CastableAs, XNodeType::OperatorCastableAs, ty)
        },
    }
}

/// `CastExpr ::= ArrowExpr ("cast" "as" SingleType)?`
#[verifier::opaque]
pub open spec fn spec_cast(t: Seq<TokenV>, i: int) -> Parsed
    decreases t.len() - i, 300int,
{
    match spec_arrow(t, i) {
        Err(e) => Err(e),
        Ok((x, j)) => {
            let ty = spec_single_type(t, j + 1);
            with_type_operator(t, x, j, TType::CastAs, XNodeType::OperatorCastAs, ty)
        },
    }
}

/// `ArrowExpr ::= UnaryExpr ("=>" ArrowFunctionSpecifier ArgumentList)*`
#[verifier::opaque]
pub open spec fn spec_arrow(t: Seq<TokenV>, i: int) -> Parsed
    decreases t.len() - i, 290int,
{
    match spec_unary(t, i) {
        Err(e) => Err(e),
        Ok((x, j)) => if !not_behind(t, i, j) {
            Err(XPathErrorKind::SyntaxError)
        } else {
            spec_arrow_loop(t, j, x)
        },
    }
}

/// The arrows from `p` on, applied to `acc`: with a function name, a
/// `FunctionCall` node whose arguments are the expression so far and then
/// the argument list; with a variable, an `ApplyArgument` node that applies
/// the variable to those arguments.
#[verifier::opaque]
pub open spec fn spec_arrow_loop(t: Seq<TokenV>, p: int, acc: XTree) -> Parsed
    decreases t.len() - p, 289int,
{
    if kind(t, p) != TType::Arrow {
        Ok((acc, p))
    } else {
        match spec_eqname(t, p + 1, "fn"@) {
            Err(e) => Err(e),
            Ok((name, j)) => if name != Seq::<char>::empty() {
                if !ahead(t, p, j) {
                    Err(XPathErrorKind::SyntaxError)
                } else {
                    match spec_argument_list(t, j) {
                        Err(e) => Err(e),
                        Ok((args, k)) => if !ahead(t, p, k) {
                            Err(XPathErrorKind::SyntaxError)
                        } else {
                            spec_arrow_loop(
                                t,
                                k,
                                with_right(
                                    leaf(XNodeType::FunctionCall, name),
                                    with_right(with_left(leaf(XNodeType::ArgumentTop, Seq::empty()), acc), args),
                                ),
                            )
                        },
                    }
                }
            } else {
                match spec_varref(t, j) {
                    Err(e) => Err(e),
                    Ok((v, k)) => if v.n_type == XNodeType::Nil || !ahead(t, p, k) {
                        Err(XPathErrorKind::SyntaxError)
                    } else {
                        match spec_argument_list(t, k) {
                            Err(e) => Err(e),
                            Ok((args, m)) => if !ahead(t, p, m) {
                                Err(XPathErrorKind::SyntaxError)
                            } else {
                                spec_arrow_loop(
                                    t,
                                    m,
                                    with_right(
                                        with_left(leaf(XNodeType::ApplyArgument, Seq::empty()), v),
                                        with_left(
                                            leaf(XNodeType::ArgumentListTop, Seq::empty()),
                                            with_right(
                                                with_left(leaf(XNodeType::ArgumentTop, Seq::empty()), acc),
                                                args,
                                            ),
                                        ),
                                    ),
                                )
                            },
                        }
                    },
                }
            },
        }
    }
}

/// `UnaryExpr ::= ("-" | "+")? ValueExpr`: a sign becomes a node with the
/// operand on the right.
#[verifier::opaque]
pub open spec fn spec_unary(t: Seq<TokenV>, i: int) -> Parsed
    decreases t.len() - i, 280int,
{
    if kind(t, i) == TType::Minus || kind(t, i) == TType::Plus {
        let sign = if kind(t, i) == TType::Minus {
            leaf(XNodeType::OperatorUnaryMinus, "-"@)
        } else {
            leaf(XNodeType::OperatorUnaryPlus, "+"@)
        };
        if !ahead(t, i, i + 1) {
            Err(XPathErrorKind::SyntaxError)
        } else {
            match spec_bin(t, i + 1, BinLevel::SimpleMap) {
                Err(e) => Err(e),
                Ok((x, j)) => Ok((with_right(sign, x), j)),
            }
        }
    } else {
        spec_bin(t, i, BinLevel::SimpleMap)
    }
}

/// `PathExpr ::= ("/" RelativePathExpr?) | ("//" RelativePathExpr) |
/// RelativePathExpr`: a leading `/` starts from the root, `//` from the
/// root and then every descendant.
#[verifier::opaque]
pub open spec fn spec_path(t: Seq<TokenV>, i: int) -> Parsed
    decreases t.len() - i, 210int,
{
    if kind(t, i) == TType::Slash || kind(t, i) == TType::SlashSlash {
        if !ahead(t, i, i + 1) {
            Err(XPathErrorKind::SyntaxError)
        } else {
            match spec_relative(t, i + 1) {
                Err(e) => Err(e),
                Ok((r, j)) => if kind(t, i) == TType::Slash {
                    Ok((
                        with_right(
                            with_left(
                                leaf(XNodeType::OperatorPath, "parse_path_expr Slash"@),
                                leaf(XNodeType::AxisRoot, "node()"@),
                            ),
                            r,
                        ),
                        j,
                    ))
                } else {
                    Ok((
                        with_right(
                            with_left(
                                leaf(XNodeType::OperatorPath, "parse_path_expr SlashSlash 1"@),
                                leaf(XNodeType::AxisRoot, "/"@),
                            ),
                            with_right(
                                with_left(
                                    leaf(XNodeType::OperatorPath, "parse_path_expr SlashSlash 2"@),
                                    leaf(XNodeType::AxisDescendantOrSelf, "node()"@),
                                ),
                                r,
                            ),
                        ),
                        j,
                    ))
                },
            }
        }
    } else {
        spec_relative(t, i)
    }
}

/// `RelativePathExpr ::= StepExpr (("/" | "//") StepExpr)*`: a chain of
/// `OperatorPath` nodes on the right, one for each step (and one more with
/// the descendant axis for each `//`); a single step is the step itself.
#[verifier::opaque]
pub open spec fn spec_relative(t: Seq<TokenV>, i: int) -> Parsed
    decreases t.len() - i, 200int,
{
    match spec_step(t, i) {
        Err(e) => Err(e),
        Ok((s, j)) => if s.n_type == XNodeType::Nil {
            Ok((nil_tree(), j))
        } else if !not_behind(t, i, j) {
            Err(XPathErrorKind::SyntaxError)
        } else {
            close_relative(s, spec_relative_loop(t, j, Seq::empty()))
        },
    }
}

/// A relative path from its first step `s` and the nodes of the steps
/// after it: the step itself when there are none, else an `OperatorPath`
/// node with the step on the left and the chain of the others on the right.
pub open spec fn close_relative(s: XTree, r: ParsedList) -> Parsed {
    match r {
        Err(e) => Err(e),
        Ok((rest, k)) => if rest.len() == 0 {
            Ok((s, k))
        } else {
            Ok((
                with_right(
                    with_left(leaf(XNodeType::OperatorPath, "parse_relative_path_expr TOP"@), s),
                    link_chain(rest),
                ),
                k,
            ))
        },
    }
}

/// The steps after `/` or `//` from `p` on, after the nodes of `rest`.
#[verifier::opaque]
pub open spec fn spec_relative_loop(t: Seq<TokenV>, p: int, rest: Seq<XTree>) -> ParsedList
    decreases t.len() - p, 199int,
{
    if kind(t, p) != TType::Slash && kind(t, p) != TType::SlashSlash {
        Ok((rest, p))
    } else if !ahead(t, p, p + 1) {
        Err(XPathErrorKind::SyntaxError)
    } else {
        match spec_step(t, p + 1) {
            Err(e) => Err(e),
            Ok((x, q)) => if !ahead(t, p, q) {
                Err(XPathErrorKind::SyntaxError)
            } else if kind(t, p) == TType::Slash {
                spec_relative_loop(
                    t,
                    q,
                    rest.push(with_left(leaf(XNodeType::OperatorPath, "parse_relative_path_expr Slash"@), x)),
                )
            } else {
                spec_relative_loop(
                    t,
                    q,
                    rest.push(
                        with_left(
                            leaf(XNodeType::OperatorPath, "parse_relative_path_expr SlashSlash 1"@),
                            leaf(XNodeType::AxisDescendantOrSelf, "node()"@),
                        ),
                    ).push(with_left(leaf(XNodeType::OperatorPath, "parse_relative_path_expr SlashSlash 2"@), x)),
                )
            },
        }
    }
}

/// `StepExpr ::= PostfixExpr | AxisStep`
#[verifier::opaque]
pub open spec fn spec_step(t: Seq<TokenV>, i: int) -> Parsed
    decreases t.len() - i, 190int,
{
    match spec_postfix_expr(t, i) {
        Err(e) => Err(e),
        Ok((x, j)) => if x.n_type != XNodeType::Nil {
            Ok((x, j))
        } else if !not_behind(t, i, j) {
            Err(XPathErrorKind::SyntaxError)
        } else {
            spec_axis_step(t, j)
        },
    }
}

/// The axes that are walked in reverse document order.
pub open spec fn spec_is_reverse_axis(n_type: XNodeType) -> bool {
    ||| n_type == XNodeType::AxisParent
    ||| n_type == XNodeType::AxisAncestor
    ||| n_type == XNodeType::AxisAncestorOrSelf
    ||| n_type == XNodeType::AxisPreceding
    ||| n_type == XNodeType::AxisPrecedingSibling
}

/// The axis that an axis name stands for.
pub open spec fn spec_axis_from_name(name: Seq<char>) -> Option<XNodeType> {
    if name == "ancestor"@ {
        Some(XNodeType::AxisAncestor)
    } else if name == "ancestor-or-self"@ {
        Some(XNodeType::AxisAncestorOrSelf)
    } else if name == "attribute"@ {
        Some(XNodeType::AxisAttribute)
    } else if name == "child"@ {
        Some(XNodeType::AxisChild)
    } else if name == "descendant"@ {
        Some(XNodeType::AxisDescendant)
    } else if name == "descendant-or-self"@ {
        Some(XNodeType::AxisDescendantOrSelf)
    } else if name == "following"@ {
        Some(XNodeType::AxisFollowing)
    } else if name == "following-sibling"@ {
        Some(XNodeType::AxisFollowingSibling)
    } else if name == "namespace"@ {
        Some(XNodeType::AxisNamespace)
    } else if name == "parent"@ {
        Some(XNodeType::AxisParent)
    } else if name == "preceding"@ {
        Some(XNodeType::AxisPreceding)
    } else if name == "preceding-sibling"@ {
        Some(XNodeType::AxisPrecedingSibling)
    } else if name == "self"@ {
        Some(XNodeType::AxisSelf)
    } else {
        None
    }
}

/// `AxisStep ::= (ReverseStep | ForwardStep) PredicateList`: `@`
/// abbreviates `attribute::`, `..` the parent's `node()`, and no axis
/// `child::`; the namespace axis is not implemented.
#[verifier::opaque]
pub open spec fn spec_axis_step(t: Seq<TokenV>, i: int) -> Parsed
    decreases t.len() - i, 160int,
{
    if kind(t, i) == TType::AxisName {
        if kind(t, i + 1) != TType::ColonColon || !ahead(t, i, i + 2) {
            Err(XPathErrorKind::SyntaxError)
        } else {
            match spec_axis_from_name(text(t, i)) {
                None => Err(XPathErrorKind::SyntaxError),
                Some(a) => if a == XNodeType::AxisNamespace {
                    Err(XPathErrorKind::Unimplemented)
                } else {
                    spec_node_test(t, i + 2, a)
                },
            }
        }
    } else if kind(t, i) == TType::At {
        if !ahead(t, i, i + 1) {
            Err(XPathErrorKind::SyntaxError)
        } else {
            spec_node_test(t, i + 1, XNodeType::AxisAttribute)
        }
    } else if kind(t, i) == TType::DotDot {
        Ok((leaf(XNodeType::AxisParent, "node()"@), i + 1))
    } else {
        spec_node_test(t, i, XNodeType::AxisChild)
    }
}

/// `NodeTest ::= KindTest | NameTest`: an axis node named by its name test,
/// or with its kind test on the left, and its predicates on the right.
#[verifier::opaque]
pub open spec fn spec_node_test(t: Seq<TokenV>, i: int, axis: XNodeType) -> Parsed
    decreases t.len() - i, 150int,
{
    let (w, j) = spec_wildcard(t, i);
    let name: Result<(Seq<char>, int), XPathErrorKind> = if w != Seq::<char>::empty() {
        Ok((w, j))
    } else {
        spec_eqname(t, j, Seq::empty())
    };
    match name {
        Err(e) => Err(e),
        Ok((n, k)) => if n != Seq::<char>::empty() {
            if !not_behind(t, i, k) {
                Err(XPathErrorKind::SyntaxError)
            } else {
                match spec_predicate_list(t, k, spec_is_reverse_axis(axis)) {
                    Err(e) => Err(e),
                    Ok((ps, m)) => Ok((with_right(leaf(axis, n), ps), m)),
                }
            }
        } else {
            match spec_kind_test(t, k) {
                Err(e) => Err(e),
                Ok((kt, m)) => if kt.n_type == XNodeType::Nil {
                    Ok((nil_tree(), m))
                } else if !not_behind(t, i, m) {
                    Err(XPathErrorKind::SyntaxError)
                } else {
                    match spec_predicate_list(t, m, spec_is_reverse_axis(axis)) {
                        Err(e) => Err(e),
                        Ok((ps, r)) => Ok((with_right(with_left(leaf(axis, Seq::empty()), kt), ps), r)),
                    }
                },
            }
        },
    }
}

/// `PredicateList ::= Predicate*`: a chain on the right of `PredicateTop`
/// nodes (`PredicateRevTop` on a reverse axis), each with its expression on
/// the left. The list ends at the first predicate without an expression.
#[verifier::opaque]
pub open spec fn spec_predicate_list(t: Seq<TokenV>, i: int, reverse: bool) -> Parsed
    decreases t.len() - i, 140int,
{
    match spec_predicate(t, i) {
        Err(e) => Err(e),
        Ok((x, j)) => if x.n_type == XNodeType::Nil {
            Ok((x, j))
        } else if !ahead(t, i, j) {
            Err(XPathErrorKind::SyntaxError)
        } else {
            match spec_predicate_list(t, j, reverse) {
                Err(e) => Err(e),
                Ok((n, k)) => {
                    let top = if reverse { XNodeType::PredicateRevTop } else { XNodeType::PredicateTop };
                    Ok((with_right(with_left(leaf(top, "Predicate"@), x), n), k))
                },
            }
        },
    }
}

/// `Predicate ::= "[" Expr "]"`: the expression.
#[verifier::opaque]
pub open spec fn spec_predicate(t: Seq<TokenV>, i: int) -> Parsed
    decreases t.len() - i, 10int,
{
    if kind(t, i) != TType::LeftBracket {
        Ok((nil_tree(), i))
    } else if !ahead(t, i, i + 1) {
        Err(XPathErrorKind::SyntaxError)
    } else {
        match spec_expr(t, i + 1) {
            Err(e) => Err(e),
            Ok((x, j)) => if kind(t, j) != TType::RightBracket {
                Err(XPathErrorKind::SyntaxError)
            } else {
                Ok((x, j + 1))
            },
        }
    }
}

/// `PostfixExpr ::= PrimaryExpr (Predicate | ArgumentList | Lookup)*`
#[verifier::opaque]
pub open spec fn spec_postfix_expr(t: Seq<TokenV>, i: int) -> Parsed
    decreases t.len() - i, 180int,
{
    match spec_primary(t, i) {
        Err(e) => Err(e),
        Ok((x, j)) => if x.n_type == XNodeType::Nil {
            Ok((x, j))
        } else if !not_behind(t, i, j) {
            Err(XPathErrorKind::SyntaxError)
        } else {
            spec_postfix_loop(t, j, x)
        },
    }
}

/// The node that applies a postfix of the given kind.
pub open spec fn apply_kind(postfix: XNodeType) -> XNodeType {
    if postfix == XNodeType::PredicateTop {
        XNodeType::ApplyPredicate
    } else if postfix == XNodeType::ArgumentListTop {
        XNodeType::ApplyArgument
    } else {
        XNodeType::OperatorMap
    }
}

/// The postfixes from `p` on, applied to `acc`: each makes a node with the
/// expression so far on the left and the postfix on the right.
#[verifier::opaque]
pub open spec fn spec_postfix_loop(t: Seq<TokenV>, p: int, acc: XTree) -> Parsed
    decreases t.len() - p, 179int,
{
    match spec_postfix(t, p) {
        Err(e) => Err(e),
        Ok((x, q)) => if x.n_type == XNodeType::Nil {
            Ok((acc, q))
        } else if !ahead(t, p, q) {
            Err(XPathErrorKind::SyntaxError)
        } else {
            spec_postfix_loop(t, q, with_right(with_left(leaf(apply_kind(x.n_type), Seq::empty()), acc), x))
        },
    }
}

/// `Postfix ::= Predicate | ArgumentList | Lookup`: a predicate under a
/// `PredicateTop` node, an argument list under an `ArgumentListTop` node, or
/// a lookup.
#[verifier::opaque]
pub open spec fn spec_postfix(t: Seq<TokenV>, i: int) -> Parsed
    decreases t.len() - i, 130int,
{
    if kind(t, i) == TType::LeftBracket {
        match spec_predicate(t, i) {
            Err(e) => Err(e),
            Ok((x, j)) => Ok((with_left(leaf(XNodeType::PredicateTop, Seq::empty()), x), j)),
        }
    } else if kind(t, i) == TType::LeftParen {
        match spec_argument_list(t, i) {
            Err(e) => Err(e),
            Ok((x, j)) => Ok((with_left(leaf(XNodeType::ArgumentListTop, Seq::empty()), x), j)),
        }
    } else if kind(t, i) == TType::Question {
        spec_unary_lookup(t, i)
    } else {
        Ok((nil_tree(), i))
    }
}

/// `PrimaryExpr ::= Literal | VarRef | ParenthesizedExpr | ContextItemExpr |
/// FunctionCall | FunctionItemExpr | MapConstructor | ArrayConstructor |
/// UnaryLookup`: the first that applies.
#[verifier::opaque]
pub open spec fn spec_primary(t: Seq<TokenV>, i: int) -> Parsed
    decreases t.len() - i, 170int,
{
    match spec_literal(t, i) {
        Err(e) => Err(e),
        Ok((x1, j1)) => if x1.n_type != XNodeType::Nil {
            Ok((x1, j1))
        } else {
            match spec_varref(t, j1) {
                Err(e) => Err(e),
                Ok((x2, j2)) => if x2.n_type != XNodeType::Nil {
                    Ok((x2, j2))
                } else if !not_behind(t, i, j2) {
                    Err(XPathErrorKind::SyntaxError)
                } else {
                    spec_primary_rest(t, i, j2)
                },
            }
        },
    }
}

/// The alternatives of a primary expression after the variable reference,
/// from `j` (where the primary began at `i`).
#[verifier::opaque]
pub open spec fn spec_primary_rest(t: Seq<TokenV>, i: int, j: int) -> Parsed
    decreases t.len() - i, 169int,
{
    if !not_behind(t, i, j) {
        Err(XPathErrorKind::SyntaxError)
    } else {
        match spec_parenthesized_expr(t, j) {
            Err(e) => Err(e),
            Ok((x3, j3)) => if x3.n_type != XNodeType::Nil {
                Ok((x3, j3))
            } else {
                match spec_context_item(t, j3) {
                    Err(e) => Err(e),
                    Ok((x4, j4)) => if x4.n_type != XNodeType::Nil {
                        Ok((x4, j4))
                    } else if !not_behind(t, i, j4) {
                        Err(XPathErrorKind::SyntaxError)
                    } else {
                        match spec_function_call(t, j4) {
                            Err(e) => Err(e),
                            Ok((x5, j5)) => if x5.n_type != XNodeType::Nil {
                                Ok((x5, j5))
                            } else if !not_behind(t, i, j5) {
                                Err(XPathErrorKind::SyntaxError)
                            } else {
                                spec_primary_items(t, i, j5)
                            },
                        }
                    },
                }
            },
        }
    }
}

/// The last alternatives of a primary expression: function items, maps,
/// arrays and lookups, from `j`.
#[verifier::opaque]
pub open spec fn spec_primary_items(t: Seq<TokenV>, i: int, j: int) -> Parsed
    decreases t.len() - i, 168int,
{
    if !not_behind(t, i, j) {
        Err(XPathErrorKind::SyntaxError)
    } else {
        match spec_function_item(t, j) {
            Err(e) => Err(e),
            Ok((x6, j6)) => if x6.n_type != XNodeType::Nil {
                Ok((x6, j6))
            } else if !not_behind(t, i, j6) {
                Err(XPathErrorKind::SyntaxError)
            } else {
                match spec_map_constructor(t, j6) {
                    Err(e) => Err(e),
                    Ok((x7, j7)) => if x7.n_type != XNodeType::Nil {
                        Ok((x7, j7))
                    } else if !not_behind(t, i, j7) {
                        Err(XPathErrorKind::SyntaxError)
                    } else {
                        match spec_array_constructor(t, j7) {
                            Err(e) => Err(e),
                            Ok((x8, j8)) => if x8.n_type != XNodeType::Nil {
                                Ok((x8, j8))
                            } else if !not_behind(t, i, j8) {
                                Err(XPathErrorKind::SyntaxError)
                            } else {
                                match spec_unary_lookup(t, j8) {
                                    Err(e) => Err(e),
                                    Ok((x9, j9)) => if x9.n_type != XNodeType::Nil {
                                        Ok((x9, j9))
                                    } else {
                                        Ok((nil_tree(), j9))
                                    },
                                }
                            },
                        }
                    },
                }
            },
        }
    }
}

/// `ParenthesizedExpr ::= "(" Expr? ")"`: a `ParenthesizedExpr` node with
/// the expression on the left.
#[verifier::opaque]
pub open spec fn spec_parenthesized_expr(t: Seq<TokenV>, i: int) -> Parsed
    decreases t.len() - i, 10int,
{
    if kind(t, i) != TType::LeftParen {
        Ok((nil_tree(), i))
    } else if !ahead(t, i, i + 1) {
        Err(XPathErrorKind::SyntaxError)
    } else {
        match spec_expr(t, i + 1) {
            Err(e) => Err(e),
            Ok((x, j)) => if kind(t, j) != TType::RightParen {
                Err(XPathErrorKind::SyntaxError)
            } else {
                Ok((with_left(leaf(XNodeType::ParenthesizedExpr, Seq::empty()), x), j + 1))
            },
        }
    }
}

/// `FunctionItemExpr ::= NamedFunctionRef | InlineFunctionExpr`
#[verifier::opaque]
pub open spec fn spec_function_item(t: Seq<TokenV>, i: int) -> Parsed
    decreases t.len() - i, 120int,
{
    match spec_named_function_ref(t, i) {
        Err(e) => Err(e),
        Ok((x, j)) => if x.n_type != XNodeType::Nil {
            Ok((x, j))
        } else if !not_behind(t, i, j) {
            Err(XPathErrorKind::SyntaxError)
        } else {
            spec_inline_function(t, j)
        },
    }
}

/// `InlineFunctionExpr ::= "function" "(" ParamList? ")" ("as"
/// SequenceType)? FunctionBody`: an `InlineFunction` node with the body on
/// the left and, on the right, a `ReturnType` node (the return type, by
/// default `item()*`) followed by the parameters.
#[verifier::opaque]
pub open spec fn spec_inline_function(t: Seq<TokenV>, i: int) -> Parsed
    decreases t.len() - i, 10int,
{
    if kind(t, i) != TType::Function {
        Ok((nil_tree(), i))
    } else if kind(t, i + 1) != TType::LeftParen {
        Err(XPathErrorKind::SyntaxError)
    } else {
        match spec_param_list(t, i + 2) {
            Err(e) => Err(e),
            Ok((ps, j)) => if kind(t, j) != TType::RightParen {
                Err(XPathErrorKind::SyntaxError)
            } else {
                let rt: Parsed = if at_as(t, j + 1) {
                    spec_sequence_type(t, j + 2)
                } else {
                    Ok((spec_default_sequence_type(), j + 1))
                };
                match rt {
                    Err(e) => Err(e),
                    Ok((r, m)) => if !ahead(t, i, m) {
                        Err(XPathErrorKind::SyntaxError)
                    } else {
                        match spec_function_body(t, m) {
                            Err(e) => Err(e),
                            Ok((b, n)) => Ok((
                                with_right(
                                    with_left(leaf(XNodeType::InlineFunction, "(inline function)"@), b),
                                    with_right(with_left(leaf(XNodeType::ReturnType, Seq::empty()), r), ps),
                                ),
                                n,
                            )),
                        }
                    },
                }
            },
        }
    }
}

/// `FunctionBody ::= "{" Expr? "}"`: the expression.
#[verifier::opaque]
pub open spec fn spec_function_body(t: Seq<TokenV>, i: int) -> Parsed
    decreases t.len() - i, 10int,
{
    if kind(t, i) != TType::LeftCurly || !ahead(t, i, i + 1) {
        Err(XPathErrorKind::SyntaxError)
    } else {
        match spec_expr(t, i + 1) {
            Err(e) => Err(e),
            Ok((x, j)) => if kind(t, j) != TType::RightCurly {
                Err(XPathErrorKind::SyntaxError)
            } else {
                Ok((x, j + 1))
            },
        }
    }
}

/// `MapConstructor ::= "map" "{" (MapConstructorEntry (","
/// MapConstructorEntry)*)? "}"`: a map node with the entries on the left.
#[verifier::opaque]
pub open spec fn spec_map_constructor(t: Seq<TokenV>, i: int) -> Parsed
    decreases t.len() - i, 10int,
{
    if kind(t, i) != TType::MapKw {
        Ok((nil_tree(), i))
    } else if kind(t, i + 1) != TType::LeftCurly || !ahead(t, i, i + 2) {
        Err(XPathErrorKind::SyntaxError)
    } else {
        match spec_map_entries(t, i + 2) {
            Err(e) => Err(e),
            Ok((x, j)) => if kind(t, j) != TType::RightCurly {
                Err(XPathErrorKind::SyntaxError)
            } else {
                Ok((with_left(leaf(XNodeType::MapExpr, Seq::empty()), x), j + 1))
            },
        }
    }
}

/// The entries of a map constructor: a chain on the right of `MapConstruct`
/// nodes, each with its entry on the left.
#[verifier::opaque]
pub open spec fn spec_map_entries(t: Seq<TokenV>, i: int) -> Parsed
    decreases t.len() - i, 1500int,
{
    match spec_map_entry(t, i) {
        Err(e) => Err(e),
        Ok((x, j)) => if x.n_type == XNodeType::Nil {
            Ok((x, j))
        } else if !not_behind(t, i, j) {
            Err(XPathErrorKind::SyntaxError)
        } else {
            linked(spec_map_entries_loop(t, j, seq![with_left(leaf(XNodeType::MapConstruct, Seq::empty()), x)]))
        },
    }
}

/// The entries that follow commas from `p` on, after those of `acc`.
#[verifier::opaque]
pub open spec fn spec_map_entries_loop(t: Seq<TokenV>, p: int, acc: Seq<XTree>) -> ParsedList
    decreases t.len() - p, 1490int,
{
    if kind(t, p) != TType::Comma {
        Ok((acc, p))
    } else if !ahead(t, p, p + 1) {
        Err(XPathErrorKind::SyntaxError)
    } else {
        match spec_map_entry(t, p + 1) {
            Err(e) => Err(e),
            Ok((x, q)) => if !ahead(t, p, q) {
                Err(XPathErrorKind::SyntaxError)
            } else {
                spec_map_entries_loop(t, q, acc.push(with_left(leaf(XNodeType::MapConstruct, Seq::empty()), x)))
            },
        }
    }
}

/// `MapConstructorEntry ::= ExprSingle ":" ExprSingle`: a `MapEntry` node
/// with the key on the left and the value on the right.
#[verifier::opaque]
pub open spec fn spec_map_entry(t: Seq<TokenV>, i: int) -> Parsed
    decreases t.len() - i, 1470int,
{
    match spec_expr_single(t, i) {
        Err(e) => Err(e),
        Ok((k, j)) => if k.n_type == XNodeType::Nil {
            Ok((k, j))
        } else if kind(t, j) != TType::Colon || !ahead(t, i, j + 1) {
            Err(XPathErrorKind::SyntaxError)
        } else {
            match spec_expr_single(t, j + 1) {
                Err(e) => Err(e),
                Ok((v, m)) => if v.n_type == XNodeType::Nil {
                    Err(XPathErrorKind::SyntaxError)
                } else {
                    Ok((with_right(with_left(leaf(XNodeType::MapEntry, Seq::empty()), k), v), m))
                },
            }
        },
    }
}

/// `ArrayConstructor ::= SquareArrayConstructor | CurlyArrayConstructor`
#[verifier::opaque]
pub open spec fn spec_array_constructor(t: Seq<TokenV>, i: int) -> Parsed
    decreases t.len() - i, 120int,
{
    match spec_curly_array(t, i) {
        Err(e) => Err(e),
        Ok((x, j)) => if x.n_type != XNodeType::Nil {
            Ok((x, j))
        } else if !not_behind(t, i, j) {
            Err(XPathErrorKind::SyntaxError)
        } else {
            match spec_square_array(t, j) {
                Err(e) => Err(e),
                Ok((y, k)) => if y.n_type != XNodeType::Nil {
                    Ok((y, k))
                } else {
                    Ok((nil_tree(), k))
                },
            }
        },
    }
}

/// `SquareArrayConstructor ::= "[" (ExprSingle ("," ExprSingle)*)? "]"`: a
/// `SquareArray` node with its members on the left.
#[verifier::opaque]
pub open spec fn spec_square_array(t: Seq<TokenV>, i: int) -> Parsed
    decreases t.len() - i, 10int,
{
    if kind(t, i) != TType::LeftBracket {
        Ok((nil_tree(), i))
    } else if !ahead(t, i, i + 1) {
        Err(XPathErrorKind::SyntaxError)
    } else {
        match spec_array_members(t, i + 1) {
            Err(e) => Err(e),
            Ok((x, j)) => if kind(t, j) != TType::RightBracket {
                Err(XPathErrorKind::SyntaxError)
            } else {
                Ok((with_left(leaf(XNodeType::SquareArray, Seq::empty()), x), j + 1))
            },
        }
    }
}

/// `CurlyArrayConstructor ::= "array" "{" Expr? "}"`: a `CurlyArray` node
/// with the expression on the left.
#[verifier::opaque]
pub open spec fn spec_curly_array(t: Seq<TokenV>, i: int) -> Parsed
    decreases t.len() - i, 10int,
{
    if kind(t, i) != TType::Array {
        Ok((nil_tree(), i))
    } else if kind(t, i + 1) != TType::LeftCurly || !ahead(t, i, i + 2) {
        Err(XPathErrorKind::SyntaxError)
    } else {
        match spec_expr(t, i + 2) {
            Err(e) => Err(e),
            Ok((x, j)) => if kind(t, j) != TType::RightCurly {
                Err(XPathErrorKind::SyntaxError)
            } else {
                Ok((with_left(leaf(XNodeType::CurlyArray, Seq::empty()), x), j + 1))
            },
        }
    }
}

/// The members of a square array: a chain on the right of `ArrayEntry`
/// nodes, each with its member on the left.
#[verifier::opaque]
pub open spec fn spec_array_members(t: Seq<TokenV>, i: int) -> Parsed
    decreases t.len() - i, 1470int,
{
    match spec_expr_single(t, i) {
        Err(e) => Err(e),
        Ok((x, j)) => if x.n_type == XNodeType::Nil {
            Ok((x, j))
        } else if !not_behind(t, i, j) {
            Err(XPathErrorKind::SyntaxError)
        } else {
            linked(spec_array_members_loop(t, j, seq![with_left(leaf(XNodeType::ArrayEntry, Seq::empty()), x)]))
        },
    }
}

/// The members that follow commas from `p` on, after those of `acc`.
#[verifier::opaque]
pub open spec fn spec_array_members_loop(t: Seq<TokenV>, p: int, acc: Seq<XTree>) -> ParsedList
    decreases t.len() - p, 1460int,
{
    if kind(t, p) != TType::Comma {
        Ok((acc, p))
    } else if !ahead(t, p, p + 1) {
        Err(XPathErrorKind::SyntaxError)
    } else {
        match spec_expr_single(t, p + 1) {
            Err(e) => Err(e),
            Ok((x, q)) => if !ahead(t, p, q) {
                Err(XPathErrorKind::SyntaxError)
            } else {
                spec_array_members_loop(t, q, acc.push(with_left(leaf(XNodeType::ArrayEntry, Seq::empty()), x)))
            },
        }
    }
}

/// `UnaryLookup ::= "?" KeySpecifier`: a name or an integer becomes a
/// literal key under an `UnaryLookupByExpr` node, a parenthesized
/// expression that node's key too, and `*` an `UnaryLookupByWildcard` node.
/// Anything else after `?` gives the nil tree at the `?`.
#[verifier::opaque]
pub open spec fn spec_unary_lookup(t: Seq<TokenV>, i: int) -> Parsed
    decreases t.len() - i, 10int,
{
    if kind(t, i) != TType::Question {
        Ok((nil_tree(), i))
    } else if kind(t, i + 1) == TType::Name {
        Ok((
            with_left(
                leaf(XNodeType::UnaryLookupByExpr, Seq::empty()),
                leaf(XNodeType::StringLiteral, text(t, i + 1)),
            ),
            i + 2,
        ))
    } else if kind(t, i + 1) == TType::IntegerLiteral {
        Ok((
            with_left(
                leaf(XNodeType::UnaryLookupByExpr, Seq::empty()),
                leaf(XNodeType::IntegerLiteral, text(t, i + 1)),
            ),
            i + 2,
        ))
    } else if kind(t, i + 1) == TType::Asterisk {
        Ok((leaf(XNodeType::UnaryLookupByWildcard, "*"@), i + 2))
    } else if kind(t, i + 1) == TType::LeftParen {
        if !ahead(t, i, i + 1) {
            Err(XPathErrorKind::SyntaxError)
        } else {
            match spec_parenthesized_expr(t, i + 1) {
                Err(e) => Err(e),
                Ok((x, j)) => Ok((with_left(leaf(XNodeType::UnaryLookupByExpr, Seq::empty()), x), j)),
            }
        }
    } else {
        Ok((nil_tree(), i))
    }
}

/// `FunctionCall ::= EQName ArgumentList`: a `FunctionCall` node named by
/// the function (`fn:` added to an unprefixed name), or
/// `PartialFunctionCall` when an argument is `?`, with the arguments on the
/// right. A function that the evaluator does not have with that number of
/// arguments is an error; no name, or no parenthesis after it, gives the
/// nil tree where the call would begin.
#[verifier::opaque]
pub open spec fn spec_function_call(t: Seq<TokenV>, i: int) -> Parsed
    decreases t.len() - i, 120int,
{
    match spec_eqname(t, i, "fn"@) {
        Err(e) => Err(e),
        Ok((name, j)) => if name == Seq::<char>::empty() || kind(t, j) != TType::LeftParen {
            Ok((nil_tree(), i))
        } else if !ahead(t, i, j) {
            Err(XPathErrorKind::SyntaxError)
        } else {
            match spec_argument_list(t, j) {
                Err(e) => Err(e),
                Ok((args, k)) => if !spec_check_function_spec(name, right_chain_len(args) as int) {
                    Err(XPathErrorKind::SyntaxError)
                } else {
                    let call = if chain_has_placeholder(args) {
                        XNodeType::PartialFunctionCall
                    } else {
                        XNodeType::FunctionCall
                    };
                    Ok((with_right(leaf(call, name), args), k))
                },
            }
        },
    }
}

/// `ArgumentList ::= "(" (Argument ("," Argument)*)? ")"`: the arguments in
/// a chain on the right.
#[verifier::opaque]
pub open spec fn spec_argument_list(t: Seq<TokenV>, i: int) -> Parsed
    decreases t.len() - i, 10int,
{
    if kind(t, i) != TType::LeftParen || !ahead(t, i, i + 1) {
        Err(XPathErrorKind::SyntaxError)
    } else {
        match spec_arguments(t, i + 1) {
            Err(e) => Err(e),
            Ok((x, j)) => if kind(t, j) != TType::RightParen {
                Err(XPathErrorKind::SyntaxError)
            } else {
                Ok((x, j + 1))
            },
        }
    }
}

/// The arguments between the parentheses, linked on the right up to the
/// first missing one.
#[verifier::opaque]
pub open spec fn spec_arguments(t: Seq<TokenV>, i: int) -> Parsed
    decreases t.len() - i, 1500int,
{
    match spec_argument(t, i) {
        Err(e) => Err(e),
        Ok((x, j)) => if x.n_type == XNodeType::Nil {
            Ok((x, j))
        } else if !not_behind(t, i, j) {
            Err(XPathErrorKind::SyntaxError)
        } else {
            linked(spec_arguments_loop(t, j, seq![x]))
        },
    }
}

/// The arguments that follow commas from `p` on, after those of `acc`.
#[verifier::opaque]
pub open spec fn spec_arguments_loop(t: Seq<TokenV>, p: int, acc: Seq<XTree>) -> ParsedList
    decreases t.len() - p, 1490int,
{
    if kind(t, p) != TType::Comma {
        Ok((acc, p))
    } else if !ahead(t, p, p + 1) {
        Err(XPathErrorKind::SyntaxError)
    } else {
        match spec_argument(t, p + 1) {
            Err(e) => Err(e),
            Ok((x, q)) => if !not_behind(t, p + 1, q) {
                Err(XPathErrorKind::SyntaxError)
            } else {
                spec_arguments_loop(t, q, acc.push(x))
            },
        }
    }
}

/// `Argument ::= ExprSingle | "?"`: an `ArgumentTop` node with the
/// expression on the left, or an `ArgumentPlaceholder` node.
#[verifier::opaque]
pub open spec fn spec_argument(t: Seq<TokenV>, i: int) -> Parsed
    decreases t.len() - i, 1470int,
{
    match spec_expr_single(t, i) {
        Err(e) => Err(e),
        Ok((x, j)) => if x.n_type != XNodeType::Nil {
            Ok((with_left(leaf(XNodeType::ArgumentTop, Seq::empty()), x), j))
        } else if kind(t, j) == TType::Question {
            Ok((leaf(XNodeType::ArgumentPlaceholder, "?"@), j + 1))
        } else {
            Ok((nil_tree(), j))
        },
    }
}

// =====================================================================
// The whole expression.

/// `XPath ::= Expr`, which must take every token.
pub open spec fn spec_xpath(t: Seq<TokenV>, i: int) -> Parsed {
    match spec_expr(t, i) {
        Err(e) => Err(e),
        Ok((x, j)) => if kind(t, j) != TType::EOF {
            Err(XPathErrorKind::SyntaxError)
        } else {
            Ok((x, j))
        },
    }
}

/// The syntax tree of an XPath expression: its tokens read as `XPath` from
/// the first token after the opening end marker; a syntax error where the
/// lexer refuses it, and the grammar's error where the grammar does.
pub open spec fn spec_compile(s: Seq<char>) -> Result<XTree, XPathErrorKind> {
    match spec_tokenize(s) {
        Err(_) => Err(XPathErrorKind::SyntaxError),
        Ok(t) => match spec_xpath(t, 1) {
            Err(e) => Err(e),
            Ok((x, _)) => Ok(x),
        },
    }
}

} // verus!
