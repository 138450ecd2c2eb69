//! The syntax tree of an XPath expression: each node has a kind, a name
//! and up to two children.

use vstd::prelude::*;
use crate::text::push_char;

verus! {

/// The kind of a syntax-tree node.
#[derive(PartialEq, Eq, Structural, Clone, Copy, Debug, Hash)]
pub enum XNodeType {
    Nil,
    OperatorPath,
    AxisRoot,
    AxisAncestor,
    AxisAncestorOrSelf,
    AxisAttribute,
    AxisChild,
    AxisDescendant,
    AxisDescendantOrSelf,
    AxisFollowing,
    AxisFollowingSibling,
    AxisNamespace,
    AxisParent,
    AxisPreceding,
    AxisPrecedingSibling,
    AxisSelf,
    PredicateTop,
    PredicateRevTop,
    OperatorConcatenate,
    OperatorOr,
    OperatorAnd,
    OperatorGeneralEQ,
    OperatorGeneralNE,
    OperatorGeneralLT,
    OperatorGeneralGT,
    OperatorGeneralLE,
    OperatorGeneralGE,
    OperatorValueEQ,
    OperatorValueNE,
    OperatorValueLT,
    OperatorValueGT,
    OperatorValueLE,
    OperatorValueGE,
    OperatorAdd,
    OperatorSubtract,
    OperatorUnaryPlus,
    OperatorUnaryMinus,
    OperatorMultiply,
    OperatorDiv,
    OperatorIDiv,
    OperatorMod,
    OperatorUnion,
    OperatorIntersect,
    OperatorExcept,
    OperatorTo,
    OperatorIsSameNode,
    OperatorNodeBefore,
    OperatorNodeAfter,
    OperatorInstanceOf,
    OperatorTreatAs,
    OperatorCastableAs,
    OperatorCastAs,
    IfExpr,
    IfThenElse,
    ForExpr,
    SomeExpr,
    EveryExpr,
    ForVarBind,
    SomeVarBind,
    EveryVarBind,
    StringLiteral,
    IntegerLiteral,
    DecimalLiteral,
    DoubleLiteral,
    ContextItem,
    FunctionCall,
    ArgumentTop,
    VarRef,
    ApplyPredicate,
    ApplyArgument,
    KindTest,
    DocumentTest,
    ElementTest,
    AttributeTest,
    SchemaElementTest,
    SchemaAttributeTest,
    PITest,
    CommentTest,
    TextTest,
    NamespaceNodeTest,
    AnyKindTest,
    KindTestTypeName,
    EmptySequenceTest,
    ItemTest,
    TypeName,
    AnyFunctionTest,
    TypedFunctionTest,
    MapTest,
    ArrayTest,
    AtomicOrUnionType,
    ParenthesizedItemType,
    SingleType,
    SequenceType,
    OperatorConcat,
    OperatorMap,
    LetExpr,
    LetVarBind,
    InlineFunction,
    Param,
    ReturnType,
    ArgumentListTop,
    NamedFunctionRef,
    PartialFunctionCall,
    ArgumentPlaceholder,
    MapExpr,
    MapConstruct,
    MapEntry,
    SquareArray,
    CurlyArray,
    ArrayEntry,
    UnaryLookupByExpr,
    UnaryLookupByWildcard,
    ParenthesizedExpr,
}

/// A syntax tree as the specifications see it.
pub struct XTree {
    pub n_type: XNodeType,
    pub name: Seq<char>,
    pub left: Option<Box<XTree>>,
    pub right: Option<Box<XTree>>,
}

/// The tree that stands for "no node".
pub open spec fn nil_tree() -> XTree {
    XTree { n_type: XNodeType::Nil, name: Seq::empty(), left: None, right: None }
}

/// The left child, or the nil tree where there is none.
pub open spec fn xt_left(t: XTree) -> XTree {
    match t.left {
        Some(b) => *b,
        None => nil_tree(),
    }
}

/// The right child, or the nil tree where there is none.
pub open spec fn xt_right(t: XTree) -> XTree {
    match t.right {
        Some(b) => *b,
        None => nil_tree(),
    }
}

/// The height of a tree; the nil tree has height zero.
pub open spec fn xt_depth(t: XTree) -> nat
    decreases t,
{
    if t == nil_tree() {
        0
    } else {
        let l: nat = match t.left {
            Some(b) => xt_depth(*b),
            None => 0,
        };
        let r: nat = match t.right {
            Some(b) => xt_depth(*b),
            None => 0,
        };
        1 + if l >= r { l } else { r }
    }
}

/// A child is never higher than its parent, and is lower unless the parent
/// is the nil tree.
pub proof fn lemma_child_depth(t: XTree)
    ensures
        xt_depth(xt_left(t)) <= xt_depth(t),
        xt_depth(xt_right(t)) <= xt_depth(t),
        t != nil_tree() ==> xt_depth(xt_left(t)) < xt_depth(t),
        t != nil_tree() ==> xt_depth(xt_right(t)) < xt_depth(t),
{
    if t == nil_tree() {
    } else {
        match t.left {
            Some(b) => {},
            None => {
                assert(xt_depth(nil_tree()) == 0);
            },
        }
        match t.right {
            Some(b) => {},
            None => {
                assert(xt_depth(nil_tree()) == 0);
            },
        }
    }
}

/// Whether every function test in the tree has its return type: such a test
/// has a right child.
pub open spec fn fn_tests_ok(t: XTree) -> bool
    decreases xt_depth(t),
{
    if t == nil_tree() {
        true
    } else {
        proof {
            lemma_child_depth(t);
        }
        &&& (t.n_type == XNodeType::TypedFunctionTest ==> xt_right(t).n_type != XNodeType::Nil)
        &&& fn_tests_ok(xt_left(t))
        &&& fn_tests_ok(xt_right(t))
    }
}

/// A tree that is not the nil tree has its function tests complete when
/// its children have theirs and, if it is a typed function test, it has a
/// right child.
pub proof fn lemma_fn_tests_ok_node(t: XTree)
    requires
        fn_tests_ok(xt_left(t)),
        fn_tests_ok(xt_right(t)),
        t.n_type == XNodeType::TypedFunctionTest ==> xt_right(t).n_type != XNodeType::Nil,
    ensures
        fn_tests_ok(t),
{
}

/// The children of a tree whose function tests are complete have theirs
/// complete too.
pub proof fn lemma_fn_tests_ok_children(t: XTree)
    requires
        fn_tests_ok(t),
    ensures
        fn_tests_ok(xt_left(t)),
        fn_tests_ok(xt_right(t)),
        t.n_type == XNodeType::TypedFunctionTest ==> xt_right(t).n_type != XNodeType::Nil,
{
    if t == nil_tree() {
        assert(xt_left(t) == nil_tree());
        assert(xt_right(t) == nil_tree());
    }
}

/// The number of nodes on the chain of right children that starts at `t`,
/// up to the first nil node.
pub open spec fn right_chain_len(t: XTree) -> nat
    decreases xt_depth(t),
{
    if t.n_type == XNodeType::Nil {
        0
    } else {
        proof {
            lemma_child_depth(t);
        }
        1 + right_chain_len(xt_right(t))
    }
}

/// Whether a node on the chain of right children that starts at `t`, up to
/// the first nil node, is an argument placeholder.
pub open spec fn chain_has_placeholder(t: XTree) -> bool
    decreases xt_depth(t),
{
    if t.n_type == XNodeType::Nil {
        false
    } else {
        proof {
            lemma_child_depth(t);
        }
        t.n_type == XNodeType::ArgumentPlaceholder || chain_has_placeholder(xt_right(t))
    }
}

/// The name of a node kind, as dumps show it.
pub open spec fn spec_xnode_type_label(t: XNodeType) -> Seq<char> {
    match t {
        XNodeType::Nil => "Nil"@,
        XNodeType::OperatorPath => "OperatorPath"@,
        XNodeType::AxisRoot => "AxisRoot"@,
        XNodeType::AxisAncestor => "AxisAncestor"@,
        XNodeType::AxisAncestorOrSelf => "AxisAncestorOrSelf"@,
        XNodeType::AxisAttribute => "AxisAttribute"@,
        XNodeType::AxisChild => "AxisChild"@,
        XNodeType::AxisDescendant => "AxisDescendant"@,
        XNodeType::AxisDescendantOrSelf => "AxisDescendantOrSelf"@,
        XNodeType::AxisFollowing => "AxisFollowing"@,
        XNodeType::AxisFollowingSibling => "AxisFollowingSibling"@,
        XNodeType::AxisNamespace => "AxisNamespace"@,
        XNodeType::AxisParent => "AxisParent"@,
        XNodeType::AxisPreceding => "AxisPreceding"@,
        XNodeType::AxisPrecedingSibling => "AxisPrecedingSibling"@,
        XNodeType::AxisSelf => "AxisSelf"@,
        XNodeType::PredicateTop => "PredicateTop"@,
        XNodeType::PredicateRevTop => "PredicateRevTop"@,
        XNodeType::OperatorConcatenate => "OperatorConcatenate"@,
        XNodeType::OperatorOr => "OperatorOr"@,
        XNodeType::OperatorAnd => "OperatorAnd"@,
        XNodeType::OperatorGeneralEQ => "OperatorGeneralEQ"@,
        XNodeType::OperatorGeneralNE => "OperatorGeneralNE"@,
        XNodeType::OperatorGeneralLT => "OperatorGeneralLT"@,
        XNodeType::OperatorGeneralGT => "OperatorGeneralGT"@,
        XNodeType::OperatorGeneralLE => "OperatorGeneralLE"@,
        XNodeType::OperatorGeneralGE => "OperatorGeneralGE"@,
        XNodeType::OperatorValueEQ => "OperatorValueEQ"@,
        XNodeType::OperatorValueNE => "OperatorValueNE"@,
        XNodeType::OperatorValueLT => "OperatorValueLT"@,
        XNodeType::OperatorValueGT => "OperatorValueGT"@,
        XNodeType::OperatorValueLE => "OperatorValueLE"@,
        XNodeType::OperatorValueGE => "OperatorValueGE"@,
        XNodeType::OperatorAdd => "OperatorAdd"@,
        XNodeType::OperatorSubtract => "OperatorSubtract"@,
        XNodeType::OperatorUnaryPlus => "OperatorUnaryPlus"@,
        XNodeType::OperatorUnaryMinus => "OperatorUnaryMinus"@,
        XNodeType::OperatorMultiply => "OperatorMultiply"@,
        XNodeType::OperatorDiv => "OperatorDiv"@,
        XNodeType::OperatorIDiv => "OperatorIDiv"@,
        XNodeType::OperatorMod => "OperatorMod"@,
        XNodeType::OperatorUnion => "OperatorUnion"@,
        XNodeType::OperatorIntersect => "OperatorIntersect"@,
        XNodeType::OperatorExcept => "OperatorExcept"@,
        XNodeType::OperatorTo => "OperatorTo"@,
        XNodeType::OperatorIsSameNode => "OperatorIsSameNode"@,
        XNodeType::OperatorNodeBefore => "OperatorNodeBefore"@,
        XNodeType::OperatorNodeAfter => "OperatorNodeAfter"@,
        XNodeType::OperatorInstanceOf => "OperatorInstanceOf"@,
        XNodeType::OperatorTreatAs => "OperatorTreatAs"@,
        XNodeType::OperatorCastableAs => "OperatorCastableAs"@,
        XNodeType::OperatorCastAs => "OperatorCastAs"@,
        XNodeType::IfExpr => "IfExpr"@,
        XNodeType::IfThenElse => "IfThenElse"@,
        XNodeType::ForExpr => "ForExpr"@,
        XNodeType::SomeExpr => "SomeExpr"@,
        XNodeType::EveryExpr => "EveryExpr"@,
        XNodeType::ForVarBind => "ForVarBind"@,
        XNodeType::SomeVarBind => "SomeVarBind"@,
        XNodeType::EveryVarBind => "EveryVarBind"@,
        XNodeType::StringLiteral => "StringLiteral"@,
        XNodeType::IntegerLiteral => "IntegerLiteral"@,
        XNodeType::DecimalLiteral => "DecimalLiteral"@,
        XNodeType::DoubleLiteral => "DoubleLiteral"@,
        XNodeType::ContextItem => "ContextItem"@,
        XNodeType::FunctionCall => "FunctionCall"@,
        XNodeType::ArgumentTop => "ArgumentTop"@,
        XNodeType::VarRef => "VarRef"@,
        XNodeType::ApplyPredicate => "ApplyPredicate"@,
        XNodeType::ApplyArgument => "ApplyArgument"@,
        XNodeType::KindTest => "KindTest"@,
        XNodeType::DocumentTest => "DocumentTest"@,
        XNodeType::ElementTest => "ElementTest"@,
        XNodeType::AttributeTest => "AttributeTest"@,
        XNodeType::SchemaElementTest => "SchemaElementTest"@,
        XNodeType::SchemaAttributeTest => "SchemaAttributeTest"@,
        XNodeType::PITest => "PITest"@,
        XNodeType::CommentTest => "CommentTest"@,
        XNodeType::TextTest => "TextTest"@,
        XNodeType::NamespaceNodeTest => "NamespaceNodeTest"@,
        XNodeType::AnyKindTest => "AnyKindTest"@,
        XNodeType::KindTestTypeName => "KindTestTypeName"@,
        XNodeType::EmptySequenceTest => "EmptySequenceTest"@,
        XNodeType::ItemTest => "ItemTest"@,
        XNodeType::TypeName => "TypeName"@,
        XNodeType::AnyFunctionTest => "AnyFunctionTest"@,
        XNodeType::TypedFunctionTest => "TypedFunctionTest"@,
        XNodeType::MapTest => "MapTest"@,
        XNodeType::ArrayTest => "ArrayTest"@,
        XNodeType::AtomicOrUnionType => "AtomicOrUnionType"@,
        XNodeType::ParenthesizedItemType => "ParenthesizedItemType"@,
        XNodeType::SingleType => "SingleType"@,
        XNodeType::SequenceType => "SequenceType"@,
        XNodeType::OperatorConcat => "OperatorConcat"@,
        XNodeType::OperatorMap => "OperatorMap"@,
        XNodeType::LetExpr => "LetExpr"@,
        XNodeType::LetVarBind => "LetVarBind"@,
        XNodeType::InlineFunction => "InlineFunction"@,
        XNodeType::Param => "Param"@,
        XNodeType::ReturnType => "ReturnType"@,
        XNodeType::ArgumentListTop => "ArgumentListTop"@,
        XNodeType::NamedFunctionRef => "NamedFunctionRef"@,
        XNodeType::PartialFunctionCall => "PartialFunctionCall"@,
        XNodeType::ArgumentPlaceholder => "ArgumentPlaceholder"@,
        XNodeType::MapExpr => "Map"@,
        XNodeType::MapConstruct => "MapConstruct"@,
        XNodeType::MapEntry => "MapEntry"@,
        XNodeType::SquareArray => "SquareArray"@,
        XNodeType::CurlyArray => "CurlyArray"@,
        XNodeType::ArrayEntry => "ArrayEntry"@,
        XNodeType::UnaryLookupByExpr => "UnaryLookupByExpr"@,
        XNodeType::UnaryLookupByWildcard => "UnaryLookupByWildcard"@,
        XNodeType::ParenthesizedExpr => "ParenthesizedExpr"@,
    }
}

/// `n` spaces.
pub open spec fn spaces(n: nat) -> Seq<char> {
    Seq::new(n, |i: int| ' ')
}

/// The dump of a tree: a line `pref [kind] name` indented by `indent`
/// spaces, then the dumps of the left child (marked `L`) and of the right
/// child (marked `R`), each indented `step` spaces more; nil children are
/// left out.
pub open spec fn dump_tree(t: XTree, indent: nat, step: nat, pref: Seq<char>) -> Seq<char>
    decreases xt_depth(t),
{
    proof {
        lemma_child_depth(t);
    }
    let line = spaces(indent) + pref + " ["@ + spec_xnode_type_label(t.n_type) + "] "@ + t.name + "\n"@;
    let l = if xt_left(t).n_type != XNodeType::Nil {
        dump_tree(xt_left(t), indent + step, step, "L"@)
    } else {
        Seq::empty()
    };
    let r = if xt_right(t).n_type != XNodeType::Nil {
        dump_tree(xt_right(t), indent + step, step, "R"@)
    } else {
        Seq::empty()
    };
    line + l + r
}

/// A node of a syntax tree.
#[derive(Debug)]
pub struct XNodePtr {
    n_type: XNodeType,
    name: String,
    left: Option<Box<XNodePtr>>,
    right: Option<Box<XNodePtr>>,
}

/// The tree that a node stands for.
pub closed spec fn tree_view(x: XNodePtr) -> XTree
    decreases x,
{
    XTree {
        n_type: x.n_type,
        name: x.name@,
        left: match x.left {
            Some(b) => Some(Box::new(tree_view(*b))),
            None => None,
        },
        right: match x.right {
            Some(b) => Some(Box::new(tree_view(*b))),
            None => None,
        },
    }
}

impl View for XNodePtr {
    type V = XTree;

    closed spec fn view(&self) -> XTree {
        tree_view(*self)
    }
}

impl XNodePtr {
    /// A copy of the whole tree.
    pub fn copy(&self) -> (r: XNodePtr)
        ensures
            r@ == self@,
        decreases self,
    {
        let left = match &self.left {
            Some(b) => Some(Box::new((&**b).copy())),
            None => None,
        };
        let right = match &self.right {
            Some(b) => Some(Box::new((&**b).copy())),
            None => None,
        };
        XNodePtr { n_type: self.n_type, name: self.name.clone(), left, right }
    }
}

/// The name of a node kind, as dumps show it.
pub fn xnode_type_label(t: XNodeType) -> (s: &'static str)
    ensures
        s@ == spec_xnode_type_label(t),
{
    match t {
        XNodeType::Nil => "Nil",
        XNodeType::OperatorPath => "OperatorPath",
        XNodeType::AxisRoot => "AxisRoot",
        XNodeType::AxisAncestor => "AxisAncestor",
        XNodeType::AxisAncestorOrSelf => "AxisAncestorOrSelf",
        XNodeType::AxisAttribute => "AxisAttribute",
        XNodeType::AxisChild => "AxisChild",
        XNodeType::AxisDescendant => "AxisDescendant",
        XNodeType::AxisDescendantOrSelf => "AxisDescendantOrSelf",
        XNodeType::AxisFollowing => "AxisFollowing",
        XNodeType::AxisFollowingSibling => "AxisFollowingSibling",
        XNodeType::AxisNamespace => "AxisNamespace",
        XNodeType::AxisParent => "AxisParent",
        XNodeType::AxisPreceding => "AxisPreceding",
        XNodeType::AxisPrecedingSibling => "AxisPrecedingSibling",
        XNodeType::AxisSelf => "AxisSelf",
        XNodeType::PredicateTop => "PredicateTop",
        XNodeType::PredicateRevTop => "PredicateRevTop",
        XNodeType::OperatorConcatenate => "OperatorConcatenate",
        XNodeType::OperatorOr => "OperatorOr",
        XNodeType::OperatorAnd => "OperatorAnd",
        XNodeType::OperatorGeneralEQ => "OperatorGeneralEQ",
        XNodeType::OperatorGeneralNE => "OperatorGeneralNE",
        XNodeType::OperatorGeneralLT => "OperatorGeneralLT",
        XNodeType::OperatorGeneralGT => "OperatorGeneralGT",
        XNodeType::OperatorGeneralLE => "OperatorGeneralLE",
        XNodeType::OperatorGeneralGE => "OperatorGeneralGE",
        XNodeType::OperatorValueEQ => "OperatorValueEQ",
        XNodeType::OperatorValueNE => "OperatorValueNE",
        XNodeType::OperatorValueLT => "OperatorValueLT",
        XNodeType::OperatorValueGT => "OperatorValueGT",
        XNodeType::OperatorValueLE => "OperatorValueLE",
        XNodeType::OperatorValueGE => "OperatorValueGE",
        XNodeType::OperatorAdd => "OperatorAdd",
        XNodeType::OperatorSubtract => "OperatorSubtract",
        XNodeType::OperatorUnaryPlus => "OperatorUnaryPlus",
        XNodeType::OperatorUnaryMinus => "OperatorUnaryMinus",
        XNodeType::OperatorMultiply => "OperatorMultiply",
        XNodeType::OperatorDiv => "OperatorDiv",
        XNodeType::OperatorIDiv => "OperatorIDiv",
        XNodeType::OperatorMod => "OperatorMod",
        XNodeType::OperatorUnion => "OperatorUnion",
        XNodeType::OperatorIntersect => "OperatorIntersect",
        XNodeType::OperatorExcept => "OperatorExcept",
        XNodeType::OperatorTo => "OperatorTo",
        XNodeType::OperatorIsSameNode => "OperatorIsSameNode",
        XNodeType::OperatorNodeBefore => "OperatorNodeBefore",
        XNodeType::OperatorNodeAfter => "OperatorNodeAfter",
        XNodeType::OperatorInstanceOf => "OperatorInstanceOf",
        XNodeType::OperatorTreatAs => "OperatorTreatAs",
        XNodeType::OperatorCastableAs => "OperatorCastableAs",
        XNodeType::OperatorCastAs => "OperatorCastAs",
        XNodeType::IfExpr => "IfExpr",
        XNodeType::IfThenElse => "IfThenElse",
        XNodeType::ForExpr => "ForExpr",
        XNodeType::SomeExpr => "SomeExpr",
        XNodeType::EveryExpr => "EveryExpr",
        XNodeType::ForVarBind => "ForVarBind",
        XNodeType::SomeVarBind => "SomeVarBind",
        XNodeType::EveryVarBind => "EveryVarBind",
        XNodeType::StringLiteral => "StringLiteral",
        XNodeType::IntegerLiteral => "IntegerLiteral",
        XNodeType::DecimalLiteral => "DecimalLiteral",
        XNodeType::DoubleLiteral => "DoubleLiteral",
        XNodeType::ContextItem => "ContextItem",
        XNodeType::FunctionCall => "FunctionCall",
        XNodeType::ArgumentTop => "ArgumentTop",
        XNodeType::VarRef => "VarRef",
        XNodeType::ApplyPredicate => "ApplyPredicate",
        XNodeType::ApplyArgument => "ApplyArgument",
        XNodeType::KindTest => "KindTest",
        XNodeType::DocumentTest => "DocumentTest",
        XNodeType::ElementTest => "ElementTest",
        XNodeType::AttributeTest => "AttributeTest",
        XNodeType::SchemaElementTest => "SchemaElementTest",
        XNodeType::SchemaAttributeTest => "SchemaAttributeTest",
        XNodeType::PITest => "PITest",
        XNodeType::CommentTest => "CommentTest",
        XNodeType::TextTest => "TextTest",
        XNodeType::NamespaceNodeTest => "NamespaceNodeTest",
        XNodeType::AnyKindTest => "AnyKindTest",
        XNodeType::KindTestTypeName => "KindTestTypeName",
        XNodeType::EmptySequenceTest => "EmptySequenceTest",
        XNodeType::ItemTest => "ItemTest",
        XNodeType::TypeName => "TypeName",
        XNodeType::AnyFunctionTest => "AnyFunctionTest",
        XNodeType::TypedFunctionTest => "TypedFunctionTest",
        XNodeType::MapTest => "MapTest",
        XNodeType::ArrayTest => "ArrayTest",
        XNodeType::AtomicOrUnionType => "AtomicOrUnionType",
        XNodeType::ParenthesizedItemType => "ParenthesizedItemType",
        XNodeType::SingleType => "SingleType",
        XNodeType::SequenceType => "SequenceType",
        XNodeType::OperatorConcat => "OperatorConcat",
        XNodeType::OperatorMap => "OperatorMap",
        XNodeType::LetExpr => "LetExpr",
        XNodeType::LetVarBind => "LetVarBind",
        XNodeType::InlineFunction => "InlineFunction",
        XNodeType::Param => "Param",
        XNodeType::ReturnType => "ReturnType",
        XNodeType::ArgumentListTop => "ArgumentListTop",
        XNodeType::NamedFunctionRef => "NamedFunctionRef",
        XNodeType::PartialFunctionCall => "PartialFunctionCall",
        XNodeType::ArgumentPlaceholder => "ArgumentPlaceholder",
        XNodeType::MapExpr => "Map",
        XNodeType::MapConstruct => "MapConstruct",
        XNodeType::MapEntry => "MapEntry",
        XNodeType::SquareArray => "SquareArray",
        XNodeType::CurlyArray => "CurlyArray",
        XNodeType::ArrayEntry => "ArrayEntry",
        XNodeType::UnaryLookupByExpr => "UnaryLookupByExpr",
        XNodeType::UnaryLookupByWildcard => "UnaryLookupByWildcard",
        XNodeType::ParenthesizedExpr => "ParenthesizedExpr",
    }
}

impl XNodePtr {
    fn dump_sub(&self, indent: usize, step: usize, pref: &str) -> (s: String)
        requires
            indent + step * xt_depth(self@) <= usize::MAX,
        ensures
            s@ == dump_tree(self@, indent as nat, step as nat, pref@),
        decreases self,
    {
        proof {
            lemma_child_depth(self@);
            reveal_strlit("L");
            reveal_strlit("R");
        }
        let mut s = String::new();
        let mut i: usize = 0;
        while i < indent
            invariant
                i <= indent,
                s@ == spaces(i as nat),
            decreases indent - i,
        {
            push_char(&mut s, ' ');
            i += 1;
            assert(s@ =~= spaces(i as nat));
        }
        s.append(pref);
        s.append(" [");
        s.append(xnode_type_label(self.n_type));
        s.append("] ");
        s.append(self.name.as_str());
        s.append("\n");
        if let Some(b) = &self.left {
            if b.n_type != XNodeType::Nil {
                assert(xt_left(self@) == (**b)@);
                assert(step * xt_depth((**b)@) + step <= step * xt_depth(self@)) by (nonlinear_arith)
                    requires
                        xt_depth((**b)@) + 1 <= xt_depth(self@),
                ;
                let l = (&**b).dump_sub(indent + step, step, "L");
                s.append(l.as_str());
            }
        }
        if let Some(b) = &self.right {
            if b.n_type != XNodeType::Nil {
                assert(xt_right(self@) == (**b)@);
                assert(step * xt_depth((**b)@) + step <= step * xt_depth(self@)) by (nonlinear_arith)
                    requires
                        xt_depth((**b)@) + 1 <= xt_depth(self@),
                ;
                let r = (&**b).dump_sub(indent + step, step, "R");
                s.append(r.as_str());
            }
        }
        s
    }

    /// The dump of the tree, four spaces a level, the root marked `T`.
    pub fn to_string(&self) -> (s: String)
        requires
            4 * xt_depth(self@) <= usize::MAX,
        ensures
            s@ == dump_tree(self@, 0, 4, "T"@),
    {
        self.dump_sub(0, 4, "T")
    }
}

/// A node without children.
pub fn new_xnode(n_type: XNodeType, name: &str) -> (x: XNodePtr)
    ensures
        x@ == (XTree { n_type, name: name@, left: None, right: None }),
        n_type != XNodeType::TypedFunctionTest ==> fn_tests_ok(x@),
{
    proof {
        let t = XTree { n_type, name: name@, left: None, right: None };
        if n_type != XNodeType::TypedFunctionTest {
            assert(fn_tests_ok(nil_tree()));
            lemma_fn_tests_ok_node(t);
        }
    }
    XNodePtr { n_type, name: String::from_str(name), left: None, right: None }
}

/// The node that stands for "no node".
pub fn new_nil_xnode() -> (x: XNodePtr)
    ensures
        x@ == nil_tree(),
        fn_tests_ok(x@),
{
    proof {
        reveal_strlit("");
    }
    let x = new_xnode(XNodeType::Nil, "");
    assert(x@.name =~= Seq::<char>::empty());
    x
}

/// Makes `left` the left child of `parent`, unless `left` is a nil node.
pub fn assign_as_left(parent: &mut XNodePtr, left: XNodePtr)
    ensures
        final(parent)@ == (if left@.n_type == XNodeType::Nil {
            old(parent)@
        } else {
            XTree { left: Some(Box::new(left@)), ..old(parent)@ }
        }),
        fn_tests_ok(old(parent)@) && fn_tests_ok(left@) ==> fn_tests_ok(final(parent)@),
{
    proof {
        if fn_tests_ok(old(parent)@) && fn_tests_ok(left@) && left@.n_type != XNodeType::Nil {
            lemma_fn_tests_ok_children(old(parent)@);
            let t = XTree { left: Some(Box::new(left@)), ..old(parent)@ };
            assert(xt_left(t) == left@);
            assert(xt_right(t) == xt_right(old(parent)@));
            lemma_fn_tests_ok_node(t);
        }
    }
    if left.n_type != XNodeType::Nil {
        parent.left = Some(Box::new(left));
    }
}

/// Makes `right` the right child of `parent`, unless `right` is a nil node.
pub fn assign_as_right(parent: &mut XNodePtr, right: XNodePtr)
    ensures
        final(parent)@ == (if right@.n_type == XNodeType::Nil {
            old(parent)@
        } else {
            XTree { right: Some(Box::new(right@)), ..old(parent)@ }
        }),
        fn_tests_ok(old(parent)@) && fn_tests_ok(right@) ==> fn_tests_ok(final(parent)@),
        old(parent)@.n_type == XNodeType::TypedFunctionTest && fn_tests_ok(xt_left(old(parent)@))
            && fn_tests_ok(right@) && right@.n_type != XNodeType::Nil ==> fn_tests_ok(final(parent)@),
{
    proof {
        if right@.n_type != XNodeType::Nil && fn_tests_ok(right@) {
            let t = XTree { right: Some(Box::new(right@)), ..old(parent)@ };
            assert(xt_right(t) == right@);
            assert(xt_left(t) == xt_left(old(parent)@));
            if fn_tests_ok(old(parent)@) {
                lemma_fn_tests_ok_children(old(parent)@);
                lemma_fn_tests_ok_node(t);
            }
            if old(parent)@.n_type == XNodeType::TypedFunctionTest && fn_tests_ok(xt_left(old(parent)@)) {
                lemma_fn_tests_ok_node(t);
            }
        }
    }
    if right.n_type != XNodeType::Nil {
        parent.right = Some(Box::new(right));
    }
}

/// The name of a node.
pub fn get_xnode_name(xnode: &XNodePtr) -> (name: String)
    ensures
        name@ == xnode@.name,
{
    xnode.name.clone()
}

/// The kind of a node.
pub fn get_xnode_type(xnode: &XNodePtr) -> (t: XNodeType)
    ensures
        t == xnode@.n_type,
{
    xnode.n_type
}

/// Whether a node is a nil node.
pub fn is_nil_xnode(xnode: &XNodePtr) -> (b: bool)
    ensures
        b == (xnode@.n_type == XNodeType::Nil),
{
    xnode.n_type == XNodeType::Nil
}

/// A copy of the left child, or a nil node.
pub fn get_left(parent: &XNodePtr) -> (x: XNodePtr)
    ensures
        x@ == xt_left(parent@),
{
    match &parent.left {
        Some(b) => (&**b).copy(),
        None => new_nil_xnode(),
    }
}

/// A copy of the right child, or a nil node.
pub fn get_right(parent: &XNodePtr) -> (x: XNodePtr)
    ensures
        x@ == xt_right(parent@),
{
    match &parent.right {
        Some(b) => (&**b).copy(),
        None => new_nil_xnode(),
    }
}

} // verus!
