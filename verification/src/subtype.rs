//! Type judgements of the evaluator on sequence types and item types, read
//! from the syntax tree: whether one atomic type derives from another, and
//! whether one sequence type is a subtype of another.

use vstd::prelude::*;
use crate::error::{XPathError, XPathErrorKind};
use crate::func::{get_function_signature, lemma_signature_short, signature_from};
use crate::grammar::spec_function_test;
use crate::lexer::{Lexer, spec_tokenize};
use crate::parser::parse_function_test;
use crate::text::str_eq;
use crate::xnode::{
    XNodePtr, XNodeType, XTree, xt_left, xt_right, xt_depth, lemma_child_depth, get_left, get_right,
    get_xnode_type, get_xnode_name, is_nil_xnode, fn_tests_ok, lemma_fn_tests_ok_children,
};

verus! {

// =====================================================================
// Atomic types.

/// The type that `t` directly derives from, for the built-in atomic types.
pub open spec fn type_parent(t: Seq<char>) -> Option<Seq<char>> {
    if t == "xs:integer"@ { Some("xs:decimal"@) }
    else if t == "xs:decimal"@ { Some("xs:numeric"@) }
    else if t == "xs:double"@ { Some("xs:numeric"@) }
    else if t == "xs:numeric"@ { Some("xs:anyAtomicType"@) }
    else if t == "xs:string"@ { Some("xs:anyAtomicType"@) }
    else if t == "xs:anyURI"@ { Some("xs:string"@) }
    else if t == "xs:boolean"@ { Some("xs:anyAtomicType"@) }
    else if t == "xs:anyAtomicType"@ { Some("xs:anySimpleType"@) }
    else if t == "xs:anySimpleType"@ { Some("xs:anyType"@) }
    else if t == "xs:untyped"@ { Some("xs:anyType"@) }
    else { None }
}

/// A type followed by every type it derives from, nearest first.
pub open spec fn type_ancestors(t: Seq<char>) -> Seq<Seq<char>> {
    if t == "xs:integer"@ {
        seq![t, "xs:decimal"@, "xs:numeric"@, "xs:anyAtomicType"@, "xs:anySimpleType"@, "xs:anyType"@]
    } else if t == "xs:decimal"@ || t == "xs:double"@ {
        seq![t, "xs:numeric"@, "xs:anyAtomicType"@, "xs:anySimpleType"@, "xs:anyType"@]
    } else if t == "xs:anyURI"@ {
        seq![t, "xs:string"@, "xs:anyAtomicType"@, "xs:anySimpleType"@, "xs:anyType"@]
    } else if t == "xs:numeric"@ || t == "xs:string"@ || t == "xs:boolean"@ {
        seq![t, "xs:anyAtomicType"@, "xs:anySimpleType"@, "xs:anyType"@]
    } else if t == "xs:anyAtomicType"@ {
        seq![t, "xs:anySimpleType"@, "xs:anyType"@]
    } else if t == "xs:anySimpleType"@ || t == "xs:untyped"@ {
        seq![t, "xs:anyType"@]
    } else {
        seq![t]
    }
}

/// Whether type `a` is `b` or derives from it.
pub open spec fn spec_derives_from(a: Seq<char>, b: Seq<char>) -> bool {
    type_ancestors(a).contains(b)
}

proof fn lemma_type_names_distinct()
    ensures
        "xs:integer"@ != "xs:decimal"@,
        "xs:integer"@ != "xs:double"@,
        "xs:integer"@ != "xs:numeric"@,
        "xs:integer"@ != "xs:string"@,
        "xs:integer"@ != "xs:anyURI"@,
        "xs:integer"@ != "xs:boolean"@,
        "xs:integer"@ != "xs:anyAtomicType"@,
        "xs:integer"@ != "xs:anySimpleType"@,
        "xs:integer"@ != "xs:untyped"@,
        "xs:integer"@ != "xs:anyType"@,
        "xs:decimal"@ != "xs:double"@,
        "xs:decimal"@ != "xs:numeric"@,
        "xs:decimal"@ != "xs:string"@,
        "xs:decimal"@ != "xs:anyURI"@,
        "xs:decimal"@ != "xs:boolean"@,
        "xs:decimal"@ != "xs:anyAtomicType"@,
        "xs:decimal"@ != "xs:anySimpleType"@,
        "xs:decimal"@ != "xs:untyped"@,
        "xs:decimal"@ != "xs:anyType"@,
        "xs:double"@ != "xs:numeric"@,
        "xs:double"@ != "xs:string"@,
        "xs:double"@ != "xs:anyURI"@,
        "xs:double"@ != "xs:boolean"@,
        "xs:double"@ != "xs:anyAtomicType"@,
        "xs:double"@ != "xs:anySimpleType"@,
        "xs:double"@ != "xs:untyped"@,
        "xs:double"@ != "xs:anyType"@,
        "xs:numeric"@ != "xs:string"@,
        "xs:numeric"@ != "xs:anyURI"@,
        "xs:numeric"@ != "xs:boolean"@,
        "xs:numeric"@ != "xs:anyAtomicType"@,
        "xs:numeric"@ != "xs:anySimpleType"@,
        "xs:numeric"@ != "xs:untyped"@,
        "xs:numeric"@ != "xs:anyType"@,
        "xs:string"@ != "xs:anyURI"@,
        "xs:string"@ != "xs:boolean"@,
        "xs:string"@ != "xs:anyAtomicType"@,
        "xs:string"@ != "xs:anySimpleType"@,
        "xs:string"@ != "xs:untyped"@,
        "xs:string"@ != "xs:anyType"@,
        "xs:anyURI"@ != "xs:boolean"@,
        "xs:anyURI"@ != "xs:anyAtomicType"@,
        "xs:anyURI"@ != "xs:anySimpleType"@,
        "xs:anyURI"@ != "xs:untyped"@,
        "xs:anyURI"@ != "xs:anyType"@,
        "xs:boolean"@ != "xs:anyAtomicType"@,
        "xs:boolean"@ != "xs:anySimpleType"@,
        "xs:boolean"@ != "xs:untyped"@,
        "xs:boolean"@ != "xs:anyType"@,
        "xs:anyAtomicType"@ != "xs:anySimpleType"@,
        "xs:anyAtomicType"@ != "xs:untyped"@,
        "xs:anyAtomicType"@ != "xs:anyType"@,
        "xs:anySimpleType"@ != "xs:untyped"@,
        "xs:anySimpleType"@ != "xs:anyType"@,
        "xs:untyped"@ != "xs:anyType"@,
{
    reveal_strlit("xs:integer");
    reveal_strlit("xs:decimal");
    reveal_strlit("xs:double");
    reveal_strlit("xs:numeric");
    reveal_strlit("xs:string");
    reveal_strlit("xs:anyURI");
    reveal_strlit("xs:boolean");
    reveal_strlit("xs:anyAtomicType");
    reveal_strlit("xs:anySimpleType");
    reveal_strlit("xs:untyped");
    reveal_strlit("xs:anyType");
    assert("xs:integer"@[3] == 'i' && "xs:integer"@[4] == 'n' && "xs:integer"@[6] == 'e');
    assert("xs:decimal"@[3] == 'd' && "xs:decimal"@[4] == 'e' && "xs:decimal"@[6] == 'i');
    assert("xs:double"@[3] == 'd' && "xs:double"@[4] == 'o' && "xs:double"@[6] == 'b');
    assert("xs:numeric"@[3] == 'n' && "xs:numeric"@[4] == 'u' && "xs:numeric"@[6] == 'e');
    assert("xs:string"@[3] == 's' && "xs:string"@[4] == 't' && "xs:string"@[6] == 'i');
    assert("xs:anyURI"@[3] == 'a' && "xs:anyURI"@[4] == 'n' && "xs:anyURI"@[6] == 'U');
    assert("xs:boolean"@[3] == 'b' && "xs:boolean"@[4] == 'o' && "xs:boolean"@[6] == 'l');
    assert("xs:anyAtomicType"@[3] == 'a' && "xs:anyAtomicType"@[4] == 'n' && "xs:anyAtomicType"@[6] == 'A');
    assert("xs:anySimpleType"@[3] == 'a' && "xs:anySimpleType"@[4] == 'n' && "xs:anySimpleType"@[6] == 'S');
    assert("xs:untyped"@[3] == 'u' && "xs:untyped"@[4] == 'n' && "xs:untyped"@[6] == 'y');
    assert("xs:anyType"@[3] == 'a' && "xs:anyType"@[4] == 'n' && "xs:anyType"@[6] == 'T');
}

/// The ancestors of a type are the type followed by the ancestors of its
/// parent.
proof fn lemma_type_ancestors_step(t: Seq<char>)
    ensures
        type_ancestors(t) == (match type_parent(t) {
            Some(p) => seq![t] + type_ancestors(p),
            None => seq![t],
        }),
{
    lemma_type_names_distinct();
    match type_parent(t) {
        Some(p) => {
            assert(type_ancestors(t) =~= seq![t] + type_ancestors(p));
        },
        None => {},
    }
}

fn derives_parent(t: &str) -> (r: Option<&'static str>)
    ensures
        match type_parent(t@) {
            Some(p) => r matches Some(s) && s@ == p,
            None => r is None,
        },
{
    if str_eq(t, "xs:integer") { Some("xs:decimal") }
    else if str_eq(t, "xs:decimal") { Some("xs:numeric") }
    else if str_eq(t, "xs:double") { Some("xs:numeric") }
    else if str_eq(t, "xs:numeric") { Some("xs:anyAtomicType") }
    else if str_eq(t, "xs:string") { Some("xs:anyAtomicType") }
    else if str_eq(t, "xs:anyURI") { Some("xs:string") }
    else if str_eq(t, "xs:boolean") { Some("xs:anyAtomicType") }
    else if str_eq(t, "xs:anyAtomicType") { Some("xs:anySimpleType") }
    else if str_eq(t, "xs:anySimpleType") { Some("xs:anyType") }
    else if str_eq(t, "xs:untyped") { Some("xs:anyType") }
    else { None }
}

/// Whether atomic type `ai` is `bi` or derives from it.
pub fn derives_from(ai: &str, bi: &str) -> (r: bool)
    ensures
        r == spec_derives_from(ai@, bi@),
{
    let mut t_type = String::from_str(ai);
    loop
        invariant
            spec_derives_from(ai@, bi@) == spec_derives_from(t_type@, bi@),
        decreases type_ancestors(t_type@).len(),
    {
        proof {
            lemma_type_ancestors_step(t_type@);
        }
        if str_eq(t_type.as_str(), bi) {
            assert(type_ancestors(t_type@)[0] == t_type@);
            return true;
        }
        match derives_parent(t_type.as_str()) {
            Some(s) => {
                let ghost old_t = t_type@;
                t_type = String::from_str(s);
                proof {
                    let rest = type_ancestors(t_type@);
                    assert forall|x: Seq<char>| type_ancestors(old_t).contains(x) == (x == old_t || rest.contains(x)) by {
                        if rest.contains(x) {
                            let k = choose|k: int| 0 <= k < rest.len() && rest[k] == x;
                            assert(type_ancestors(old_t)[k + 1] == x);
                        }
                        if type_ancestors(old_t).contains(x) && x != old_t {
                            let k = choose|k: int| 0 <= k < type_ancestors(old_t).len() && type_ancestors(old_t)[k] == x;
                            assert(k > 0);
                            assert(rest[k - 1] == x);
                        }
                    }
                }
            },
            None => {
                assert(type_ancestors(t_type@) == seq![t_type@]);
                return false;
            },
        }
    }
}


/// The built-in atomic types derive as XPath has them: `xs:integer` from
/// `xs:decimal`, `xs:decimal` and `xs:double` from `xs:numeric`,
/// `xs:anyURI` from `xs:string`, `xs:numeric`, `xs:string` and `xs:boolean`
/// from `xs:anyAtomicType`, which derives from `xs:anySimpleType`, which
/// with `xs:untyped` derives from `xs:anyType`; and no type derives from
/// one below it or beside it.
pub proof fn law_builtin_derivations()
    ensures
        spec_derives_from("xs:integer"@, "xs:decimal"@),
        spec_derives_from("xs:decimal"@, "xs:numeric"@),
        spec_derives_from("xs:double"@, "xs:numeric"@),
        spec_derives_from("xs:numeric"@, "xs:anyAtomicType"@),
        spec_derives_from("xs:string"@, "xs:anyAtomicType"@),
        spec_derives_from("xs:anyURI"@, "xs:string"@),
        spec_derives_from("xs:boolean"@, "xs:anyAtomicType"@),
        spec_derives_from("xs:anyAtomicType"@, "xs:anySimpleType"@),
        spec_derives_from("xs:anySimpleType"@, "xs:anyType"@),
        spec_derives_from("xs:untyped"@, "xs:anyType"@),
        !spec_derives_from("xs:decimal"@, "xs:integer"@),
        !spec_derives_from("xs:numeric"@, "xs:decimal"@),
        !spec_derives_from("xs:double"@, "xs:decimal"@),
        !spec_derives_from("xs:integer"@, "xs:double"@),
        !spec_derives_from("xs:string"@, "xs:numeric"@),
        !spec_derives_from("xs:boolean"@, "xs:numeric"@),
        !spec_derives_from("xs:anyURI"@, "xs:numeric"@),
        !spec_derives_from("xs:numeric"@, "xs:string"@),
        !spec_derives_from("xs:untyped"@, "xs:anyAtomicType"@),
        !spec_derives_from("xs:anyType"@, "xs:anyAtomicType"@),
{
    reveal_strlit("xs:anyAtomicType");
    reveal_strlit("xs:anySimpleType");
    reveal_strlit("xs:anyType");
    reveal_strlit("xs:anyURI");
    reveal_strlit("xs:boolean");
    reveal_strlit("xs:decimal");
    reveal_strlit("xs:double");
    reveal_strlit("xs:integer");
    reveal_strlit("xs:numeric");
    reveal_strlit("xs:string");
    reveal_strlit("xs:untyped");
    assert("xs:anyAtomicType"@[6] != "xs:anySimpleType"@[6]);
    assert("xs:anyAtomicType"@.len() != "xs:anyType"@.len());
    assert("xs:anyAtomicType"@.len() != "xs:anyURI"@.len());
    assert("xs:anyAtomicType"@.len() != "xs:boolean"@.len());
    assert("xs:anyAtomicType"@.len() != "xs:decimal"@.len());
    assert("xs:anyAtomicType"@.len() != "xs:double"@.len());
    assert("xs:anyAtomicType"@.len() != "xs:integer"@.len());
    assert("xs:anyAtomicType"@.len() != "xs:numeric"@.len());
    assert("xs:anyAtomicType"@.len() != "xs:string"@.len());
    assert("xs:anyAtomicType"@.len() != "xs:untyped"@.len());
    assert("xs:anySimpleType"@.len() != "xs:anyType"@.len());
    assert("xs:anySimpleType"@.len() != "xs:anyURI"@.len());
    assert("xs:anySimpleType"@.len() != "xs:boolean"@.len());
    assert("xs:anySimpleType"@.len() != "xs:decimal"@.len());
    assert("xs:anySimpleType"@.len() != "xs:double"@.len());
    assert("xs:anySimpleType"@.len() != "xs:integer"@.len());
    assert("xs:anySimpleType"@.len() != "xs:numeric"@.len());
    assert("xs:anySimpleType"@.len() != "xs:string"@.len());
    assert("xs:anySimpleType"@.len() != "xs:untyped"@.len());
    assert("xs:anyType"@.len() != "xs:anyURI"@.len());
    assert("xs:anyType"@[3] != "xs:boolean"@[3]);
    assert("xs:anyType"@[3] != "xs:decimal"@[3]);
    assert("xs:anyType"@.len() != "xs:double"@.len());
    assert("xs:anyType"@[3] != "xs:integer"@[3]);
    assert("xs:anyType"@[3] != "xs:numeric"@[3]);
    assert("xs:anyType"@.len() != "xs:string"@.len());
    assert("xs:anyType"@[3] != "xs:untyped"@[3]);
    assert("xs:anyURI"@.len() != "xs:boolean"@.len());
    assert("xs:anyURI"@.len() != "xs:decimal"@.len());
    assert("xs:anyURI"@[3] != "xs:double"@[3]);
    assert("xs:anyURI"@.len() != "xs:integer"@.len());
    assert("xs:anyURI"@.len() != "xs:numeric"@.len());
    assert("xs:anyURI"@[3] != "xs:string"@[3]);
    assert("xs:anyURI"@.len() != "xs:untyped"@.len());
    assert("xs:boolean"@[3] != "xs:decimal"@[3]);
    assert("xs:boolean"@.len() != "xs:double"@.len());
    assert("xs:boolean"@[3] != "xs:integer"@[3]);
    assert("xs:boolean"@[3] != "xs:numeric"@[3]);
    assert("xs:boolean"@.len() != "xs:string"@.len());
    assert("xs:boolean"@[3] != "xs:untyped"@[3]);
    assert("xs:decimal"@.len() != "xs:double"@.len());
    assert("xs:decimal"@[3] != "xs:integer"@[3]);
    assert("xs:decimal"@[3] != "xs:numeric"@[3]);
    assert("xs:decimal"@.len() != "xs:string"@.len());
    assert("xs:decimal"@[3] != "xs:untyped"@[3]);
    assert("xs:double"@.len() != "xs:integer"@.len());
    assert("xs:double"@.len() != "xs:numeric"@.len());
    assert("xs:double"@[3] != "xs:string"@[3]);
    assert("xs:double"@.len() != "xs:untyped"@.len());
    assert("xs:integer"@[3] != "xs:numeric"@[3]);
    assert("xs:integer"@.len() != "xs:string"@.len());
    assert("xs:integer"@[3] != "xs:untyped"@[3]);
    assert("xs:numeric"@.len() != "xs:string"@.len());
    assert("xs:numeric"@[3] != "xs:untyped"@[3]);
    assert("xs:string"@.len() != "xs:untyped"@.len());
}

/// Every type derives from itself.
pub proof fn law_derives_from_reflexive(a: Seq<char>)
    ensures
        spec_derives_from(a, a),
{
    assert(type_ancestors(a)[0] == a);
}

/// A type derives from no more types than the types it derives from, and
/// from strictly fewer when it is another type.
proof fn lemma_ancestors_shorter(a: Seq<char>, b: Seq<char>)
    requires
        spec_derives_from(a, b),
    ensures
        type_ancestors(b).len() <= type_ancestors(a).len(),
        a != b ==> type_ancestors(b).len() < type_ancestors(a).len(),
    decreases type_ancestors(a).len(),
{
    lemma_type_ancestors_step(a);
    if a != b {
        match type_parent(a) {
            Some(p) => {
                let k = choose|k: int| 0 <= k < type_ancestors(a).len() && type_ancestors(a)[k] == b;
                assert(k > 0);
                assert(type_ancestors(p)[k - 1] == b);
                lemma_ancestors_shorter(p, b);
            },
            None => {},
        }
    }
}

/// If `a` derives from `b` and `b` from `c`, then `a` derives from `c`.
pub proof fn law_derives_from_transitive(a: Seq<char>, b: Seq<char>, c: Seq<char>)
    requires
        spec_derives_from(a, b),
        spec_derives_from(b, c),
    ensures
        spec_derives_from(a, c),
    decreases type_ancestors(a).len(),
{
    lemma_type_ancestors_step(a);
    if a != b {
        match type_parent(a) {
            Some(p) => {
                let k = choose|k: int| 0 <= k < type_ancestors(a).len() && type_ancestors(a)[k] == b;
                assert(k > 0);
                assert(type_ancestors(p)[k - 1] == b);
                law_derives_from_transitive(p, b, c);
                let m = choose|m: int| 0 <= m < type_ancestors(p).len() && type_ancestors(p)[m] == c;
                assert(type_ancestors(a)[m + 1] == c);
            },
            None => {},
        }
    }
}

/// Two types that derive from each other are the same type: the hierarchy
/// has no cycle.
pub proof fn law_derives_from_antisymmetric(a: Seq<char>, b: Seq<char>)
    requires
        spec_derives_from(a, b),
        spec_derives_from(b, a),
    ensures
        a == b,
{
    lemma_ancestors_shorter(a, b);
    lemma_ancestors_shorter(b, a);
}

// =====================================================================
// Sequence types.

/// The row or column of a sequence type in the subtype table: the empty
/// sequence, `?`, `*`, exactly one, `+`, or `xs:error`.
pub open spec fn spec_subtype_entry(x: XTree) -> int {
    let t = xt_left(x);
    if t.n_type == XNodeType::EmptySequenceTest {
        0
    } else if t.n_type == XNodeType::AtomicOrUnionType && t.name == "xs:error"@ {
        if x.name == "?"@ || x.name == "*"@ { 0 } else { 5 }
    } else {
        if x.name == "?"@ { 1 }
        else if x.name == "*"@ { 2 }
        else if x.name == ""@ { 3 }
        else if x.name == "+"@ { 4 }
        else { 3 }
    }
}

/// The subtype table: 0 never, 1 always, 9 when the item types are subtypes.
pub open spec fn subtype_table(i: int, j: int) -> int {
    let rows: Seq<Seq<int>> = seq![
        seq![1, 1, 1, 0, 0, 0],
        seq![0, 9, 9, 0, 0, 0],
        seq![0, 0, 9, 0, 0, 0],
        seq![0, 9, 9, 9, 9, 0],
        seq![0, 0, 9, 0, 9, 0],
        seq![1, 1, 1, 1, 1, 1],
    ];
    rows[i][j]
}

/// Whether sequence type `a` is a subtype of sequence type `b`.
pub open spec fn spec_subtype(a: XTree, b: XTree) -> bool
    decreases xt_depth(a) + xt_depth(b), 1int,
{
    let v = subtype_table(spec_subtype_entry(a), spec_subtype_entry(b));
    if v == 0 {
        false
    } else if v == 1 {
        true
    } else {
        proof {
            lemma_child_depth(a);
            lemma_child_depth(b);
        }
        spec_subtype_itemtype(xt_left(a), xt_left(b))
    }
}

/// The fewest items that an occurrence indicator allows: none for `?` and
/// `*`, one otherwise.
pub open spec fn occurrence_min(ind: Seq<char>) -> int {
    if ind == "?"@ || ind == "*"@ { 0 } else { 1 }
}

/// Whether an occurrence indicator allows any number of items (`*`, `+`);
/// otherwise it allows one at most.
pub open spec fn occurrence_unbounded(ind: Seq<char>) -> bool {
    ind == "*"@ || ind == "+"@
}

/// Whether every number of items that `a` allows, `b` allows too.
pub open spec fn occurrence_within(a: Seq<char>, b: Seq<char>) -> bool {
    occurrence_min(b) <= occurrence_min(a) && (occurrence_unbounded(a) ==> occurrence_unbounded(b))
}

/// An occurrence indicator: none, `?`, `*` or `+`.
pub open spec fn is_occurrence(ind: Seq<char>) -> bool {
    ind == ""@ || ind == "?"@ || ind == "*"@ || ind == "+"@
}

/// Between two sequence types of ordinary item types (not
/// `empty-sequence()`, not `xs:error`), `a` is a subtype of `b` exactly when
/// every number of items that `a` allows `b` allows too, and the item type
/// of `a` is a subtype of that of `b`. So `T` is a subtype of `T?`, `T*`,
/// `T+` and `T`; `T?` of `T?` and `T*`; `T+` of `T+` and `T*`; `T*` of `T*`.
pub proof fn law_subtype_occurrences(a: XTree, b: XTree)
    requires
        a.n_type == XNodeType::SequenceType,
        b.n_type == XNodeType::SequenceType,
        is_occurrence(a.name),
        is_occurrence(b.name),
        xt_left(a).n_type != XNodeType::EmptySequenceTest,
        xt_left(b).n_type != XNodeType::EmptySequenceTest,
        !(xt_left(a).n_type == XNodeType::AtomicOrUnionType && xt_left(a).name == "xs:error"@),
        !(xt_left(b).n_type == XNodeType::AtomicOrUnionType && xt_left(b).name == "xs:error"@),
    ensures
        spec_subtype(a, b) <==> (occurrence_within(a.name, b.name)
            && spec_subtype_itemtype(xt_left(a), xt_left(b))),
{
    reveal_strlit("");
    reveal_strlit("?");
    reveal_strlit("*");
    reveal_strlit("+");
    assert(""@.len() == 0);
    assert("?"@[0] != "*"@[0]);
    assert("?"@[0] != "+"@[0]);
    assert("*"@[0] != "+"@[0]);
}

/// The kind tests among item types: `node()` takes every kind test, the
/// others only their own kind; `processing-instruction()` also takes a named
/// one.
pub open spec fn kind_test_subtype(ai: XTree, bi: XTree) -> bool {
    let bk = xt_left(bi).n_type;
    let ak = xt_left(ai).n_type;
    if bk == XNodeType::AnyKindTest {
        ai.n_type == XNodeType::KindTest
    } else if bk == XNodeType::TextTest || bk == XNodeType::CommentTest || bk == XNodeType::NamespaceNodeTest {
        ai.n_type == XNodeType::KindTest && ak == bk
    } else if bk == XNodeType::PITest {
        if bi.name == ""@ {
            ai.n_type == XNodeType::KindTest && ak == XNodeType::PITest
        } else {
            ai.n_type == XNodeType::KindTest && ak == XNodeType::PITest && xt_left(ai).name == bi.name
        }
    } else {
        false
    }
}

/// Two chains of signature nodes, walked together: the first pair is
/// compared covariantly (the return types), the others contravariantly (the
/// parameters); the chains must end together.
pub open spec fn chains_subtype(ca: XTree, cb: XTree, first: bool) -> bool
    decreases xt_depth(ca) + xt_depth(cb), 0int,
{
    if ca.n_type == XNodeType::Nil || cb.n_type == XNodeType::Nil {
        ca.n_type == XNodeType::Nil && cb.n_type == XNodeType::Nil
    } else {
        proof {
            lemma_child_depth(ca);
            lemma_child_depth(cb);
        }
        &&& if first {
            spec_subtype(xt_left(ca), xt_left(cb))
        } else {
            spec_subtype(xt_left(cb), xt_left(ca))
        }
        &&& chains_subtype(xt_right(ca), xt_right(cb), false)
    }
}

/// The key type of a function test read as a map: the type of its first
/// parameter.
pub open spec fn fn_test_first_param(bi: XTree) -> XTree {
    xt_left(xt_left(xt_right(xt_right(bi))))
}

/// Whether item type `ai` is a subtype of item type `bi`, by the rules of
/// XPath 3.1 (2.5.6.2) that the evaluator implements.
pub open spec fn spec_subtype_itemtype(ai: XTree, bi: XTree) -> bool
    decreases xt_depth(ai) + xt_depth(bi), 0int,
{
    let at = ai.n_type;
    let bt = bi.n_type;
    proof {
        lemma_child_depth(ai);
        lemma_child_depth(bi);
        lemma_child_depth(xt_right(bi));
        lemma_child_depth(xt_right(xt_right(bi)));
        lemma_child_depth(xt_left(xt_right(xt_right(bi))));
    }
    ||| (at == XNodeType::AtomicOrUnionType && bt == XNodeType::AtomicOrUnionType
        && (spec_derives_from(ai.name, bi.name) || ai.name == "xs:error"@))
    ||| bt == XNodeType::ItemTest
    ||| (bt == XNodeType::KindTest && kind_test_subtype(ai, bi))
    ||| (bt == XNodeType::AnyFunctionTest && (at == XNodeType::AnyFunctionTest
        || at == XNodeType::TypedFunctionTest))
    ||| (at == XNodeType::TypedFunctionTest && bt == XNodeType::TypedFunctionTest
        && chains_subtype(xt_right(ai), xt_right(bi), true))
    ||| (at == XNodeType::MapTest && bt == XNodeType::MapTest
        && spec_subtype_itemtype(xt_left(ai), xt_left(bi))
        && spec_subtype(xt_right(ai), xt_right(bi)))
    ||| (at == XNodeType::MapTest && bt == XNodeType::AnyFunctionTest)
    ||| (at == XNodeType::MapTest && bt == XNodeType::TypedFunctionTest
        && spec_subtype_itemtype(xt_left(ai), fn_test_first_param(bi))
        && spec_subtype(xt_right(ai), xt_left(xt_right(bi))))
    ||| (at == XNodeType::ArrayTest && bt == XNodeType::ArrayTest
        && spec_subtype(xt_left(ai), xt_left(bi)))
    ||| (at == XNodeType::ArrayTest && bt == XNodeType::AnyFunctionTest)
    ||| (at == XNodeType::ArrayTest && bt == XNodeType::TypedFunctionTest
        && spec_derives_from("xs:integer"@, fn_test_first_param(bi).name)
        && spec_subtype(xt_left(ai), xt_left(xt_right(bi))))
}


/// `item()*` takes every sequence type.
pub proof fn law_subtype_of_item_star(a: XTree, b: XTree)
    requires
        xt_left(b).n_type == XNodeType::ItemTest,
        b.name == "*"@,
    ensures
        spec_subtype(a, b),
{
    reveal_strlit("*");
    reveal_strlit("?");
    assert("*"@[0] != "?"@[0]);
    assert(spec_subtype_entry(b) == 2);
    assert(spec_subtype_itemtype(xt_left(a), xt_left(b)));
}

/// `empty-sequence()` is a subtype exactly of the sequence types in the
/// first three columns of the table: the empty sequence itself and the
/// types that allow it (`?` and `*`).
pub proof fn law_empty_sequence_subtype(a: XTree, b: XTree)
    requires
        xt_left(a).n_type == XNodeType::EmptySequenceTest,
    ensures
        spec_subtype(a, b) <==> (0 <= spec_subtype_entry(b) <= 2),
{
    assert(spec_subtype_entry(a) == 0);
}

/// Every function test, typed or not, is a subtype of `function(*)`.
pub proof fn law_function_test_subtype_of_any(ai: XTree, bi: XTree)
    requires
        ai.n_type == XNodeType::AnyFunctionTest || ai.n_type == XNodeType::TypedFunctionTest,
        bi.n_type == XNodeType::AnyFunctionTest,
    ensures
        spec_subtype_itemtype(ai, bi),
{
}

// =====================================================================
// Sequence types, executable.

const S_EMPTY_SEQ: usize = 0;
const S_OCCUR_Q: usize = 1;
const S_OCCUR_A: usize = 2;
const S_OCCUR_1: usize = 3;
const S_OCCUR_P: usize = 4;
const S_XS_ERROR: usize = 5;

/// The row or column of the sequence type `xnode` in the subtype table.
pub fn subtype_entry(xnode: &XNodePtr) -> (r: usize)
    ensures
        r == spec_subtype_entry(xnode@),
{
    let type_xnode = get_left(xnode);
    if get_xnode_type(&type_xnode) == XNodeType::EmptySequenceTest {
        return S_EMPTY_SEQ;
    }
    let name = get_xnode_name(xnode);
    if get_xnode_type(&type_xnode) == XNodeType::AtomicOrUnionType
        && str_eq(get_xnode_name(&type_xnode).as_str(), "xs:error") {
        if str_eq(name.as_str(), "?") {
            S_EMPTY_SEQ
        } else if str_eq(name.as_str(), "*") {
            S_EMPTY_SEQ
        } else {
            S_XS_ERROR
        }
    } else {
        if str_eq(name.as_str(), "?") {
            S_OCCUR_Q
        } else if str_eq(name.as_str(), "*") {
            S_OCCUR_A
        } else if str_eq(name.as_str(), "") {
            S_OCCUR_1
        } else if str_eq(name.as_str(), "+") {
            S_OCCUR_P
        } else {
            S_OCCUR_1
        }
    }
}

fn subtype_table_value(i: usize, j: usize) -> (v: i64)
    requires
        i < 6,
        j < 6,
    ensures
        v == subtype_table(i as int, j as int),
{
    let tbl: [[i64; 6]; 6] = [
        [1, 1, 1, 0, 0, 0],
        [0, 9, 9, 0, 0, 0],
        [0, 0, 9, 0, 0, 0],
        [0, 9, 9, 9, 9, 0],
        [0, 0, 9, 0, 9, 0],
        [1, 1, 1, 1, 1, 1],
    ];
    let row = tbl[i];
    let v = row[j];
    proof {
        assert(i == 0 || i == 1 || i == 2 || i == 3 || i == 4 || i == 5);
        assert(j == 0 || j == 1 || j == 2 || j == 3 || j == 4 || j == 5);
    }
    v
}

/// Whether sequence type `a` is a subtype of sequence type `b`.
pub fn subtype(a: &XNodePtr, b: &XNodePtr) -> (r: bool)
    requires
        fn_tests_ok(a@),
        fn_tests_ok(b@),
    ensures
        r == spec_subtype(a@, b@),
    decreases xt_depth(a@) + xt_depth(b@), 1int,
{
    proof {
        lemma_child_depth(a@);
        lemma_child_depth(b@);
        lemma_fn_tests_ok_children(a@);
        lemma_fn_tests_ok_children(b@);
    }
    let v = subtype_table_value(subtype_entry(a), subtype_entry(b));
    if v == 0 {
        false
    } else if v == 1 {
        true
    } else {
        subtype_itemtype(&get_left(a), &get_left(b))
    }
}

fn signature_subtype(ca: &XNodePtr, cb: &XNodePtr, first: bool) -> (r: bool)
    requires
        fn_tests_ok(ca@),
        fn_tests_ok(cb@),
    ensures
        r == chains_subtype(ca@, cb@, first),
    decreases xt_depth(ca@) + xt_depth(cb@), 0int,
{
    if is_nil_xnode(ca) || is_nil_xnode(cb) {
        return is_nil_xnode(ca) && is_nil_xnode(cb);
    }
    proof {
        lemma_child_depth(ca@);
        lemma_child_depth(cb@);
        lemma_fn_tests_ok_children(ca@);
        lemma_fn_tests_ok_children(cb@);
    }
    let la = get_left(ca);
    let lb = get_left(cb);
    let ok = if first { subtype(&la, &lb) } else { subtype(&lb, &la) };
    let rest = signature_subtype(&get_right(ca), &get_right(cb), false);
    ok && rest
}

/// Whether a function whose signature is `sig` (a typed function test, or
/// an inline function) is an instance of the typed function test `fn_type`:
/// its return type a subtype of the test's, each parameter type of the test
/// a subtype of its own parameter type, and the numbers of parameters equal.
pub fn match_function_signature(sig: &XNodePtr, fn_type: &XNodePtr) -> (r: bool)
    requires
        fn_tests_ok(sig@),
        fn_tests_ok(fn_type@),
    ensures
        r == chains_subtype(xt_right(sig@), xt_right(fn_type@), true),
{
    proof {
        lemma_fn_tests_ok_children(sig@);
        lemma_fn_tests_ok_children(fn_type@);
    }
    signature_subtype(&get_right(sig), &get_right(fn_type), true)
}

/// Whether the function that the reference `name` (`name#arity`) names
/// is an instance of the typed function test `fn_type`: false for a name
/// that the signature table lacks; otherwise its signature is read as a
/// function test and matched as `match_function_signature` does, and an
/// error in reading it is the result.
pub open spec fn spec_named_function_matches(name: Seq<char>, fn_type: XTree) -> Result<bool, XPathErrorKind> {
    let sig = signature_from(name, 0);
    if sig == Seq::<char>::empty() {
        Ok(false)
    } else {
        match spec_tokenize(sig) {
            Err(_) => Err(XPathErrorKind::SyntaxError),
            Ok(t) => match spec_function_test(t, 1) {
                Err(k) => Err(k),
                Ok((x, _)) => Ok(chains_subtype(xt_right(x), xt_right(fn_type), true)),
            },
        }
    }
}

/// Matches a named function reference against the typed function test
/// `fn_type` through the function's signature.
pub fn named_function_matches(func_name: &str, fn_type: &XNodePtr) -> (r: Result<bool, XPathError>)
    requires
        fn_tests_ok(fn_type@),
    ensures
        match spec_named_function_matches(func_name@, fn_type@) {
            Ok(b) => r matches Ok(x) && x == b,
            Err(k) => r matches Err(e) && e.kind == k,
        },
{
    let signature = get_function_signature(func_name);
    proof {
        reveal_strlit("");
        assert(""@ =~= Seq::<char>::empty());
    }
    if str_eq(signature.as_str(), "") {
        return Ok(false);
    }
    proof {
        lemma_signature_short(func_name@, 0);
    }
    let mut lex = Lexer::new(&signature)?;
    let sig_xnode = parse_function_test(&mut lex)?;
    Ok(match_function_signature(&sig_xnode, fn_type))
}

/// Whether item type `ai` is a subtype of item type `bi`.
pub fn subtype_itemtype(ai: &XNodePtr, bi: &XNodePtr) -> (r: bool)
    requires
        fn_tests_ok(ai@),
        fn_tests_ok(bi@),
    ensures
        r == spec_subtype_itemtype(ai@, bi@),
    decreases xt_depth(ai@) + xt_depth(bi@), 0int,
{
    proof {
        lemma_child_depth(ai@);
        lemma_child_depth(bi@);
        lemma_child_depth(xt_right(bi@));
        lemma_child_depth(xt_right(xt_right(bi@)));
        lemma_child_depth(xt_left(xt_right(xt_right(bi@))));
        lemma_fn_tests_ok_children(ai@);
        lemma_fn_tests_ok_children(bi@);
        lemma_fn_tests_ok_children(xt_right(bi@));
        lemma_fn_tests_ok_children(xt_right(xt_right(bi@)));
        lemma_fn_tests_ok_children(xt_left(xt_right(xt_right(bi@))));
    }
    let at = get_xnode_type(ai);
    let bt = get_xnode_type(bi);

    // Atomic types: derivation, and xs:error below every atomic type.
    if at == XNodeType::AtomicOrUnionType && bt == XNodeType::AtomicOrUnionType {
        let an = get_xnode_name(ai);
        let bn = get_xnode_name(bi);
        if derives_from(an.as_str(), bn.as_str()) {
            return true;
        }
        if str_eq(an.as_str(), "xs:error") {
            return true;
        }
    }

    // item() is above every item type.
    if bt == XNodeType::ItemTest {
        return true;
    }

    // Kind tests.
    if bt == XNodeType::KindTest {
        let bk = get_xnode_type(&get_left(bi));
        let ak = get_xnode_type(&get_left(ai));
        match bk {
            XNodeType::AnyKindTest => {
                if at == XNodeType::KindTest {
                    return true;
                }
            },
            XNodeType::TextTest | XNodeType::CommentTest | XNodeType::NamespaceNodeTest => {
                if at == XNodeType::KindTest && ak == bk {
                    return true;
                }
            },
            XNodeType::PITest => {
                let pi_name = get_xnode_name(bi);
                if str_eq(pi_name.as_str(), "") {
                    if at == XNodeType::KindTest && ak == XNodeType::PITest {
                        return true;
                    }
                } else {
                    if at == XNodeType::KindTest && ak == XNodeType::PITest
                        && str_eq(get_xnode_name(&get_left(ai)).as_str(), pi_name.as_str()) {
                        return true;
                    }
                }
            },
            _ => {},
        }
    }

    // function(*) is above every function test.
    if bt == XNodeType::AnyFunctionTest {
        if at == XNodeType::AnyFunctionTest || at == XNodeType::TypedFunctionTest {
            return true;
        }
    }

    // Typed function tests: same arity, covariant return, contravariant
    // parameters.
    if bt == XNodeType::TypedFunctionTest && at == XNodeType::TypedFunctionTest {
        if signature_subtype(&get_right(ai), &get_right(bi), true) {
            return true;
        }
    }

    // Map tests.
    if at == XNodeType::MapTest && bt == XNodeType::MapTest {
        let ai_key = get_left(ai);
        let ai_val = get_right(ai);
        let bi_key = get_left(bi);
        let bi_val = get_right(bi);
        if subtype_itemtype(&ai_key, &bi_key) && subtype(&ai_val, &bi_val) {
            return true;
        }
    }
    if at == XNodeType::MapTest && bt == XNodeType::AnyFunctionTest {
        return true;
    }
    if at == XNodeType::MapTest && bt == XNodeType::TypedFunctionTest {
        let ai_key = get_left(ai);
        let ai_val = get_right(ai);
        let ret_xnode = get_right(bi);
        let bi_val = get_left(&ret_xnode);
        let param_xnode = get_right(&ret_xnode);
        let seq_xnode = get_left(&param_xnode);
        let bi_key = get_left(&seq_xnode);
        if subtype_itemtype(&ai_key, &bi_key) && subtype(&ai_val, &bi_val) {
            return true;
        }
    }

    // Array tests.
    if at == XNodeType::ArrayTest && bt == XNodeType::ArrayTest {
        let ai_elem = get_left(ai);
        let bi_elem = get_left(bi);
        if subtype(&ai_elem, &bi_elem) {
            return true;
        }
    }
    if at == XNodeType::ArrayTest && bt == XNodeType::AnyFunctionTest {
        return true;
    }
    if at == XNodeType::ArrayTest && bt == XNodeType::TypedFunctionTest {
        let ai_elem = get_left(ai);
        let ret_xnode = get_right(bi);
        let bi_elem = get_left(&ret_xnode);
        let param_xnode = get_right(&ret_xnode);
        let seq_xnode = get_left(&param_xnode);
        let bi_arg = get_left(&seq_xnode);
        if derives_from("xs:integer", get_xnode_name(&bi_arg).as_str()) && subtype(&ai_elem, &bi_elem) {
            return true;
        }
    }

    false
}

} // verus!
