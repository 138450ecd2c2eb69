use amxml::error::XPathErrorKind;
use amxml::parser::compile_xpath;
use amxml::subtype::subtype_itemtype;
use amxml::xnode::{get_left, get_right, get_xnode_name, get_xnode_type, XNodeType};

fn dump(s: &str) -> String {
    match compile_xpath(&String::from(s)) {
        Ok(x) => x.to_string(),
        Err(e) => panic!("compiling {:?} failed: {}", s, e.to_string()),
    }
}

fn error_kind(s: &str) -> XPathErrorKind {
    match compile_xpath(&String::from(s)) {
        Ok(x) => panic!("compiling {:?} should fail, gave\n{}", s, x.to_string()),
        Err(e) => e.kind,
    }
}

#[test]
fn test_parse() {
    let xpath = r#" (1) instance of (xs:integer) "#;
    assert_eq!(
        dump(xpath),
        lines_of(&[
            "T [OperatorInstanceOf] \n",
            "    L [ParenthesizedExpr] \n",
            "        L [IntegerLiteral] 1\n",
            "    R [SequenceType] \n",
            "        L [ParenthesizedItemType] \n",
            "            L [AtomicOrUnionType] xs:integer\n",
        ])
    );
}

fn lines_of(lines: &[&str]) -> String {
    lines.concat()
}

#[test]
fn test_precedence_and_associativity() {
    assert_eq!(
        dump("1 + 2 * 3"),
        lines_of(&[
            "T [OperatorAdd] +\n",
            "    L [IntegerLiteral] 1\n",
            "    R [OperatorMultiply] *\n",
            "        L [IntegerLiteral] 2\n",
            "        R [IntegerLiteral] 3\n",
        ])
    );
    assert_eq!(
        dump("1 - 2 - 3"),
        lines_of(&[
            "T [OperatorSubtract] -\n",
            "    L [OperatorSubtract] -\n",
            "        L [IntegerLiteral] 1\n",
            "        R [IntegerLiteral] 2\n",
            "    R [IntegerLiteral] 3\n",
        ])
    );
    assert_eq!(
        dump("2, 3"),
        lines_of(&[
            "T [OperatorConcatenate] ,\n",
            "    L [IntegerLiteral] 2\n",
            "    R [IntegerLiteral] 3\n",
        ])
    );
}

#[test]
fn test_comparison_does_not_chain() {
    assert_eq!(error_kind("1 = 2 = 3"), XPathErrorKind::SyntaxError);
    assert_eq!(error_kind("1 to 2 to 3"), XPathErrorKind::SyntaxError);
}

#[test]
fn test_paths() {
    assert_eq!(
        dump("/root/a"),
        lines_of(&[
            "T [OperatorPath] parse_path_expr Slash\n",
            "    L [AxisRoot] node()\n",
            "    R [OperatorPath] parse_relative_path_expr TOP\n",
            "        L [AxisChild] root\n",
            "        R [OperatorPath] parse_relative_path_expr Slash\n",
            "            L [AxisChild] a\n",
        ])
    );
    assert_eq!(
        dump("//a"),
        lines_of(&[
            "T [OperatorPath] parse_path_expr SlashSlash 1\n",
            "    L [AxisRoot] /\n",
            "    R [OperatorPath] parse_path_expr SlashSlash 2\n",
            "        L [AxisDescendantOrSelf] node()\n",
            "        R [AxisChild] a\n",
        ])
    );
    assert_eq!(dump("a"), "T [AxisChild] a\n");
    assert_eq!(dump(".."), "T [AxisParent] node()\n");
    assert_eq!(dump("@id"), "T [AxisAttribute] id\n");
    assert_eq!(dump("/"), "T [OperatorPath] parse_path_expr Slash\n    L [AxisRoot] node()\n");
}

#[test]
fn test_axes_and_predicates() {
    assert_eq!(
        dump("child::a[1]"),
        lines_of(&[
            "T [AxisChild] a\n",
            "    R [PredicateTop] Predicate\n",
            "        L [IntegerLiteral] 1\n",
        ])
    );
    assert_eq!(
        dump("ancestor::a[1][2]"),
        lines_of(&[
            "T [AxisAncestor] a\n",
            "    R [PredicateRevTop] Predicate\n",
            "        L [IntegerLiteral] 1\n",
            "        R [PredicateRevTop] Predicate\n",
            "            L [IntegerLiteral] 2\n",
        ])
    );
    assert_eq!(
        dump("child::element()"),
        lines_of(&[
            "T [AxisChild] \n",
            "    L [KindTest] \n",
            "        L [ElementTest] *\n",
            "            L [KindTestTypeName] xs:anyType?\n",
        ])
    );
    assert_eq!(dump("self::*"), "T [AxisSelf] *\n");
}

#[test]
fn test_context_item() {
    assert_eq!(dump("."), "T [ContextItem] .\n");
    assert_eq!(error_kind(".::a"), XPathErrorKind::SyntaxError);
    assert_eq!(
        dump(".[@base]"),
        lines_of(&[
            "T [ApplyPredicate] \n",
            "    L [ContextItem] .\n",
            "    R [PredicateTop] \n",
            "        L [AxisAttribute] base\n",
        ])
    );
}

#[test]
fn test_for_expr() {
    assert_eq!(
        dump("for $x in 3 to 5 return $x * 2"),
        lines_of(&[
            "T [ForExpr] for\n",
            "    R [ForVarBind] x\n",
            "        L [OperatorTo] to\n",
            "            L [IntegerLiteral] 3\n",
            "            R [IntegerLiteral] 5\n",
            "        R [OperatorMultiply] *\n",
            "            L [VarRef] x\n",
            "            R [IntegerLiteral] 2\n",
        ])
    );
}

#[test]
fn test_let_and_quantified_expr() {
    assert_eq!(
        dump("let $x := 4, $y := 3 return $x + $y"),
        lines_of(&[
            "T [LetExpr] let\n",
            "    R [LetVarBind] x\n",
            "        L [IntegerLiteral] 4\n",
            "        R [LetVarBind] y\n",
            "            L [IntegerLiteral] 3\n",
            "            R [OperatorAdd] +\n",
            "                L [VarRef] x\n",
            "                R [VarRef] y\n",
        ])
    );
    assert_eq!(
        dump("some $x in 1 satisfies $x"),
        lines_of(&[
            "T [SomeExpr] some\n",
            "    R [SomeVarBind] x\n",
            "        L [IntegerLiteral] 1\n",
            "        R [VarRef] x\n",
        ])
    );
    assert_eq!(
        dump("every $x in 1 satisfies $x"),
        lines_of(&[
            "T [EveryExpr] every\n",
            "    R [EveryVarBind] x\n",
            "        L [IntegerLiteral] 1\n",
            "        R [VarRef] x\n",
        ])
    );
    assert_eq!(error_kind("let $x = 1 return $x"), XPathErrorKind::SyntaxError);
}

#[test]
fn test_if_expr() {
    assert_eq!(
        dump("if (1 = 1) then 3 else 5"),
        lines_of(&[
            "T [IfExpr] if_expr\n",
            "    L [OperatorGeneralEQ] =\n",
            "        L [IntegerLiteral] 1\n",
            "        R [IntegerLiteral] 1\n",
            "    R [IfThenElse] if_then_else\n",
            "        L [IntegerLiteral] 3\n",
            "        R [IntegerLiteral] 5\n",
        ])
    );
    assert_eq!(error_kind("if (1) then 2"), XPathErrorKind::SyntaxError);
    assert_eq!(error_kind("if () then 2 else 3"), XPathErrorKind::SyntaxError);
}

#[test]
fn test_function_calls() {
    assert_eq!(
        dump("concat('a', 'b')"),
        lines_of(&[
            "T [FunctionCall] fn:concat\n",
            "    R [ArgumentTop] \n",
            "        L [StringLiteral] a\n",
            "        R [ArgumentTop] \n",
            "            L [StringLiteral] b\n",
        ])
    );
    assert_eq!(dump("fn:count(())"), lines_of(&[
        "T [FunctionCall] fn:count\n",
        "    R [ArgumentTop] \n",
        "        L [ParenthesizedExpr] \n",
    ]));
    assert_eq!(dump("true()"), "T [FunctionCall] fn:true\n");
    assert_eq!(error_kind("unknown(1)"), XPathErrorKind::SyntaxError);
    assert_eq!(error_kind("fn:abs(1, 2)"), XPathErrorKind::SyntaxError);
}

#[test]
fn test_partial_function_call() {
    assert_eq!(
        dump("fn:starts-with(?, 'a')"),
        lines_of(&[
            "T [PartialFunctionCall] fn:starts-with\n",
            "    R [ArgumentPlaceholder] ?\n",
            "        R [ArgumentTop] \n",
            "            L [StringLiteral] a\n",
        ])
    );
}

#[test]
fn test_named_function_ref() {
    assert_eq!(dump("fn:abs#1"), "T [NamedFunctionRef] fn:abs#1\n");
    assert_eq!(dump("abs#1"), "T [NamedFunctionRef] fn:abs#1\n");
}

#[test]
fn test_inline_function() {
    assert_eq!(
        dump("function($a) { $a * $a }"),
        lines_of(&[
            "T [InlineFunction] (inline function)\n",
            "    L [OperatorMultiply] *\n",
            "        L [VarRef] a\n",
            "        R [VarRef] a\n",
            "    R [ReturnType] \n",
            "        L [SequenceType] *\n",
            "            L [ItemTest] \n",
            "        R [Param] a\n",
            "            L [SequenceType] *\n",
            "                L [ItemTest] \n",
        ])
    );
    assert_eq!(
        dump("function($n as xs:integer) as xs:integer { $n }"),
        lines_of(&[
            "T [InlineFunction] (inline function)\n",
            "    L [VarRef] n\n",
            "    R [ReturnType] \n",
            "        L [SequenceType] \n",
            "            L [AtomicOrUnionType] xs:integer\n",
            "        R [Param] n\n",
            "            L [SequenceType] \n",
            "                L [AtomicOrUnionType] xs:integer\n",
        ])
    );
}

#[test]
fn test_arrow_expr() {
    assert_eq!(
        dump("'a' => upper-case()"),
        lines_of(&[
            "T [FunctionCall] fn:upper-case\n",
            "    R [ArgumentTop] \n",
            "        L [StringLiteral] a\n",
        ])
    );
    assert_eq!(
        dump("5 => $f()"),
        lines_of(&[
            "T [ApplyArgument] \n",
            "    L [VarRef] f\n",
            "    R [ArgumentListTop] \n",
            "        L [ArgumentTop] \n",
            "            L [IntegerLiteral] 5\n",
        ])
    );
    assert_eq!(error_kind("5 => 6"), XPathErrorKind::SyntaxError);
}

#[test]
fn test_map_and_array_constructors() {
    assert_eq!(
        dump("map{'a': 1}"),
        lines_of(&[
            "T [Map] \n",
            "    L [MapConstruct] \n",
            "        L [MapEntry] \n",
            "            L [StringLiteral] a\n",
            "            R [IntegerLiteral] 1\n",
        ])
    );
    assert_eq!(dump("map{}"), "T [Map] \n");
    assert_eq!(
        dump("[1, 2]?2"),
        lines_of(&[
            "T [OperatorMap] \n",
            "    L [SquareArray] \n",
            "        L [ArrayEntry] \n",
            "            L [IntegerLiteral] 1\n",
            "            R [ArrayEntry] \n",
            "                L [IntegerLiteral] 2\n",
            "    R [UnaryLookupByExpr] \n",
            "        L [IntegerLiteral] 2\n",
        ])
    );
    assert_eq!(
        dump("array{1}"),
        lines_of(&[
            "T [CurlyArray] \n",
            "    L [IntegerLiteral] 1\n",
        ])
    );
    assert_eq!(dump("?*"), "T [UnaryLookupByWildcard] *\n");
    assert_eq!(error_kind("map{'a': }"), XPathErrorKind::SyntaxError);
}

#[test]
fn test_cast_and_treat() {
    assert_eq!(
        dump("1 cast as xs:string?"),
        lines_of(&[
            "T [OperatorCastAs] \n",
            "    L [IntegerLiteral] 1\n",
            "    R [SingleType] \n",
            "        L [TypeName] xs:string?\n",
        ])
    );
    assert_eq!(
        dump("1 treat as item()+"),
        lines_of(&[
            "T [OperatorTreatAs] \n",
            "    L [IntegerLiteral] 1\n",
            "    R [SequenceType] +\n",
            "        L [ItemTest] \n",
        ])
    );
    assert_eq!(error_kind("1 cast as"), XPathErrorKind::SyntaxError);
}

#[test]
fn test_keyword_names() {
    assert_eq!(error_kind("some $x in (1, 2) foo $x = 1"), XPathErrorKind::SyntaxError);
    assert!(compile_xpath(&String::from("some $x in (1, 2) satisfies $x = 1")).is_ok());
    assert_eq!(error_kind("for $x in 1 foo $x"), XPathErrorKind::SyntaxError);
    assert_eq!(error_kind("for $x foo 1 return $x"), XPathErrorKind::SyntaxError);
    assert_eq!(error_kind("if (1) foo 2 else 3"), XPathErrorKind::SyntaxError);
    assert_eq!(error_kind("if (1) then 2 foo 3"), XPathErrorKind::SyntaxError);
}

#[test]
fn test_syntax_errors() {
    assert_eq!(error_kind("(1"), XPathErrorKind::SyntaxError);
    assert_eq!(error_kind("1 2"), XPathErrorKind::SyntaxError);
    assert_eq!(error_kind("'abc"), XPathErrorKind::SyntaxError);
    assert_eq!(error_kind("$"), XPathErrorKind::SyntaxError);
    assert_eq!(error_kind("namespace::a"), XPathErrorKind::Unimplemented);
    match compile_xpath(&String::from("1 2")) {
        Ok(_) => panic!("should fail"),
        Err(e) => assert!(e.to_string().starts_with("Syntax Error in XPath: ")),
    }
}

#[test]
fn test_parsed_types_feed_subtype() {
    // A type read by the parser can be handed to the subtype check.
    let x = compile_xpath(&String::from("1 instance of function(xs:integer) as xs:string")).unwrap();
    assert_eq!(get_xnode_type(&x), XNodeType::OperatorInstanceOf);
    let seq_type = get_right(&x);
    let fn_test = get_left(&seq_type);
    assert_eq!(get_xnode_type(&fn_test), XNodeType::TypedFunctionTest);
    assert!(subtype_itemtype(&fn_test, &fn_test));
    let x = compile_xpath(&String::from("1 instance of map(*)")).unwrap();
    let map_test = get_left(&get_right(&x));
    assert_eq!(get_xnode_type(&map_test), XNodeType::MapTest);
    assert_eq!(get_xnode_name(&get_left(&map_test)), "xs:anyAtomicType");
    assert!(subtype_itemtype(&map_test, &fn_test) == false);
}
