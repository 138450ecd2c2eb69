use amxml::func::{check_function_spec, get_function_signature};
use amxml::lexer::Lexer;
use amxml::parser::{compile_xpath, parse_function_test};
use amxml::subtype::{
    derives_from, match_function_signature, named_function_matches, subtype, subtype_entry, subtype_itemtype,
};
use amxml::xnode::{get_left, get_right, XNodePtr, XNodeType, get_xnode_type};

fn function_test(s: &str) -> XNodePtr {
    let mut lex = Lexer::new(&String::from(s)).unwrap();
    parse_function_test(&mut lex).unwrap()
}

/// Whether the signature `a` may stand where `b` is expected.
fn fn_subtype(a: &str, b: &str) -> bool {
    subtype_itemtype(&function_test(a), &function_test(b))
}

/// The sequence type of `1 instance of T`.
fn sequence_type(t: &str) -> XNodePtr {
    let x = compile_xpath(&format!("1 instance of {}", t)).unwrap();
    get_right(&x)
}

#[test]
fn test_subtype_itemtype_map() {
    let cases = [
        ("function() as map(*)", "function() as map(*)", true),
        ("function() as map(string, string)", "function() as map(*)", true),
        ("function() as map(string, integer)", "function() as map(anyAtomicType, decimal)", true),
        ("function() as map(anyAtomicType, decimal)", "function() as map(string, integer)", false),
        ("function() as map(*)", "function() as function(*)", true),
        ("function() as map(string, integer)", "function() as function(*)", true),
        ("function() as map(*)", "function() as function(xs:anyAtomicType) as item()*", true),
        ("function() as map(string, string)", "function() as function(xs:anyAtomicType) as item()*", true),
        ("function() as map(string, string)", "function() as function(string) as string", true),
        ("function() as map(integer, string)", "function() as function(xs:anyAtomicType) as string?", true),
    ];
    for (a, b, expected) in cases.iter() {
        assert_eq!(fn_subtype(a, b), *expected, "{} <: {}", a, b);
    }
}

#[test]
fn test_subtype_itemtype_array() {
    let cases = [
        ("function() as array(integer)", "function() as array(*)", true),
        ("function() as array(integer)", "function() as array(decimal)", true),
        ("function() as array(*)", "function() as function(*)", true),
        ("function() as array(*)", "function() as function(integer) as item()*", true),
        ("function() as array(string)", "function() as function(integer) as string", true),
    ];
    for (a, b, expected) in cases.iter() {
        assert_eq!(fn_subtype(a, b), *expected, "{} <: {}", a, b);
    }
}

#[test]
fn test_function_signatures() {
    // Return types are compared one way, parameter types the other.
    assert!(fn_subtype("function(numeric?) as integer", "function(integer) as numeric?"));
    assert!(!fn_subtype("function(integer) as numeric?", "function(numeric?) as integer"));
    // The numbers of parameters must agree.
    assert!(!fn_subtype("function(integer) as integer", "function() as integer"));
    assert!(!fn_subtype("function() as integer", "function(integer) as integer"));
    // Every function test is a subtype of function(*).
    assert!(fn_subtype("function(integer) as integer", "function(*)"));
    assert!(fn_subtype("function(*)", "function(*)"));
    assert!(!fn_subtype("function(*)", "function(integer) as integer"));
}

#[test]
fn test_parse_function_test() {
    let x = function_test("function(*)");
    assert_eq!(get_xnode_type(&x), XNodeType::AnyFunctionTest);
    let x = function_test("function(xs:string, item()*) as xs:boolean");
    assert_eq!(
        x.to_string(),
        [
            "T [TypedFunctionTest] \n",
            "    R [ReturnType] \n",
            "        L [SequenceType] \n",
            "            L [AtomicOrUnionType] xs:boolean\n",
            "        R [Param] \n",
            "            L [SequenceType] \n",
            "                L [AtomicOrUnionType] xs:string\n",
            "            R [Param] \n",
            "                L [SequenceType] *\n",
            "                    L [ItemTest] \n",
        ]
        .concat()
    );
    // Not a function test: nothing is read.
    let mut lex = Lexer::new(&String::from("map(*)")).unwrap();
    let x = parse_function_test(&mut lex).unwrap();
    assert_eq!(get_xnode_type(&x), XNodeType::Nil);
    // A function test needs its return type.
    let mut lex = Lexer::new(&String::from("function(xs:string)")).unwrap();
    assert!(parse_function_test(&mut lex).is_err());
}

#[test]
fn test_signature_table_parses() {
    // Each signature that the table gives reads as a typed function test.
    for name in ["fn:abs#1", "fn:concat#2", "fn:for-each#2", "map:size#1", "array:size#1"].iter() {
        let sig = get_function_signature(name);
        assert!(!sig.is_empty(), "{}", name);
        let x = function_test(&sig);
        assert_eq!(get_xnode_type(&x), XNodeType::TypedFunctionTest, "{}", name);
    }
    assert_eq!(get_function_signature("fn:abs#1"), "function(numeric?) as numeric?");
    assert_eq!(get_function_signature("fn:nope#1"), "");
}

#[test]
fn test_check_function_spec() {
    assert!(check_function_spec("fn:abs", 1));
    assert!(!check_function_spec("fn:abs", 2));
    assert!(check_function_spec("fn:string", 0));
    assert!(check_function_spec("fn:string", 1));
    assert!(check_function_spec("fn:concat", 7));
    assert!(!check_function_spec("fn:nope", 1));
}

#[test]
fn test_derives_from() {
    assert!(derives_from("xs:integer", "xs:integer"));
    assert!(derives_from("xs:integer", "xs:decimal"));
    assert!(derives_from("xs:integer", "xs:numeric"));
    assert!(derives_from("xs:integer", "xs:anyAtomicType"));
    assert!(derives_from("xs:anyURI", "xs:string"));
    assert!(!derives_from("xs:decimal", "xs:integer"));
    assert!(!derives_from("xs:string", "xs:numeric"));
    assert!(derives_from("xs:untyped", "xs:anyType"));
    assert!(derives_from("my:type", "my:type"));
    assert!(!derives_from("my:type", "xs:anyType"));
}

#[test]
fn test_subtype_occurrences() {
    assert_eq!(subtype_entry(&sequence_type("empty-sequence()")), 0);
    assert_eq!(subtype_entry(&sequence_type("xs:integer?")), 1);
    assert_eq!(subtype_entry(&sequence_type("xs:integer*")), 2);
    assert_eq!(subtype_entry(&sequence_type("xs:integer")), 3);
    assert_eq!(subtype_entry(&sequence_type("xs:integer+")), 4);
    assert_eq!(subtype_entry(&sequence_type("xs:error")), 5);
    assert_eq!(subtype_entry(&sequence_type("xs:error?")), 0);

    assert!(subtype(&sequence_type("xs:integer"), &sequence_type("xs:decimal*")));
    assert!(subtype(&sequence_type("xs:integer+"), &sequence_type("xs:decimal*")));
    assert!(!subtype(&sequence_type("xs:integer*"), &sequence_type("xs:decimal+")));
    assert!(!subtype(&sequence_type("xs:decimal"), &sequence_type("xs:integer")));
    assert!(subtype(&sequence_type("empty-sequence()"), &sequence_type("xs:integer?")));
    assert!(!subtype(&sequence_type("empty-sequence()"), &sequence_type("xs:integer")));
    assert!(subtype(&sequence_type("node()"), &sequence_type("item()")));
    assert!(subtype(&sequence_type("text()"), &sequence_type("node()")));
    assert!(!subtype(&sequence_type("text()"), &sequence_type("comment()")));
    assert!(subtype(&sequence_type("array(xs:integer)"), &sequence_type("array(xs:decimal)")));
    assert!(!subtype(&sequence_type("array(xs:decimal)"), &sequence_type("array(xs:integer)")));
    assert!(subtype(&sequence_type("(xs:integer)"), &sequence_type("xs:integer")) == false);
    let p = get_left(&sequence_type("(xs:integer)"));
    assert_eq!(get_xnode_type(&p), XNodeType::ParenthesizedItemType);
}

/// The signature of a function item: the tree of an inline function, or the
/// function test that the table gives for a named function.
fn function_item_signature(expr: &str) -> XNodePtr {
    let x = compile_xpath(&String::from(expr)).unwrap();
    match get_xnode_type(&x) {
        XNodeType::InlineFunction => x,
        XNodeType::NamedFunctionRef => {
            let sig = get_function_signature(&amxml::xnode::get_xnode_name(&x));
            function_test(&sig)
        },
        t => panic!("not a function item: {:?}", t),
    }
}

#[test]
fn test_function_item_signatures() {
    let cases = [
        ("function($n as xs:integer) as xs:integer { $n * 3 }", "function(xs:integer) as xs:integer", true),
        ("function($n as xs:integer) as xs:integer { $n * 3 }", "function(xs:integer) as xs:anyAtomicType", true),
        ("function($n as xs:numeric) as xs:numeric { $n * 3 }", "function(xs:anyAtomicType) as xs:integer", false),
        ("function($n as xs:numeric) as xs:numeric { $n * 3 }", "function(xs:integer, xs:integer) as xs:integer", false),
        ("function($n as xs:numeric) as xs:numeric { $n * 3 }", "function() as xs:integer", false),
        ("fn:abs#1", "function(numeric) as numeric?", true),
        ("fn:abs#1", "function(integer) as numeric?", true),
        ("fn:abs#1", "function(numeric) as integer?", false),
        ("fn:filter#2", "function(item()*, function(item()) as boolean) as item()*", true),
        ("fn:filter#2", "function(integer*, function(item()) as boolean) as item()*", true),
        ("fn:filter#2", "function(item()*, function(integer) as integer) as item()*", false),
        ("map:size#1", "function(map(*)) as integer", true),
        ("map:size#1", "function(map(string, integer)) as integer", true),
        ("array:size#1", "function(array(*)) as integer", true),
    ];
    for (item, test, expected) in cases.iter() {
        let sig = function_item_signature(item);
        let fn_type = function_test(test);
        assert_eq!(match_function_signature(&sig, &fn_type), *expected, "{} instance of {}", item, test);
    }
}

#[test]
fn test_named_function_matches() {
    let cases = [
        ("fn:abs#1", "function(numeric) as numeric?", true),
        ("fn:abs#1", "function(numeric) as integer?", false),
        ("fn:abs#1", "function(numeric, numeric) as numeric?", false),
        ("fn:filter#2", "function(integer*, function(item()) as boolean) as item()*", true),
        ("map:size#1", "function(map(string, integer)) as integer", true),
        ("fn:no-such-function#1", "function(item()) as item()", false),
    ];
    for (name, test, expected) in cases.iter() {
        let fn_type = function_test(test);
        assert_eq!(named_function_matches(name, &fn_type).unwrap(), *expected, "{} instance of {}", name, test);
    }
}
