use amxml::error::XPathErrorKind;
use amxml::lexer::{Lexer, TType};

fn kinds(s: &str) -> Vec<(TType, String)> {
    let lex = Lexer::new(&String::from(s)).unwrap();
    let mut out = Vec::new();
    let mut lex = lex;
    loop {
        let t = lex.get_token();
        if t.get_type() == TType::EOF {
            break;
        }
        out.push((t.get_type(), t.get_name().to_string()));
    }
    out
}

fn tok(t: TType, s: &str) -> (TType, String) {
    (t, s.to_string())
}

fn lex_error_kind(s: &str) -> XPathErrorKind {
    match Lexer::new(&String::from(s)) {
        Ok(_) => panic!("lexing {:?} should fail", s),
        Err(e) => e.kind,
    }
}

#[test]
fn test_simple_path() {
    let k = kinds("/root/a");
    assert_eq!(k, vec![
        tok(TType::Slash, "/"),
        tok(TType::Name, "root"),
        tok(TType::Slash, "/"),
        tok(TType::Name, "a"),
    ]);
}

#[test]
fn test_comment() {
    assert_eq!(kinds("."), vec![tok(TType::Dot, ".")]);
    assert_eq!(kinds("(: aa (: あ :) aa :) . "), vec![tok(TType::Dot, ".")]);
    assert_eq!(kinds("(: aa (: : :) aa :). "), vec![tok(TType::Dot, ".")]);
}

#[test]
fn test_string_literal() {
    let k = kinds(r#"//chap[@id = "Spring"""]"#);
    assert_eq!(k, vec![
        tok(TType::SlashSlash, "//"),
        tok(TType::Name, "chap"),
        tok(TType::LeftBracket, "["),
        tok(TType::At, "@"),
        tok(TType::Name, "id"),
        tok(TType::GeneralEQ, "="),
        tok(TType::StringLiteral, "Spring\""),
        tok(TType::RightBracket, "]"),
    ]);
    let k = kinds(r#"//chap[@id = 'Summer''']"#);
    assert_eq!(k[6], tok(TType::StringLiteral, "Summer'"));
}

#[test]
fn test_numeric_literal() {
    assert_eq!(kinds("107"), vec![tok(TType::IntegerLiteral, "107")]);
    assert_eq!(kinds("107.03"), vec![tok(TType::DecimalLiteral, "107.03")]);
    assert_eq!(kinds("-107.03"), vec![tok(TType::Minus, "-"), tok(TType::DecimalLiteral, "107.03")]);
    assert_eq!(kinds(".5"), vec![tok(TType::DecimalLiteral, ".5")]);
    assert_eq!(kinds("-.5"), vec![tok(TType::Minus, "-"), tok(TType::DecimalLiteral, ".5")]);
    assert_eq!(kinds("1.07e2"), vec![tok(TType::DoubleLiteral, "1.07e2")]);
    assert_eq!(kinds("-1.07e2"), vec![tok(TType::Minus, "-"), tok(TType::DoubleLiteral, "1.07e2")]);
    assert_eq!(kinds("10.7e1"), vec![tok(TType::DoubleLiteral, "10.7e1")]);
    assert_eq!(kinds("10.7E1"), vec![tok(TType::DoubleLiteral, "10.7E1")]);
}

#[test]
fn test_exponent_with_sign() {
    assert_eq!(kinds("2e-3"), vec![tok(TType::DoubleLiteral, "2e-3")]);
    assert_eq!(kinds("2E+3"), vec![tok(TType::DoubleLiteral, "2E+3")]);
}

#[test]
fn test_lexer_errors() {
    assert_eq!(lex_error_kind("'abc"), XPathErrorKind::SyntaxError);
    assert_eq!(lex_error_kind("\"abc"), XPathErrorKind::SyntaxError);
    assert_eq!(lex_error_kind("(: never closed"), XPathErrorKind::SyntaxError);
    assert_eq!(lex_error_kind("1e"), XPathErrorKind::SyntaxError);
    assert_eq!(lex_error_kind("1ex"), XPathErrorKind::SyntaxError);
    assert_eq!(lex_error_kind("1e+"), XPathErrorKind::SyntaxError);
    assert_eq!(lex_error_kind("1E-x"), XPathErrorKind::SyntaxError);
    assert_eq!(lex_error_kind("1.5e-"), XPathErrorKind::SyntaxError);
}

#[test]
fn test_exponent_after_fraction() {
    assert_eq!(kinds("2.5E-3"), vec![tok(TType::DoubleLiteral, "2.5E-3")]);
}

#[test]
fn test_empty_expression() {
    assert_eq!(lex_error_kind(""), XPathErrorKind::SyntaxError);
    assert_eq!(lex_error_kind("   "), XPathErrorKind::SyntaxError);
    assert_eq!(lex_error_kind("(: only a comment :)"), XPathErrorKind::SyntaxError);
}

#[test]
fn test_operator_words() {
    // After an operand, these words are operators.
    let k = kinds("a div b");
    assert_eq!(k, vec![tok(TType::Name, "a"), tok(TType::Div, "div"), tok(TType::Name, "b")]);
    let k = kinds("1 mod 2 idiv 3");
    assert_eq!(k[1], tok(TType::Mod, "mod"));
    assert_eq!(k[3], tok(TType::IDiv, "idiv"));
    // At the start, or after an operator, they are names.
    let k = kinds("div div div");
    assert_eq!(k, vec![tok(TType::Name, "div"), tok(TType::Div, "div"), tok(TType::Name, "div")]);
    let k = kinds("1 to 3 and 2 or 4");
    assert_eq!(k[1], tok(TType::To, "to"));
    assert_eq!(k[3], tok(TType::And, "and"));
    assert_eq!(k[5], tok(TType::Or, "or"));
}

#[test]
fn test_pair_words() {
    let k = kinds("1 instance of xs:integer");
    assert_eq!(k[1].0, TType::InstanceOf);
    let k = kinds("1 cast as xs:string");
    assert_eq!(k[1].0, TType::CastAs);
    let k = kinds("1 castable as xs:string");
    assert_eq!(k[1].0, TType::CastableAs);
    let k = kinds("1 treat as xs:string");
    assert_eq!(k[1].0, TType::TreatAs);
}

#[test]
fn test_name_classification() {
    let k = kinds("child::a");
    assert_eq!(k, vec![tok(TType::AxisName, "child"), tok(TType::ColonColon, "::"), tok(TType::Name, "a")]);
    let k = kinds("element()");
    assert_eq!(k[0].0, TType::ElementTest);
    let k = kinds("node()");
    assert_eq!(k[0].0, TType::AnyKindTest);
    let k = kinds("map{}");
    assert_eq!(k[0].0, TType::MapKw);
    let k = kinds("map(*)");
    assert_eq!(k[0].0, TType::MapTest);
    let k = kinds("array{}");
    assert_eq!(k[0].0, TType::Array);
    let k = kinds("array(*)");
    assert_eq!(k[0].0, TType::ArrayTest);
    let k = kinds("function(*)");
    assert_eq!(k[0].0, TType::Function);
    let k = kinds("if (1) then 2 else 3");
    assert_eq!(k[0].0, TType::If);
    assert_eq!(k[4], tok(TType::Name, "then"));
    let k = kinds("for $x in 1 return $x");
    assert_eq!(k[0].0, TType::For);
    let k = kinds("some $x in 1 satisfies 1");
    assert_eq!(k[0].0, TType::SomeKw);
    let k = kinds("every $x in 1 satisfies 1");
    assert_eq!(k[0].0, TType::Every);
    let k = kinds("let $x := 1 return $x");
    assert_eq!(k[0].0, TType::Let);
    assert_eq!(k[3], tok(TType::Bind, ":="));
    // A plain name stays a name.
    let k = kinds("abc");
    assert_eq!(k, vec![tok(TType::Name, "abc")]);
}

#[test]
fn test_symbols() {
    let k = kinds("a || b");
    assert_eq!(k[1], tok(TType::OperatorConcat, "||"));
    let k = kinds("a ! b");
    assert_eq!(k[1], tok(TType::OperatorMap, "!"));
    let k = kinds("a => f()");
    assert_eq!(k[1], tok(TType::Arrow, "=>"));
    let k = kinds("a != b");
    assert_eq!(k[1], tok(TType::GeneralNE, "!="));
    let k = kinds("a << b");
    assert_eq!(k[1].0, TType::NodeBefore);
    let k = kinds("a >= b");
    assert_eq!(k[1].0, TType::GeneralGE);
    let k = kinds("..");
    assert_eq!(k, vec![tok(TType::DotDot, "..")]);
    let k = kinds("fn:abs#1");
    assert_eq!(k[3], tok(TType::Sharp, "#"));
    let k = kinds("p:*");
    assert_eq!(k[1].0, TType::ColonAsterisk);
    let k = kinds("*:p");
    assert_eq!(k[0].0, TType::AsteriskColon);
}

#[test]
fn test_braced_uri() {
    let k = kinds("Q{http://example.com/}a");
    assert_eq!(k, vec![
        tok(TType::BracedURILiteral, "Q{http://example.com/}"),
        tok(TType::Name, "a"),
    ]);
}

#[test]
fn test_token_dump() {
    let lex = Lexer::new(&String::from("1 + a")).unwrap();
    assert_eq!(
        lex.token_dump(),
        "[EOF] \n[IntegerLiteral] 1\n[Plus] +\n[Name] a\n[EOF] \n"
    );
}

#[test]
fn test_get_unget_mark_restore() {
    let mut lex = Lexer::new(&String::from("a b c")).unwrap();
    assert_eq!(lex.next_token().get_name(), "a");
    let t = lex.get_token();
    assert_eq!(t.get_name(), "a");
    assert_eq!(lex.next_token().get_name(), "b");
    lex.unget_token();
    assert_eq!(lex.next_token().get_name(), "a");
    lex.mark_token_index();
    lex.get_token();
    lex.get_token();
    assert_eq!(lex.next_token().get_name(), "c");
    lex.restore_marked_index();
    assert_eq!(lex.next_token().get_name(), "a");
    // The cursor never moves past the closing end marker.
    lex.get_token();
    lex.get_token();
    lex.get_token();
    assert_eq!(lex.next_token().get_type(), TType::EOF);
    lex.get_token();
    assert_eq!(lex.next_token().get_type(), TType::EOF);
}

#[test]
fn test_around_tokens() {
    let mut lex = Lexer::new(&String::from("a b c d e f g h")).unwrap();
    for _ in 0..5 {
        lex.get_token();
    }
    // The token just read is marked, three tokens on each side are shown.
    assert_eq!(lex.around_tokens(), " c  d ≪e≫ f  g  h ");
}
