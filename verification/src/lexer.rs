//! The XPath lexer: it splits an expression into tokens and then classifies
//! names that the grammar reads as operators, keywords, tests or axes.

use vstd::prelude::*;
use crate::error::{XPathError, XPathErrorKind, new_error};
use crate::text::{push_char, str_eq};

verus! {

/// The character that stands for the end of the input.
pub const EOF: char = '\u{0000}';

/// The kind of a token.
#[derive(PartialEq, Eq, Structural, Clone, Copy, Debug, Hash)]
pub enum TType {
    EOF,
    InnerName,
    Nop,
    Name,
    AxisName,
    SlashSlash,
    Slash,
    DotDot,
    Dot,
    ColonColon,
    Colon,
    ValueEQ,
    ValueNE,
    ValueGT,
    ValueGE,
    ValueLT,
    ValueLE,
    GeneralEQ,
    GeneralNE,
    GeneralGT,
    GeneralGE,
    GeneralLT,
    GeneralLE,
    IsSameNode,
    NodeBefore,
    NodeAfter,
    And,
    Or,
    Union,
    Intersect,
    Except,
    To,
    InstanceOf,
    TreatAs,
    CastableAs,
    CastAs,
    Plus,
    Minus,
    Div,
    IDiv,
    Mod,
    If,
    For,
    SomeKw,
    Every,
    Asterisk,
    Dollar,
    LeftBracket,
    RightBracket,
    LeftParen,
    RightParen,
    At,
    Question,
    Comma,
    IntegerLiteral,
    DecimalLiteral,
    DoubleLiteral,
    StringLiteral,
    EmptySequence,
    Item,
    TypeSwitch,
    Switch,
    DocumentTest,
    ElementTest,
    AttributeTest,
    SchemaElementTest,
    SchemaAttributeTest,
    PITest,
    CommentTest,
    TextTest,
    NamespaceNodeTest,
    AnyKindTest,
    BracedURILiteral,
    OperatorConcat,
    Sharp,
    Bind,
    Arrow,
    LeftCurly,
    RightCurly,
    ColonAsterisk,
    AsteriskColon,
    OperatorMap,
    Let,
    Array,
    MapKw,
    Function,
    MapTest,
    ArrayTest,
}

/// A token as the specifications see it: its kind and its text.
pub type TokenV = (TType, Seq<char>);

// =====================================================================
// Characters.

/// The character at position `i`, or `EOF` outside the input.
pub open spec fn char_at(s: Seq<char>, i: int) -> char {
    if 0 <= i < s.len() { s[i] } else { EOF }
}

pub open spec fn spec_is_space(c: char) -> bool {
    c == ' ' || c == '\t' || c == '\r' || c == '\n'
}

pub open spec fn spec_is_digit(c: char) -> bool {
    0x30 <= (c as u32) <= 0x39
}

pub open spec fn spec_is_name_start_char(c: char) -> bool {
    let w = c as u32;
    ||| 0x0041 <= w <= 0x005A
    ||| 0x005F <= w <= 0x005F
    ||| 0x0061 <= w <= 0x007A
    ||| 0x00C0 <= w <= 0x00D6
    ||| 0x00D8 <= w <= 0x00F6
    ||| 0x00F8 <= w <= 0x00FF
    ||| 0x0100 <= w <= 0x02FF
    ||| 0x0370 <= w <= 0x037D
    ||| 0x037F <= w <= 0x1FFF
    ||| 0x200C <= w <= 0x200D
    ||| 0x2070 <= w <= 0x218F
    ||| 0x2C00 <= w <= 0x2FEF
    ||| 0x3001 <= w <= 0xD7FF
    ||| 0xF900 <= w <= 0xFDCF
    ||| 0xFDF0 <= w <= 0xFFFD
    ||| 0x00010000 <= w <= 0x000EFFFF
}

pub open spec fn spec_is_name_char(c: char) -> bool {
    let w = c as u32;
    ||| spec_is_name_start_char(c)
    ||| 0x002D <= w <= 0x002E
    ||| 0x0030 <= w <= 0x0039
    ||| 0x00B7 <= w <= 0x00B7
    ||| 0x0300 <= w <= 0x036F
    ||| 0x203F <= w <= 0x2040
}

/// Whether some range of `r` holds the code point of `c`.
pub open spec fn in_ranges(c: char, r: Seq<(u32, u32)>) -> bool {
    exists|k: int| 0 <= k < r.len() && #[trigger] r[k].0 <= (c as u32) && (c as u32) <= r[k].1
}

// =====================================================================
// Scanning, position by position.

/// Where the run of spaces at `i` ends; an end of input there is consumed too.
pub open spec fn spaces_end(s: Seq<char>, i: int) -> int
    decreases s.len() - i,
{
    let c = char_at(s, i);
    if c == EOF {
        i + 1
    } else if spec_is_space(c) {
        spaces_end(s, i + 1)
    } else {
        i
    }
}

/// Where the run of digits at `i` ends.
pub open spec fn digits_end(s: Seq<char>, i: int) -> int
    decreases s.len() - i,
{
    if spec_is_digit(char_at(s, i)) {
        digits_end(s, i + 1)
    } else {
        i
    }
}

/// Where the run of name characters at `i` ends.
pub open spec fn name_chars_end(s: Seq<char>, i: int) -> int
    decreases s.len() - i,
{
    if spec_is_name_char(char_at(s, i)) {
        name_chars_end(s, i + 1)
    } else {
        i
    }
}

/// Whether the input holds `kw` at position `i`.
pub open spec fn keyword_at(s: Seq<char>, i: int, kw: Seq<char>) -> bool {
    forall|k: int| 0 <= k < kw.len() ==> #[trigger] char_at(s, i + k) == kw[k]
}

/// A string literal whose opening `delim` lies before `i`: the text read so
/// far is `acc`; a doubled `delim` stands for one. The result is the text and
/// the position after the closing `delim`, or `None` at an end of input.
pub open spec fn string_literal_from(s: Seq<char>, i: int, delim: char, acc: Seq<char>)
    -> Option<(Seq<char>, int)>
    decreases s.len() - i,
{
    let c = char_at(s, i);
    if c == EOF {
        None
    } else if c == delim {
        if char_at(s, i + 1) == delim {
            string_literal_from(s, i + 2, delim, acc.push(delim))
        } else {
            Some((acc, i + 1))
        }
    } else {
        string_literal_from(s, i + 1, delim, acc.push(c))
    }
}

/// The position after the first `delim` at or after `i`, or `None` when an
/// end of input comes first.
pub open spec fn until_end(s: Seq<char>, i: int, delim: char) -> Option<int>
    decreases s.len() - i,
{
    let c = char_at(s, i);
    if c == EOF {
        None
    } else if c == delim {
        Some(i + 1)
    } else {
        until_end(s, i + 1, delim)
    }
}

/// The end of a comment whose nesting depth at `i` is `level`: comments
/// `(: ... :)` nest.
pub open spec fn comment_end(s: Seq<char>, i: int, level: nat) -> Option<int>
    decreases s.len() - i,
{
    if level == 0 {
        Some(i)
    } else {
        let c = char_at(s, i);
        if c == EOF {
            None
        } else if c == '(' && char_at(s, i + 1) == ':' {
            comment_end(s, i + 2, level + 1)
        } else if c == ':' && char_at(s, i + 1) == ')' {
            comment_end(s, i + 2, (level - 1) as nat)
        } else {
            comment_end(s, i + 1, level)
        }
    }
}

/// The end of an exponent `[eE] [+-]? [0-9]+` at `q`; an exponent mark
/// without a digit after it (or after its sign) is an error.
pub open spec fn exponent_end(s: Seq<char>, q: int) -> Option<int> {
    let c = char_at(s, q);
    if c == 'e' || c == 'E' {
        let c2 = char_at(s, q + 1);
        if c2 == '+' || c2 == '-' {
            if spec_is_digit(char_at(s, q + 2)) {
                Some(digits_end(s, q + 2))
            } else {
                None
            }
        } else if spec_is_digit(c2) {
            Some(digits_end(s, q + 1))
        } else {
            None
        }
    } else {
        Some(q)
    }
}

/// The end of `"." [0-9]*` and an optional exponent, at a period `q`.
pub open spec fn fraction_end(s: Seq<char>, q: int) -> Option<int> {
    exponent_end(s, digits_end(s, q + 1))
}

/// The end of a numeric literal at `p`: digits, then a fraction when a
/// period follows, then an exponent; or a fraction alone at a period.
pub open spec fn numeric_end(s: Seq<char>, p: int) -> Option<int> {
    if spec_is_digit(char_at(s, p)) {
        let q = digits_end(s, p + 1);
        if char_at(s, q) == '.' {
            match fraction_end(s, q) {
                Some(r) => exponent_end(s, r),
                None => None,
            }
        } else {
            exponent_end(s, q)
        }
    } else if char_at(s, p) == '.' {
        fraction_end(s, p)
    } else {
        Some(p)
    }
}

/// The kind of a numeric literal: double with an exponent mark, decimal with
/// a period, integer otherwise.
pub open spec fn numeric_type(lit: Seq<char>) -> TType {
    if lit.contains('e') || lit.contains('E') {
        TType::DoubleLiteral
    } else if lit.contains('.') {
        TType::DecimalLiteral
    } else {
        TType::IntegerLiteral
    }
}

/// The symbols of the language, in the order in which they are tried.
pub open spec fn keyword_table() -> Seq<(Seq<char>, TType)> {
    seq![
        ("//"@, TType::SlashSlash),
        ("/"@, TType::Slash),
        ("::"@, TType::ColonColon),
        (":="@, TType::Bind),
        (":*"@, TType::ColonAsterisk),
        (":"@, TType::Colon),
        ("=>"@, TType::Arrow),
        ("="@, TType::GeneralEQ),
        ("!="@, TType::GeneralNE),
        ("!"@, TType::OperatorMap),
        ("||"@, TType::OperatorConcat),
        ("|"@, TType::Union),
        ("<="@, TType::GeneralLE),
        ("<<"@, TType::NodeBefore),
        ("<"@, TType::GeneralLT),
        (">="@, TType::GeneralGE),
        (">>"@, TType::NodeAfter),
        (">"@, TType::GeneralGT),
        (","@, TType::Comma),
        ("?"@, TType::Question),
        ("+"@, TType::Plus),
        ("-"@, TType::Minus),
        ("*:"@, TType::AsteriskColon),
        ("*"@, TType::Asterisk),
        ("$"@, TType::Dollar),
        ("["@, TType::LeftBracket),
        ("]"@, TType::RightBracket),
        ("("@, TType::LeftParen),
        (")"@, TType::RightParen),
        ("@"@, TType::At),
        ("#"@, TType::Sharp),
        ("{"@, TType::LeftCurly),
        ("}"@, TType::RightCurly),
        (".."@, TType::DotDot),
    ]
}

/// The first symbol of the table, from entry `k` on, that the input holds at `p`.
pub open spec fn first_keyword(s: Seq<char>, p: int, k: int) -> Option<(Seq<char>, TType)>
    decreases keyword_table().len() - k,
{
    if k < 0 || k >= keyword_table().len() {
        None
    } else if keyword_at(s, p, keyword_table()[k].0) {
        Some(keyword_table()[k])
    } else {
        first_keyword(s, p, k + 1)
    }
}

/// One token read at `p`: its kind, its text and the position after it, or
/// an error. A comment gives a `Nop` token.
pub open spec fn scan_token(s: Seq<char>, p: int) -> Result<(TType, Seq<char>, int), ()> {
    if keyword_at(s, p, "(:"@) {
        match comment_end(s, p + 2, 1) {
            Some(j) => Ok((TType::Nop, Seq::empty(), j)),
            None => Err(()),
        }
    } else if keyword_at(s, p, "Q{"@) {
        match until_end(s, p, '}') {
            Some(j) => Ok((TType::BracedURILiteral, s.subrange(p, j), j)),
            None => Err(()),
        }
    } else {
        match first_keyword(s, p, 0) {
            Some((kw, t)) => Ok((t, kw, p + kw.len())),
            None => {
                let c = char_at(s, p);
                if c == EOF {
                    Ok((TType::EOF, Seq::empty(), p + 1))
                } else if spec_is_name_start_char(c) {
                    let e = name_chars_end(s, p + 1);
                    Ok((TType::InnerName, s.subrange(p, e), e))
                } else if c == '"' || c == '\'' {
                    match string_literal_from(s, p + 1, c, Seq::empty()) {
                        Some((lit, j)) => Ok((TType::StringLiteral, lit, j)),
                        None => Err(()),
                    }
                } else if spec_is_digit(c) || (c == '.' && spec_is_digit(char_at(s, p + 1))) {
                    match numeric_end(s, p) {
                        Some(e) => Ok((numeric_type(s.subrange(p, e)), s.subrange(p, e), e)),
                        None => Err(()),
                    }
                } else if c == '.' {
                    Ok((TType::Dot, "."@, p + 1))
                } else {
                    Err(())
                }
            },
        }
    }
}

/// The tokens read from position `i` up to the end of input, comments left
/// out, or an error.
pub open spec fn scan_from(s: Seq<char>, i: int) -> Result<Seq<TokenV>, ()>
    decreases s.len() + 2 - i,
{
    let p = spaces_end(s, i);
    match scan_token(s, p) {
        Err(_) => Err(()),
        Ok((t, text, j)) => {
            if t == TType::EOF {
                Ok(Seq::empty())
            } else if i < j && j <= s.len() {
                match scan_from(s, j) {
                    Err(_) => Err(()),
                    Ok(rest) => {
                        if t == TType::Nop {
                            Ok(rest)
                        } else {
                            Ok(seq![(t, text)] + rest)
                        }
                    },
                }
            } else {
                Err(())
            }
        },
    }
}

// =====================================================================
// Classifying names.

/// The token that marks both ends of the token list.
pub open spec fn eof_token() -> TokenV {
    (TType::EOF, Seq::empty())
}

/// The kinds after which a name is read as a name, never as an operator.
pub open spec fn operand_expected_after(t: TType) -> bool {
    ||| t == TType::EOF
    ||| t == TType::At
    ||| t == TType::ColonColon
    ||| t == TType::LeftParen
    ||| t == TType::LeftBracket
    ||| t == TType::Comma
    ||| t == TType::And
    ||| t == TType::Or
    ||| t == TType::Div
    ||| t == TType::IDiv
    ||| t == TType::Mod
    ||| t == TType::Slash
    ||| t == TType::SlashSlash
    ||| t == TType::Union
    ||| t == TType::Intersect
    ||| t == TType::Except
    ||| t == TType::InstanceOf
    ||| t == TType::TreatAs
    ||| t == TType::CastableAs
    ||| t == TType::CastAs
    ||| t == TType::Plus
    ||| t == TType::Minus
    ||| t == TType::ValueEQ
    ||| t == TType::ValueNE
    ||| t == TType::ValueGT
    ||| t == TType::ValueGE
    ||| t == TType::ValueLT
    ||| t == TType::ValueLE
    ||| t == TType::GeneralEQ
    ||| t == TType::GeneralNE
    ||| t == TType::GeneralGT
    ||| t == TType::GeneralGE
    ||| t == TType::GeneralLT
    ||| t == TType::GeneralLE
    ||| t == TType::IsSameNode
    ||| t == TType::To
    ||| t == TType::NodeBefore
    ||| t == TType::NodeAfter
    ||| t == TType::Asterisk
    ||| t == TType::Colon
}

/// The operator that a word names, where it is read as an operator.
pub open spec fn operator_word(name: Seq<char>) -> Option<TType> {
    if name == "and"@ { Some(TType::And) }
    else if name == "or"@ { Some(TType::Or) }
    else if name == "div"@ { Some(TType::Div) }
    else if name == "mod"@ { Some(TType::Mod) }
    else if name == "idiv"@ { Some(TType::IDiv) }
    else if name == "eq"@ { Some(TType::ValueEQ) }
    else if name == "ne"@ { Some(TType::ValueNE) }
    else if name == "lt"@ { Some(TType::ValueLT) }
    else if name == "le"@ { Some(TType::ValueLE) }
    else if name == "gt"@ { Some(TType::ValueGT) }
    else if name == "ge"@ { Some(TType::ValueGE) }
    else if name == "is"@ { Some(TType::IsSameNode) }
    else if name == "to"@ { Some(TType::To) }
    else if name == "union"@ { Some(TType::Union) }
    else if name == "intersect"@ { Some(TType::Intersect) }
    else if name == "except"@ { Some(TType::Except) }
    else { None }
}

/// The kind of token `cur` once operators are recognised, where the token
/// before it has (already classified) kind `prev`.
pub open spec fn operator_step(prev: TType, cur: TokenV) -> TType {
    if !operand_expected_after(prev) && cur.0 == TType::InnerName && operator_word(cur.1) is Some {
        operator_word(cur.1).unwrap()
    } else {
        cur.0
    }
}

/// The kind of token `k` once operators are recognised from the left.
pub open spec fn operator_type_at(t: Seq<TokenV>, k: int) -> TType
    decreases k,
{
    if k <= 0 {
        t[0].0
    } else {
        operator_step(operator_type_at(t, k - 1), t[k])
    }
}

/// The tokens with operators recognised; both end markers stay.
pub open spec fn rewrite_operators(t: Seq<TokenV>) -> Seq<TokenV> {
    Seq::new(t.len(), |k: int|
        if 1 <= k < t.len() - 1 { (operator_type_at(t, k), t[k].1) } else { t[k] })
}

/// The operator that two words make together.
pub open spec fn pair_word(a: Seq<char>, b: Seq<char>) -> Option<TType> {
    if a == "instance"@ && b == "of"@ { Some(TType::InstanceOf) }
    else if a == "treat"@ && b == "as"@ { Some(TType::TreatAs) }
    else if a == "castable"@ && b == "as"@ { Some(TType::CastableAs) }
    else if a == "cast"@ && b == "as"@ { Some(TType::CastAs) }
    else { None }
}

/// Token `i` and the next one merged when they make a two-word operator:
/// the first takes the operator's kind, the second becomes `Nop`.
pub open spec fn pair_step(u: Seq<TokenV>, i: int) -> Seq<TokenV> {
    if u[i].0 == TType::InnerName && u[i + 1].0 == TType::InnerName
        && pair_word(u[i].1, u[i + 1].1) is Some {
        u.update(i, (pair_word(u[i].1, u[i + 1].1).unwrap(), u[i].1)).update(
            i + 1,
            (TType::Nop, u[i + 1].1),
        )
    } else {
        u
    }
}

/// The tokens after the merging steps at positions `1 .. n`, from the left.
pub open spec fn pairs_upto(u: Seq<TokenV>, n: int) -> Seq<TokenV>
    decreases n,
{
    if n <= 1 {
        u
    } else {
        pair_step(pairs_upto(u, n - 1), n - 1)
    }
}

/// The tokens with two-word operators merged.
pub open spec fn rewrite_pairs(t: Seq<TokenV>) -> Seq<TokenV> {
    pairs_upto(t, t.len() - 2)
}

/// The tokens that are not `Nop`, in order.
pub open spec fn drop_nops(s: Seq<TokenV>) -> Seq<TokenV>
    decreases s.len(),
{
    if s.len() == 0 {
        s
    } else if s[0].0 == TType::Nop {
        drop_nops(s.drop_first())
    } else {
        seq![s[0]] + drop_nops(s.drop_first())
    }
}

/// The tokens with the `Nop` tokens after the first removed.
pub open spec fn eliminate_nops(t: Seq<TokenV>) -> Seq<TokenV> {
    seq![t[0]] + drop_nops(t.subrange(1, t.len() as int))
}

/// The words that take another kind when a given kind of token follows them.
pub open spec fn name_symbol_table() -> Seq<(Seq<char>, TType, TType)> {
    seq![
        ("array"@, TType::LeftParen, TType::ArrayTest),
        ("array"@, TType::LeftCurly, TType::Array),
        ("attribute"@, TType::LeftParen, TType::AttributeTest),
        ("comment"@, TType::LeftParen, TType::CommentTest),
        ("document-node"@, TType::LeftParen, TType::DocumentTest),
        ("element"@, TType::LeftParen, TType::ElementTest),
        ("empty-sequence"@, TType::LeftParen, TType::EmptySequence),
        ("function"@, TType::LeftParen, TType::Function),
        ("if"@, TType::LeftParen, TType::If),
        ("item"@, TType::LeftParen, TType::Item),
        ("map"@, TType::LeftParen, TType::MapTest),
        ("map"@, TType::LeftCurly, TType::MapKw),
        ("namespace-node"@, TType::LeftParen, TType::NamespaceNodeTest),
        ("node"@, TType::LeftParen, TType::AnyKindTest),
        ("processing-instruction"@, TType::LeftParen, TType::PITest),
        ("schema-attribute"@, TType::LeftParen, TType::SchemaAttributeTest),
        ("schema-element"@, TType::LeftParen, TType::SchemaElementTest),
        ("switch"@, TType::LeftParen, TType::Switch),
        ("text"@, TType::LeftParen, TType::TextTest),
        ("typeswitch"@, TType::LeftParen, TType::TypeSwitch),
        ("for"@, TType::Dollar, TType::For),
        ("some"@, TType::Dollar, TType::SomeKw),
        ("every"@, TType::Dollar, TType::Every),
        ("let"@, TType::Dollar, TType::Let),
        ("ancestor"@, TType::ColonColon, TType::AxisName),
        ("ancestor-or-self"@, TType::ColonColon, TType::AxisName),
        ("attribute"@, TType::ColonColon, TType::AxisName),
        ("child"@, TType::ColonColon, TType::AxisName),
        ("descendant"@, TType::ColonColon, TType::AxisName),
        ("descendant-or-self"@, TType::ColonColon, TType::AxisName),
        ("following"@, TType::ColonColon, TType::AxisName),
        ("following-sibling"@, TType::ColonColon, TType::AxisName),
        ("namespace"@, TType::ColonColon, TType::AxisName),
        ("parent"@, TType::ColonColon, TType::AxisName),
        ("preceding"@, TType::ColonColon, TType::AxisName),
        ("preceding-sibling"@, TType::ColonColon, TType::AxisName),
        ("self"@, TType::ColonColon, TType::AxisName),
    ]
}

/// The kind that the last matching entry among the first `n` of the table
/// gives to word `name` followed by a token of kind `next`.
pub open spec fn name_symbol_upto(name: Seq<char>, next: TType, n: int) -> Option<TType>
    decreases n,
{
    if n <= 0 {
        None
    } else {
        let e = name_symbol_table()[n - 1];
        if e.0 == name && e.1 == next {
            Some(e.2)
        } else {
            name_symbol_upto(name, next, n - 1)
        }
    }
}

/// The final kind of a word followed by a token of kind `next`.
pub open spec fn classify_name(name: Seq<char>, next: TType) -> TType {
    match name_symbol_upto(name, next, name_symbol_table().len() as int) {
        Some(t) => t,
        None => TType::Name,
    }
}

/// The tokens with every remaining word classified.
pub open spec fn rewrite_names(t: Seq<TokenV>) -> Seq<TokenV> {
    Seq::new(t.len(), |k: int|
        if 1 <= k < t.len() - 1 && t[k].0 == TType::InnerName {
            (classify_name(t[k].1, t[k + 1].0), t[k].1)
        } else {
            t[k]
        })
}

/// The tokens read from `s` between two end markers, before classification.
pub open spec fn framed(raw: Seq<TokenV>) -> Seq<TokenV> {
    seq![eof_token()] + raw + seq![eof_token()]
}

/// The token list that lexing `s` gives, or an error; an expression that
/// holds no token is an error too.
pub open spec fn spec_tokenize(s: Seq<char>) -> Result<Seq<TokenV>, ()> {
    match scan_from(s, 0) {
        Err(_) => Err(()),
        Ok(raw) => if raw.len() == 0 {
            Err(())
        } else {
            Ok(rewrite_names(eliminate_nops(rewrite_pairs(rewrite_operators(framed(raw))))))
        },
    }
}

/// A token list between two end markers, with no end marker inside.
pub open spec fn framed_ok(t: Seq<TokenV>) -> bool {
    &&& t.len() >= 2
    &&& t[0].0 == TType::EOF
    &&& t[t.len() - 1].0 == TType::EOF
    &&& forall|k: int| 1 <= k < t.len() - 1 ==> #[trigger] t[k].0 != TType::EOF
}


// =====================================================================
// Facts about scanning.

/// A symbol text that scanning can step over: one or two characters, none of
/// them the end-of-input character.
pub open spec fn text_ok(kw: Seq<char>) -> bool {
    &&& 1 <= kw.len() <= 2
    &&& forall|m: int| 0 <= m < kw.len() ==> #[trigger] kw[m] != EOF
}

/// Every symbol of the table is one or two characters long, none of them
/// the end-of-input character.
proof fn lemma_keyword_texts()
    ensures
        forall|k: int| 0 <= k < keyword_table().len() ==> #[trigger] text_ok(keyword_table()[k].0),
{
    reveal_strlit("//");
    reveal_strlit("/");
    reveal_strlit("::");
    reveal_strlit(":=");
    reveal_strlit(":*");
    reveal_strlit(":");
    reveal_strlit("=>");
    reveal_strlit("=");
    reveal_strlit("!=");
    reveal_strlit("!");
    reveal_strlit("||");
    reveal_strlit("|");
    reveal_strlit("<=");
    reveal_strlit("<<");
    reveal_strlit("<");
    reveal_strlit(">=");
    reveal_strlit(">>");
    reveal_strlit(">");
    reveal_strlit(",");
    reveal_strlit("?");
    reveal_strlit("+");
    reveal_strlit("-");
    reveal_strlit("*:");
    reveal_strlit("*");
    reveal_strlit("$");
    reveal_strlit("[");
    reveal_strlit("]");
    reveal_strlit("(");
    reveal_strlit(")");
    reveal_strlit("@");
    reveal_strlit("#");
    reveal_strlit("{");
    reveal_strlit("}");
    reveal_strlit("..");
    assert forall|k: int| 0 <= k < keyword_table().len() implies #[trigger] text_ok(keyword_table()[k].0) by {
        if k == 0 {
            assert(keyword_table()[k].0 == "//"@);
        } else if k == 1 {
            assert(keyword_table()[k].0 == "/"@);
        } else if k == 2 {
            assert(keyword_table()[k].0 == "::"@);
        } else if k == 3 {
            assert(keyword_table()[k].0 == ":="@);
        } else if k == 4 {
            assert(keyword_table()[k].0 == ":*"@);
        } else if k == 5 {
            assert(keyword_table()[k].0 == ":"@);
        } else if k == 6 {
            assert(keyword_table()[k].0 == "=>"@);
        } else if k == 7 {
            assert(keyword_table()[k].0 == "="@);
        } else if k == 8 {
            assert(keyword_table()[k].0 == "!="@);
        } else if k == 9 {
            assert(keyword_table()[k].0 == "!"@);
        } else if k == 10 {
            assert(keyword_table()[k].0 == "||"@);
        } else if k == 11 {
            assert(keyword_table()[k].0 == "|"@);
        } else if k == 12 {
            assert(keyword_table()[k].0 == "<="@);
        } else if k == 13 {
            assert(keyword_table()[k].0 == "<<"@);
        } else if k == 14 {
            assert(keyword_table()[k].0 == "<"@);
        } else if k == 15 {
            assert(keyword_table()[k].0 == ">="@);
        } else if k == 16 {
            assert(keyword_table()[k].0 == ">>"@);
        } else if k == 17 {
            assert(keyword_table()[k].0 == ">"@);
        } else if k == 18 {
            assert(keyword_table()[k].0 == ","@);
        } else if k == 19 {
            assert(keyword_table()[k].0 == "?"@);
        } else if k == 20 {
            assert(keyword_table()[k].0 == "+"@);
        } else if k == 21 {
            assert(keyword_table()[k].0 == "-"@);
        } else if k == 22 {
            assert(keyword_table()[k].0 == "*:"@);
        } else if k == 23 {
            assert(keyword_table()[k].0 == "*"@);
        } else if k == 24 {
            assert(keyword_table()[k].0 == "$"@);
        } else if k == 25 {
            assert(keyword_table()[k].0 == "["@);
        } else if k == 26 {
            assert(keyword_table()[k].0 == "]"@);
        } else if k == 27 {
            assert(keyword_table()[k].0 == "("@);
        } else if k == 28 {
            assert(keyword_table()[k].0 == ")"@);
        } else if k == 29 {
            assert(keyword_table()[k].0 == "@"@);
        } else if k == 30 {
            assert(keyword_table()[k].0 == "#"@);
        } else if k == 31 {
            assert(keyword_table()[k].0 == "{"@);
        } else if k == 32 {
            assert(keyword_table()[k].0 == "}"@);
        } else if k == 33 {
            assert(keyword_table()[k].0 == ".."@);
        }
    }
}

proof fn lemma_subrange_push(s: Seq<char>, a: int, b: int)
    requires
        0 <= a <= b < s.len(),
    ensures
        s.subrange(a, b + 1) == s.subrange(a, b).push(s[b]),
{
    assert(s.subrange(a, b + 1) =~= s.subrange(a, b).push(s[b]));
}

proof fn lemma_subrange_concat(s: Seq<char>, a: int, b: int, c: int)
    requires
        0 <= a <= b <= c <= s.len(),
    ensures
        s.subrange(a, b) + s.subrange(b, c) == s.subrange(a, c),
{
    assert(s.subrange(a, b) + s.subrange(b, c) =~= s.subrange(a, c));
}

/// The end-of-input character is neither a space, a digit nor a name character.
proof fn lemma_eof_class()
    ensures
        !spec_is_space(EOF),
        !spec_is_digit(EOF),
        !spec_is_name_char(EOF),
        !spec_is_name_start_char(EOF),
{
    assert((EOF as u32) == 0);
}

proof fn lemma_keyword_within(s: Seq<char>, p: int, kw: Seq<char>)
    requires
        0 <= p,
        text_ok(kw),
        keyword_at(s, p, kw),
    ensures
        p + kw.len() <= s.len(),
{
    let m = kw.len() - 1;
    assert(char_at(s, p + m) == kw[m]);
}

proof fn lemma_first_keyword(s: Seq<char>, p: int, k: int)
    requires
        0 <= p,
        0 <= k,
    ensures
        first_keyword(s, p, k) matches Some((kw, t)) ==> {
            &&& text_ok(kw)
            &&& keyword_at(s, p, kw)
            &&& p + kw.len() <= s.len()
        },
    decreases keyword_table().len() - k,
{
    lemma_keyword_texts();
    if k < keyword_table().len() {
        if keyword_at(s, p, keyword_table()[k].0) {
            lemma_keyword_within(s, p, keyword_table()[k].0);
        } else {
            lemma_first_keyword(s, p, k + 1);
        }
    }
}

proof fn lemma_spaces_end(s: Seq<char>, i: int)
    requires
        0 <= i,
    ensures
        i <= spaces_end(s, i),
        i <= s.len() ==> spaces_end(s, i) <= s.len() + 1,
    decreases s.len() - i,
{
    let c = char_at(s, i);
    if c != EOF && spec_is_space(c) {
        lemma_spaces_end(s, i + 1);
    }
}

proof fn lemma_digits_end(s: Seq<char>, i: int)
    requires
        0 <= i <= s.len(),
    ensures
        i <= digits_end(s, i) <= s.len(),
    decreases s.len() - i,
{
    if spec_is_digit(char_at(s, i)) {
        lemma_digits_end(s, i + 1);
    }
}

proof fn lemma_name_chars_end(s: Seq<char>, i: int)
    requires
        0 <= i <= s.len(),
    ensures
        i <= name_chars_end(s, i) <= s.len(),
    decreases s.len() - i,
{
    if spec_is_name_char(char_at(s, i)) {
        lemma_name_chars_end(s, i + 1);
    }
}

proof fn lemma_string_literal_end(s: Seq<char>, i: int, delim: char, acc: Seq<char>)
    requires
        0 <= i,
    ensures
        string_literal_from(s, i, delim, acc) matches Some((lit, j)) ==> i < j <= s.len(),
    decreases s.len() - i,
{
    let c = char_at(s, i);
    if c != EOF {
        if c == delim {
            if char_at(s, i + 1) == delim {
                lemma_string_literal_end(s, i + 2, delim, acc.push(delim));
            }
        } else {
            lemma_string_literal_end(s, i + 1, delim, acc.push(c));
        }
    }
}

proof fn lemma_until_end(s: Seq<char>, i: int, delim: char)
    requires
        0 <= i,
    ensures
        until_end(s, i, delim) matches Some(j) ==> i < j <= s.len(),
    decreases s.len() - i,
{
    let c = char_at(s, i);
    if c != EOF && c != delim {
        lemma_until_end(s, i + 1, delim);
    }
}

proof fn lemma_comment_end(s: Seq<char>, i: int, level: nat)
    requires
        0 <= i <= s.len(),
    ensures
        comment_end(s, i, level) matches Some(j) ==> i <= j <= s.len(),
    decreases s.len() - i,
{
    if level > 0 {
        let c = char_at(s, i);
        if c == EOF {
        } else if c == '(' && char_at(s, i + 1) == ':' {
            lemma_comment_end(s, i + 2, level + 1);
        } else if c == ':' && char_at(s, i + 1) == ')' {
            lemma_comment_end(s, i + 2, (level - 1) as nat);
        } else {
            lemma_comment_end(s, i + 1, level);
        }
    }
}

proof fn lemma_exponent_end(s: Seq<char>, q: int)
    requires
        0 <= q <= s.len(),
    ensures
        exponent_end(s, q) matches Some(e) ==> q <= e <= s.len(),
{
    let c = char_at(s, q);
    if c == 'e' || c == 'E' {
        let c2 = char_at(s, q + 1);
        if c2 == '+' || c2 == '-' {
            lemma_digits_end(s, q + 2);
        } else if spec_is_digit(c2) {
            lemma_digits_end(s, q + 1);
        }
    }
}

proof fn lemma_numeric_end(s: Seq<char>, p: int)
    requires
        0 <= p < s.len(),
        spec_is_digit(char_at(s, p)) || char_at(s, p) == '.',
    ensures
        numeric_end(s, p) matches Some(e) ==> p < e <= s.len(),
{
    if spec_is_digit(char_at(s, p)) {
        lemma_digits_end(s, p + 1);
        let q = digits_end(s, p + 1);
        if char_at(s, q) == '.' {
            lemma_digits_end(s, q + 1);
            lemma_exponent_end(s, digits_end(s, q + 1));
            match fraction_end(s, q) {
                Some(r) => lemma_exponent_end(s, r),
                None => {},
            }
        } else {
            lemma_exponent_end(s, q);
        }
    } else {
        lemma_digits_end(s, p + 1);
        lemma_exponent_end(s, digits_end(s, p + 1));
    }
}

/// A token other than the end of input lies inside the input and is not empty.
proof fn lemma_scan_token_progress(s: Seq<char>, p: int)
    requires
        0 <= p,
    ensures
        scan_token(s, p) matches Ok((t, text, j)) ==> (t != TType::EOF ==> p < j <= s.len()),
{
    reveal_strlit("(:");
    reveal_strlit("Q{");
    if keyword_at(s, p, "(:"@) {
        assert(text_ok("(:"@));
        lemma_keyword_within(s, p, "(:"@);
        lemma_comment_end(s, p + 2, 1);
    } else if keyword_at(s, p, "Q{"@) {
        lemma_until_end(s, p, '}');
    } else {
        lemma_first_keyword(s, p, 0);
        match first_keyword(s, p, 0) {
            Some((kw, t)) => {},
            None => {
                let c = char_at(s, p);
                if c == EOF {
                } else if spec_is_name_start_char(c) {
                    lemma_name_chars_end(s, p + 1);
                } else if c == '"' || c == '\'' {
                    lemma_string_literal_end(s, p + 1, c, Seq::empty());
                } else if spec_is_digit(c) || (c == '.' && spec_is_digit(char_at(s, p + 1))) {
                    lemma_numeric_end(s, p);
                }
            },
        }
    }
}


// =====================================================================
// Tokens.

/// A token: its kind and its text.
#[derive(Debug)]
pub struct Token {
    t_type: TType,
    name: String,
}

impl View for Token {
    type V = TokenV;

    closed spec fn view(&self) -> TokenV {
        (self.t_type, self.name@)
    }
}

fn new_token(t_type: TType, name: &str) -> (tok: Token)
    ensures
        tok@ == (t_type, name@),
{
    Token { t_type, name: String::from_str(name) }
}

impl Token {
    /// The kind of the token.
    pub fn get_type(&self) -> (t: TType)
        ensures
            t == self@.0,
    {
        self.t_type
    }

    /// The text of the token.
    pub fn get_name(&self) -> (name: &str)
        ensures
            name@ == self@.1,
    {
        self.name.as_str()
    }

    fn duplicate(&self) -> (tok: Token)
        ensures
            tok@ == self@,
    {
        Token { t_type: self.t_type, name: self.name.clone() }
    }
}

// =====================================================================
// Characters, executable.

/// Whether some range of `ch_ranges` holds the code point of `ch`.
fn char_is_in_ranges(ch: char, ch_ranges: &[(u32, u32)]) -> (res: bool)
    ensures
        res == in_ranges(ch, ch_ranges@),
{
    let w = ch as u32;
    let mut k: usize = 0;
    while k < ch_ranges.len()
        invariant
            0 <= k <= ch_ranges@.len(),
            w == ch as u32,
            forall|m: int| 0 <= m < k ==> !(#[trigger] ch_ranges@[m].0 <= w && w <= ch_ranges@[m].1),
        decreases ch_ranges@.len() - k,
    {
        let (lo, hi) = ch_ranges[k];
        if lo <= w && w <= hi {
            assert(ch_ranges@[k as int].0 <= (ch as u32) && (ch as u32) <= ch_ranges@[k as int].1);
            return true;
        }
        k += 1;
    }
    false
}

fn is_space(ch: char) -> (res: bool)
    ensures
        res == spec_is_space(ch),
{
    ch == ' ' || ch == '\t' || ch == '\r' || ch == '\n'
}

fn is_digit(ch: char) -> (res: bool)
    ensures
        res == spec_is_digit(ch),
{
    let r: [(u32, u32); 1] = [(0x0030, 0x0039)];
    let res = char_is_in_ranges(ch, &r);
    proof {
        assert(r@[0] == (0x0030u32, 0x0039u32));
        if res {
            let k = choose|k: int| 0 <= k < r@.len() && #[trigger] r@[k].0 <= (ch as u32) && (ch as u32) <= r@[k].1;
            assert(k == 0);
        }
        if spec_is_digit(ch) {
            assert(r@[0].0 <= (ch as u32) && (ch as u32) <= r@[0].1);
        }
    }
    res
}

fn is_name_start_char(ch: char) -> (res: bool)
    ensures
        res == spec_is_name_start_char(ch),
{
    let r: [(u32, u32); 16] = [
        (0x0041, 0x005A),
        (0x005F, 0x005F),
        (0x0061, 0x007A),
        (0x00C0, 0x00D6),
        (0x00D8, 0x00F6),
        (0x00F8, 0x00FF),
        (0x0100, 0x02FF),
        (0x0370, 0x037D),
        (0x037F, 0x1FFF),
        (0x200C, 0x200D),
        (0x2070, 0x218F),
        (0x2C00, 0x2FEF),
        (0x3001, 0xD7FF),
        (0xF900, 0xFDCF),
        (0xFDF0, 0xFFFD),
        (0x00010000, 0x000EFFFF),
    ];
    let res = char_is_in_ranges(ch, &r);
    proof {
        assert(r@[0] == (0x0041u32, 0x005Au32));
        assert(r@[1] == (0x005Fu32, 0x005Fu32));
        assert(r@[2] == (0x0061u32, 0x007Au32));
        assert(r@[3] == (0x00C0u32, 0x00D6u32));
        assert(r@[4] == (0x00D8u32, 0x00F6u32));
        assert(r@[5] == (0x00F8u32, 0x00FFu32));
        assert(r@[6] == (0x0100u32, 0x02FFu32));
        assert(r@[7] == (0x0370u32, 0x037Du32));
        assert(r@[8] == (0x037Fu32, 0x1FFFu32));
        assert(r@[9] == (0x200Cu32, 0x200Du32));
        assert(r@[10] == (0x2070u32, 0x218Fu32));
        assert(r@[11] == (0x2C00u32, 0x2FEFu32));
        assert(r@[12] == (0x3001u32, 0xD7FFu32));
        assert(r@[13] == (0xF900u32, 0xFDCFu32));
        assert(r@[14] == (0xFDF0u32, 0xFFFDu32));
        assert(r@[15] == (0x00010000u32, 0x000EFFFFu32));
        if res {
            let k = choose|k: int| 0 <= k < r@.len() && #[trigger] r@[k].0 <= (ch as u32) && (ch as u32) <= r@[k].1;
            assert(0 <= k < 16);
        }
        if spec_is_name_start_char(ch) {
            let w = ch as u32;
            if 0x0041 <= w <= 0x005A { assert(r@[0].0 <= w && w <= r@[0].1); }
            else if 0x005F <= w <= 0x005F { assert(r@[1].0 <= w && w <= r@[1].1); }
            else if 0x0061 <= w <= 0x007A { assert(r@[2].0 <= w && w <= r@[2].1); }
            else if 0x00C0 <= w <= 0x00D6 { assert(r@[3].0 <= w && w <= r@[3].1); }
            else if 0x00D8 <= w <= 0x00F6 { assert(r@[4].0 <= w && w <= r@[4].1); }
            else if 0x00F8 <= w <= 0x00FF { assert(r@[5].0 <= w && w <= r@[5].1); }
            else if 0x0100 <= w <= 0x02FF { assert(r@[6].0 <= w && w <= r@[6].1); }
            else if 0x0370 <= w <= 0x037D { assert(r@[7].0 <= w && w <= r@[7].1); }
            else if 0x037F <= w <= 0x1FFF { assert(r@[8].0 <= w && w <= r@[8].1); }
            else if 0x200C <= w <= 0x200D { assert(r@[9].0 <= w && w <= r@[9].1); }
            else if 0x2070 <= w <= 0x218F { assert(r@[10].0 <= w && w <= r@[10].1); }
            else if 0x2C00 <= w <= 0x2FEF { assert(r@[11].0 <= w && w <= r@[11].1); }
            else if 0x3001 <= w <= 0xD7FF { assert(r@[12].0 <= w && w <= r@[12].1); }
            else if 0xF900 <= w <= 0xFDCF { assert(r@[13].0 <= w && w <= r@[13].1); }
            else if 0xFDF0 <= w <= 0xFFFD { assert(r@[14].0 <= w && w <= r@[14].1); }
            else { assert(r@[15].0 <= w && w <= r@[15].1); }
        }
    }
    res
}

fn is_name_char(ch: char) -> (res: bool)
    ensures
        res == spec_is_name_char(ch),
{
    if is_name_start_char(ch) {
        return true;
    }
    let r: [(u32, u32); 5] = [
        (0x002D, 0x002E),
        (0x0030, 0x0039),
        (0x00B7, 0x00B7),
        (0x0300, 0x036F),
        (0x203F, 0x2040),
    ];
    let res = char_is_in_ranges(ch, &r);
    proof {
        assert(r@[0] == (0x002Du32, 0x002Eu32));
        assert(r@[1] == (0x0030u32, 0x0039u32));
        assert(r@[2] == (0x00B7u32, 0x00B7u32));
        assert(r@[3] == (0x0300u32, 0x036Fu32));
        assert(r@[4] == (0x203Fu32, 0x2040u32));
        if res {
            let k = choose|k: int| 0 <= k < r@.len() && #[trigger] r@[k].0 <= (ch as u32) && (ch as u32) <= r@[k].1;
            assert(0 <= k < 5);
        }
        if spec_is_name_char(ch) {
            let w = ch as u32;
            if 0x002D <= w <= 0x002E { assert(r@[0].0 <= w && w <= r@[0].1); }
            else if 0x0030 <= w <= 0x0039 { assert(r@[1].0 <= w && w <= r@[1].1); }
            else if 0x00B7 <= w <= 0x00B7 { assert(r@[2].0 <= w && w <= r@[2].1); }
            else if 0x0300 <= w <= 0x036F { assert(r@[3].0 <= w && w <= r@[3].1); }
            else { assert(r@[4].0 <= w && w <= r@[4].1); }
        }
    }
    res
}

fn is_eof(ch: char) -> (res: bool)
    ensures
        res == (ch == EOF),
{
    ch == EOF
}


// =====================================================================
// The lexer.

/// The lexer: the characters of an expression, its token list, and a cursor
/// into that list.
#[derive(Debug)]
pub struct Lexer {
    char_vec: Vec<char>,
    ch_index: usize,
    tokens: Vec<Token>,
    index: usize,
    mark_index: usize,
}

impl Lexer {
    /// The characters of the expression.
    pub closed spec fn chars(&self) -> Seq<char> {
        self.char_vec@
    }

    /// The token list.
    pub closed spec fn tokens_v(&self) -> Seq<TokenV> {
        self.tokens@.map_values(|t: Token| t@)
    }

    /// The position of the next token in the list.
    pub closed spec fn index_v(&self) -> int {
        self.index as int
    }

    /// The position saved by `mark_token_index`.
    pub closed spec fn mark_v(&self) -> int {
        self.mark_index as int
    }

    /// A lexer whose list lies between two end markers and whose cursor and
    /// mark point into it.
    pub open spec fn wf(&self) -> bool {
        &&& framed_ok(self.tokens_v())
        &&& 0 <= self.index_v() < self.tokens_v().len()
        &&& 0 <= self.mark_v() < self.tokens_v().len()
    }

    /// A lexer ready for parsing: valid, its cursor past the leading end
    /// marker, and at least one token between the end markers.
    pub open spec fn ready(&self) -> bool {
        &&& self.wf()
        &&& self.index_v() >= 1
        &&& self.tokens_v().len() >= 3
    }

    /// Ready, with the tokens of `other` and a cursor no further back.
    pub open spec fn moved_on_from(&self, other: &Lexer) -> bool {
        &&& self.ready()
        &&& self.tokens_v() == other.tokens_v()
        &&& self.chars() == other.chars()
        &&& self.index_v() >= other.index_v()
    }

    /// The token at the cursor.
    pub open spec fn current(&self) -> TokenV {
        self.tokens_v()[self.index_v()]
    }

    spec fn same_but_position(&self, other: &Lexer) -> bool {
        &&& self.char_vec@ == other.char_vec@
        &&& self.tokens@ == other.tokens@
        &&& self.index == other.index
        &&& self.mark_index == other.mark_index
    }

    // -----------------------------------------------------------------
    // Reading characters.

    fn read_rune(&mut self) -> (ch: char)
        requires
            old(self).ch_index < usize::MAX,
        ensures
            final(self).ch_index == old(self).ch_index + 1,
            ch == char_at(old(self).char_vec@, old(self).ch_index as int),
            final(self).same_but_position(old(self)),
    {
        self.ch_index += 1;
        if self.char_vec.len() <= self.ch_index - 1 {
            EOF
        } else {
            self.char_vec[self.ch_index - 1]
        }
    }

    fn unread_rune(&mut self)
        ensures
            final(self).ch_index == (if 0 < old(self).ch_index { old(self).ch_index - 1 } else { 0 }),
            final(self).same_but_position(old(self)),
    {
        if 0 < self.ch_index {
            self.ch_index -= 1;
        }
    }

    /// Reads `keyword` when the input holds it at the current position;
    /// otherwise stays where it is.
    fn look_ahead_keyword(&mut self, keyword: &str) -> (res: bool)
        requires
            old(self).ch_index + keyword@.len() < usize::MAX,
        ensures
            res == keyword_at(old(self).char_vec@, old(self).ch_index as int, keyword@),
            res ==> final(self).ch_index == old(self).ch_index + keyword@.len(),
            !res ==> final(self).ch_index == old(self).ch_index,
            final(self).same_but_position(old(self)),
    {
        let ghost s = self.char_vec@;
        proof {
            lemma_eof_class();
        }
        let ghost p = self.ch_index as int;
        let n = keyword.unicode_len();
        let mut i: usize = 0;
        while i < n
            invariant
                n == keyword@.len(),
                0 <= i <= n,
                p + n < usize::MAX,
                self.ch_index == p + i,
                self.same_but_position(old(self)),
                s == self.char_vec@,
                forall|k: int| 0 <= k < i ==> char_at(s, p + k) == #[trigger] keyword@[k],
                0 <= p,
                p == old(self).ch_index as int,
                s == old(self).char_vec@,
            decreases n - i,
        {
            let key_ch = keyword.get_char(i);
            let ch = self.read_rune();
            if ch != key_ch {
                let mut j: usize = 0;
                while j <= i
                    invariant
                        0 <= j <= i + 1,
                        i < n,
                        0 <= p,
                        p + n < usize::MAX,
                        p == old(self).ch_index as int,
                        s == old(self).char_vec@,
                        self.ch_index == p + i + 1 - j,
                        self.same_but_position(old(self)),
                    decreases i + 1 - j,
                {
                    self.unread_rune();
                    j += 1;
                }
                assert(char_at(s, p + i) != keyword@[i as int]);
                return false;
            }
            i += 1;
        }
        true
    }

    fn skip_spaces(&mut self)
        requires
            old(self).ch_index <= old(self).char_vec@.len(),
            old(self).char_vec@.len() + 4 <= usize::MAX,
        ensures
            final(self).ch_index == spaces_end(old(self).char_vec@, old(self).ch_index as int),
            final(self).same_but_position(old(self)),
    {
        let ghost s = self.char_vec@;
        proof {
            lemma_eof_class();
        }
        let ghost start = self.ch_index as int;
        let mut ch = self.read_rune();
        while !is_eof(ch) && is_space(ch)
            invariant
                s == self.char_vec@,
                s.len() + 4 <= usize::MAX,
                0 <= start,
                start == old(self).ch_index as int,
                s == old(self).char_vec@,
                1 <= self.ch_index <= s.len() + 1,
                ch == char_at(s, self.ch_index - 1),
                spaces_end(s, self.ch_index - 1) == spaces_end(s, start),
                self.same_but_position(old(self)),
            decreases s.len() + 1 - self.ch_index,
        {
            ch = self.read_rune();
        }
        if !is_eof(ch) {
            self.unread_rune();
        }
    }

    // -----------------------------------------------------------------
    // Literals.

    fn fetch_digits(&mut self) -> (digits: String)
        requires
            old(self).ch_index <= old(self).char_vec@.len(),
            old(self).char_vec@.len() + 4 <= usize::MAX,
        ensures
            final(self).ch_index == digits_end(old(self).char_vec@, old(self).ch_index as int),
            digits@ == old(self).char_vec@.subrange(
                old(self).ch_index as int,
                digits_end(old(self).char_vec@, old(self).ch_index as int),
            ),
            final(self).same_but_position(old(self)),
    {
        let ghost s = self.char_vec@;
        proof {
            lemma_eof_class();
        }
        let ghost start = self.ch_index as int;
        let mut digits = String::new();
        let mut ch1 = self.read_rune();
        while is_digit(ch1)
            invariant
                s == self.char_vec@,
                s.len() + 4 <= usize::MAX,
                0 <= start,
                start == old(self).ch_index as int,
                s == old(self).char_vec@,
                start + 1 <= self.ch_index <= s.len() + 1,
                ch1 == char_at(s, self.ch_index - 1),
                digits_end(s, self.ch_index - 1) == digits_end(s, start),
                digits@ == s.subrange(start, self.ch_index - 1),
                self.same_but_position(old(self)),
            decreases s.len() + 1 - self.ch_index,
        {
            let ghost q = self.ch_index - 1;
            assert(0 <= q < s.len());
            push_char(&mut digits, ch1);
            proof { lemma_subrange_push(s, start, q); }
            ch1 = self.read_rune();
        }
        self.unread_rune();
        digits
    }

    fn fetch_numeric_after_e(&mut self) -> (res: Result<String, XPathError>)
        requires
            old(self).ch_index <= old(self).char_vec@.len(),
            old(self).char_vec@.len() + 4 <= usize::MAX,
        ensures
            match exponent_end(old(self).char_vec@, old(self).ch_index as int) {
                Some(e) => res matches Ok(lit) && lit@ == old(self).char_vec@.subrange(
                    old(self).ch_index as int,
                    e,
                ) && final(self).ch_index == e,
                None => res matches Err(err) && err.kind == XPathErrorKind::SyntaxError,
            },
            final(self).same_but_position(old(self)),
    {
        let ghost s = self.char_vec@;
        proof {
            lemma_eof_class();
        }
        let ghost q = self.ch_index as int;
        let mut numeric_after_e = String::new();
        let mut ch1 = self.read_rune();
        if ch1 == 'e' || ch1 == 'E' {
            push_char(&mut numeric_after_e, ch1);
            proof {
                assert(0 <= q < s.len());
                lemma_subrange_push(s, q, q);
                assert(s.subrange(q, q) =~= Seq::<char>::empty());
            }
            ch1 = self.read_rune();
            if ch1 == '+' || ch1 == '-' {
                push_char(&mut numeric_after_e, ch1);
                proof {
                    assert(q + 1 < s.len());
                    lemma_subrange_push(s, q, q + 1);
                }
                let ch2 = self.read_rune();
                if !is_digit(ch2) {
                    return Err(new_error(XPathErrorKind::SyntaxError,
                        "an exponent sign must be followed by digits"));
                }
                self.unread_rune();
            } else if is_digit(ch1) {
                self.unread_rune();
            } else {
                return Err(new_error(XPathErrorKind::SyntaxError,
                    "an exponent mark [eE] must be followed by digits"));
            }
            let ghost c = self.ch_index as int;
            let digits = self.fetch_digits();
            proof {
                lemma_digits_end(s, c);
                lemma_subrange_concat(s, q, c, self.ch_index as int);
            }
            numeric_after_e.append(digits.as_str());
        } else {
            self.unread_rune();
            assert(numeric_after_e@ =~= s.subrange(q, q));
        }
        Ok(numeric_after_e)
    }

    fn fetch_numeric_after_period(&mut self) -> (res: Result<String, XPathError>)
        requires
            old(self).ch_index < old(self).char_vec@.len(),
            char_at(old(self).char_vec@, old(self).ch_index as int) == '.',
            old(self).char_vec@.len() + 4 <= usize::MAX,
        ensures
            match fraction_end(old(self).char_vec@, old(self).ch_index as int) {
                Some(e) => res matches Ok(lit) && lit@ == old(self).char_vec@.subrange(
                    old(self).ch_index as int,
                    e,
                ) && final(self).ch_index == e,
                None => res matches Err(err) && err.kind == XPathErrorKind::SyntaxError,
            },
            final(self).same_but_position(old(self)),
    {
        let ghost s = self.char_vec@;
        proof {
            lemma_eof_class();
        }
        let ghost q = self.ch_index as int;
        let mut numeric_after_period = String::new();
        let ch1 = self.read_rune();
        if ch1 == '.' {
            push_char(&mut numeric_after_period, ch1);
            proof {
                lemma_subrange_push(s, q, q);
                assert(s.subrange(q, q) =~= Seq::<char>::empty());
            }
            let digits = self.fetch_digits();
            numeric_after_period.append(digits.as_str());
            proof {
                lemma_digits_end(s, q + 1);
                lemma_subrange_concat(s, q, q + 1, self.ch_index as int);
            }
            let ghost c = self.ch_index as int;
            let after_e = self.fetch_numeric_after_e()?;
            proof {
                lemma_exponent_end(s, c);
                lemma_subrange_concat(s, q, c, self.ch_index as int);
            }
            numeric_after_period.append(after_e.as_str());
        }
        Ok(numeric_after_period)
    }

    fn fetch_numeric_literal(&mut self) -> (res: Result<String, XPathError>)
        requires
            old(self).ch_index <= old(self).char_vec@.len(),
            old(self).char_vec@.len() + 4 <= usize::MAX,
        ensures
            match numeric_end(old(self).char_vec@, old(self).ch_index as int) {
                Some(e) => res matches Ok(lit) && lit@ == old(self).char_vec@.subrange(
                    old(self).ch_index as int,
                    e,
                ) && final(self).ch_index == e,
                None => res matches Err(err) && err.kind == XPathErrorKind::SyntaxError,
            },
            final(self).same_but_position(old(self)),
    {
        let ghost s = self.char_vec@;
        proof {
            lemma_eof_class();
        }
        let ghost p = self.ch_index as int;
        let mut numeric_literal = String::new();
        let mut ch1 = self.read_rune();
        if is_digit(ch1) {
            push_char(&mut numeric_literal, ch1);
            proof {
                assert(0 <= p < s.len());
                lemma_subrange_push(s, p, p);
                assert(s.subrange(p, p) =~= Seq::<char>::empty());
            }
            let digits = self.fetch_digits();
            numeric_literal.append(digits.as_str());
            proof {
                lemma_digits_end(s, p + 1);
                lemma_subrange_concat(s, p, p + 1, self.ch_index as int);
            }
            let ghost q = self.ch_index as int;
            ch1 = self.read_rune();
            if ch1 == '.' {
                self.unread_rune();
                let fraction = self.fetch_numeric_after_period()?;
                proof {
                    lemma_digits_end(s, q + 1);
                    lemma_exponent_end(s, digits_end(s, q + 1));
                    lemma_subrange_concat(s, p, q, self.ch_index as int);
                }
                numeric_literal.append(fraction.as_str());
            } else {
                self.unread_rune();
            }
            let ghost r = self.ch_index as int;
            let after_e = self.fetch_numeric_after_e()?;
            proof {
                lemma_exponent_end(s, r);
                lemma_subrange_concat(s, p, r, self.ch_index as int);
            }
            numeric_literal.append(after_e.as_str());
            Ok(numeric_literal)
        } else if ch1 == '.' {
            self.unread_rune();
            self.fetch_numeric_after_period()
        } else {
            self.unread_rune();
            assert(numeric_literal@ =~= s.subrange(p, p));
            Ok(numeric_literal)
        }
    }

    fn fetch_numerics(&mut self) -> (res: Result<Token, XPathError>)
        requires
            old(self).ch_index <= old(self).char_vec@.len(),
            old(self).char_vec@.len() + 4 <= usize::MAX,
        ensures
            match numeric_end(old(self).char_vec@, old(self).ch_index as int) {
                Some(e) => {
                    let lit = old(self).char_vec@.subrange(old(self).ch_index as int, e);
                    res matches Ok(tok) && tok@ == (numeric_type(lit), lit) && final(self).ch_index == e
                },
                None => res matches Err(err) && err.kind == XPathErrorKind::SyntaxError,
            },
            final(self).same_but_position(old(self)),
    {
        let literal = self.fetch_numeric_literal()?;
        if string_contains_char(&literal, 'e') || string_contains_char(&literal, 'E') {
            Ok(Token { t_type: TType::DoubleLiteral, name: literal })
        } else if string_contains_char(&literal, '.') {
            Ok(Token { t_type: TType::DecimalLiteral, name: literal })
        } else {
            Ok(Token { t_type: TType::IntegerLiteral, name: literal })
        }
    }

    /// A string literal after its opening `delim`; a doubled `delim` stands
    /// for one.
    fn fetch_string_literal(&mut self, delim: char) -> (res: Result<String, XPathError>)
        requires
            old(self).ch_index <= old(self).char_vec@.len(),
            old(self).char_vec@.len() + 4 <= usize::MAX,
            delim != EOF,
        ensures
            match string_literal_from(old(self).char_vec@, old(self).ch_index as int, delim, Seq::empty()) {
                Some((lit, j)) => res matches Ok(r) && r@ == lit && final(self).ch_index == j,
                None => res matches Err(err) && err.kind == XPathErrorKind::SyntaxError,
            },
            final(self).same_but_position(old(self)),
    {
        let ghost s = self.char_vec@;
        proof {
            lemma_eof_class();
        }
        let ghost start = self.ch_index as int;
        let mut string_literal = String::new();
        loop
            invariant
                s == self.char_vec@,
                s.len() + 4 <= usize::MAX,
                0 <= start,
                start == old(self).ch_index as int,
                s == old(self).char_vec@,
                self.ch_index <= s.len(),
                delim != EOF,
                string_literal_from(s, start, delim, Seq::empty())
                    == string_literal_from(s, self.ch_index as int, delim, string_literal@),
                self.same_but_position(old(self)),
            decreases s.len() - self.ch_index,
        {
            let ch1 = self.read_rune();
            if is_eof(ch1) {
                return Err(new_error(XPathErrorKind::SyntaxError,
                    "Unexpected EOF while scanning string literal."));
            } else if ch1 == delim {
                let ch2 = self.read_rune();
                if ch2 == delim {
                    push_char(&mut string_literal, ch2);
                } else {
                    self.unread_rune();
                    return Ok(string_literal);
                }
            } else {
                push_char(&mut string_literal, ch1);
            }
        }
    }

    /// The text up to and including the next `delim`.
    fn fetch_until(&mut self, delim: char) -> (res: Result<String, XPathError>)
        requires
            old(self).ch_index <= old(self).char_vec@.len(),
            old(self).char_vec@.len() + 4 <= usize::MAX,
        ensures
            match until_end(old(self).char_vec@, old(self).ch_index as int, delim) {
                Some(j) => res matches Ok(r) && r@ == old(self).char_vec@.subrange(
                    old(self).ch_index as int,
                    j,
                ) && final(self).ch_index == j,
                None => res matches Err(err) && err.kind == XPathErrorKind::SyntaxError,
            },
            final(self).same_but_position(old(self)),
    {
        let ghost s = self.char_vec@;
        proof {
            lemma_eof_class();
        }
        let ghost start = self.ch_index as int;
        let mut literal = String::new();
        loop
            invariant
                s == self.char_vec@,
                s.len() + 4 <= usize::MAX,
                0 <= start,
                start == old(self).ch_index as int,
                s == old(self).char_vec@,
                start <= self.ch_index <= s.len(),
                until_end(s, start, delim) == until_end(s, self.ch_index as int, delim),
                literal@ == s.subrange(start, self.ch_index as int),
                self.same_but_position(old(self)),
            decreases s.len() - self.ch_index,
        {
            let ghost q = self.ch_index as int;
            let ch1 = self.read_rune();
            if is_eof(ch1) {
                return Err(new_error(XPathErrorKind::SyntaxError, "Unexpected EOF while scanning."));
            }
            push_char(&mut literal, ch1);
            proof { lemma_subrange_push(s, start, q); }
            if ch1 == delim {
                return Ok(literal);
            }
        }
    }

    /// Skips a comment whose opening `(:` has been read; comments nest.
    fn skip_comment(&mut self) -> (res: Result<(), XPathError>)
        requires
            old(self).ch_index <= old(self).char_vec@.len(),
            old(self).char_vec@.len() + 4 <= usize::MAX,
        ensures
            match comment_end(old(self).char_vec@, old(self).ch_index as int, 1) {
                Some(j) => res is Ok && final(self).ch_index == j,
                None => res matches Err(err) && err.kind == XPathErrorKind::SyntaxError,
            },
            final(self).same_but_position(old(self)),
    {
        let ghost s = self.char_vec@;
        proof {
            lemma_eof_class();
        }
        let ghost start = self.ch_index as int;
        let mut nest_level: usize = 1;
        while 0 < nest_level
            invariant
                s == self.char_vec@,
                s.len() + 4 <= usize::MAX,
                0 <= start,
                start == old(self).ch_index as int,
                s == old(self).char_vec@,
                self.ch_index <= s.len(),
                nest_level <= self.ch_index + 1,
                comment_end(s, start, 1) == comment_end(s, self.ch_index as int, nest_level as nat),
                self.same_but_position(old(self)),
            decreases s.len() - self.ch_index,
        {
            let ch1 = self.read_rune();
            if is_eof(ch1) {
                return Err(new_error(XPathErrorKind::SyntaxError,
                    "Unexpected EOF while scanning comment."));
            } else if ch1 == '(' {
                let ch2 = self.read_rune();
                if ch2 == ':' {
                    nest_level += 1;
                } else {
                    self.unread_rune();
                }
            } else if ch1 == ':' {
                let ch2 = self.read_rune();
                if ch2 == ')' {
                    nest_level -= 1;
                } else {
                    self.unread_rune();
                }
            }
        }
        Ok(())
    }

    // -----------------------------------------------------------------
    // One token.

    fn get_tok(&mut self) -> (res: Result<Token, XPathError>)
        requires
            old(self).ch_index <= old(self).char_vec@.len() + 1,
            old(self).char_vec@.len() + 4 <= usize::MAX,
        ensures
            match scan_token(old(self).char_vec@, old(self).ch_index as int) {
                Ok((t, text, j)) => res matches Ok(tok) && tok@ == (t, text) && final(self).ch_index == j,
                Err(_) => res matches Err(err) && err.kind == XPathErrorKind::SyntaxError,
            },
            final(self).same_but_position(old(self)),
    {
        let ghost s = self.char_vec@;
        proof {
            lemma_eof_class();
        }
        let ghost p = self.ch_index as int;
        proof {
            reveal_strlit("(:");
            reveal_strlit("Q{");
            reveal_strlit("");
            lemma_keyword_texts();
        }
        if self.look_ahead_keyword("(:") {
            proof {
                assert(text_ok("(:"@));
                lemma_keyword_within(s, p, "(:"@);
            }
            self.skip_comment()?;
            return Ok(new_token(TType::Nop, ""));
        }

        if self.look_ahead_keyword("Q{") {
            proof {
                assert(text_ok("Q{"@));
                lemma_keyword_within(s, p, "Q{"@);
            }
            self.unread_rune();
            self.unread_rune();
            let literal = self.fetch_until('}')?;
            return Ok(Token { t_type: TType::BracedURILiteral, name: literal });
        }

        let keywords_spec: [(&str, TType); 34] = [
            ("//", TType::SlashSlash),
            ("/", TType::Slash),
            ("::", TType::ColonColon),
            (":=", TType::Bind),
            (":*", TType::ColonAsterisk),
            (":", TType::Colon),
            ("=>", TType::Arrow),
            ("=", TType::GeneralEQ),
            ("!=", TType::GeneralNE),
            ("!", TType::OperatorMap),
            ("||", TType::OperatorConcat),
            ("|", TType::Union),
            ("<=", TType::GeneralLE),
            ("<<", TType::NodeBefore),
            ("<", TType::GeneralLT),
            (">=", TType::GeneralGE),
            (">>", TType::NodeAfter),
            (">", TType::GeneralGT),
            (",", TType::Comma),
            ("?", TType::Question),
            ("+", TType::Plus),
            ("-", TType::Minus),
            ("*:", TType::AsteriskColon),
            ("*", TType::Asterisk),
            ("$", TType::Dollar),
            ("[", TType::LeftBracket),
            ("]", TType::RightBracket),
            ("(", TType::LeftParen),
            (")", TType::RightParen),
            ("@", TType::At),
            ("#", TType::Sharp),
            ("{", TType::LeftCurly),
            ("}", TType::RightCurly),
            ("..", TType::DotDot),
        ];
        assert forall|m: int| 0 <= m < 34 implies
            (#[trigger] keywords_spec@[m]).0@ == keyword_table()[m].0 && keywords_spec@[m].1 == keyword_table()[m].1 by {
            if m == 0 {
                assert(keywords_spec@[m].0@ == keyword_table()[m].0 && keywords_spec@[m].1 == keyword_table()[m].1);
            } else if m == 1 {
                assert(keywords_spec@[m].0@ == keyword_table()[m].0 && keywords_spec@[m].1 == keyword_table()[m].1);
            } else if m == 2 {
                assert(keywords_spec@[m].0@ == keyword_table()[m].0 && keywords_spec@[m].1 == keyword_table()[m].1);
            } else if m == 3 {
                assert(keywords_spec@[m].0@ == keyword_table()[m].0 && keywords_spec@[m].1 == keyword_table()[m].1);
            } else if m == 4 {
                assert(keywords_spec@[m].0@ == keyword_table()[m].0 && keywords_spec@[m].1 == keyword_table()[m].1);
            } else if m == 5 {
                assert(keywords_spec@[m].0@ == keyword_table()[m].0 && keywords_spec@[m].1 == keyword_table()[m].1);
            } else if m == 6 {
                assert(keywords_spec@[m].0@ == keyword_table()[m].0 && keywords_spec@[m].1 == keyword_table()[m].1);
            } else if m == 7 {
                assert(keywords_spec@[m].0@ == keyword_table()[m].0 && keywords_spec@[m].1 == keyword_table()[m].1);
            } else if m == 8 {
                assert(keywords_spec@[m].0@ == keyword_table()[m].0 && keywords_spec@[m].1 == keyword_table()[m].1);
            } else if m == 9 {
                assert(keywords_spec@[m].0@ == keyword_table()[m].0 && keywords_spec@[m].1 == keyword_table()[m].1);
            } else if m == 10 {
                assert(keywords_spec@[m].0@ == keyword_table()[m].0 && keywords_spec@[m].1 == keyword_table()[m].1);
            } else if m == 11 {
                assert(keywords_spec@[m].0@ == keyword_table()[m].0 && keywords_spec@[m].1 == keyword_table()[m].1);
            } else if m == 12 {
                assert(keywords_spec@[m].0@ == keyword_table()[m].0 && keywords_spec@[m].1 == keyword_table()[m].1);
            } else if m == 13 {
                assert(keywords_spec@[m].0@ == keyword_table()[m].0 && keywords_spec@[m].1 == keyword_table()[m].1);
            } else if m == 14 {
                assert(keywords_spec@[m].0@ == keyword_table()[m].0 && keywords_spec@[m].1 == keyword_table()[m].1);
            } else if m == 15 {
                assert(keywords_spec@[m].0@ == keyword_table()[m].0 && keywords_spec@[m].1 == keyword_table()[m].1);
            } else if m == 16 {
                assert(keywords_spec@[m].0@ == keyword_table()[m].0 && keywords_spec@[m].1 == keyword_table()[m].1);
            } else if m == 17 {
                assert(keywords_spec@[m].0@ == keyword_table()[m].0 && keywords_spec@[m].1 == keyword_table()[m].1);
            } else if m == 18 {
                assert(keywords_spec@[m].0@ == keyword_table()[m].0 && keywords_spec@[m].1 == keyword_table()[m].1);
            } else if m == 19 {
                assert(keywords_spec@[m].0@ == keyword_table()[m].0 && keywords_spec@[m].1 == keyword_table()[m].1);
            } else if m == 20 {
                assert(keywords_spec@[m].0@ == keyword_table()[m].0 && keywords_spec@[m].1 == keyword_table()[m].1);
            } else if m == 21 {
                assert(keywords_spec@[m].0@ == keyword_table()[m].0 && keywords_spec@[m].1 == keyword_table()[m].1);
            } else if m == 22 {
                assert(keywords_spec@[m].0@ == keyword_table()[m].0 && keywords_spec@[m].1 == keyword_table()[m].1);
            } else if m == 23 {
                assert(keywords_spec@[m].0@ == keyword_table()[m].0 && keywords_spec@[m].1 == keyword_table()[m].1);
            } else if m == 24 {
                assert(keywords_spec@[m].0@ == keyword_table()[m].0 && keywords_spec@[m].1 == keyword_table()[m].1);
            } else if m == 25 {
                assert(keywords_spec@[m].0@ == keyword_table()[m].0 && keywords_spec@[m].1 == keyword_table()[m].1);
            } else if m == 26 {
                assert(keywords_spec@[m].0@ == keyword_table()[m].0 && keywords_spec@[m].1 == keyword_table()[m].1);
            } else if m == 27 {
                assert(keywords_spec@[m].0@ == keyword_table()[m].0 && keywords_spec@[m].1 == keyword_table()[m].1);
            } else if m == 28 {
                assert(keywords_spec@[m].0@ == keyword_table()[m].0 && keywords_spec@[m].1 == keyword_table()[m].1);
            } else if m == 29 {
                assert(keywords_spec@[m].0@ == keyword_table()[m].0 && keywords_spec@[m].1 == keyword_table()[m].1);
            } else if m == 30 {
                assert(keywords_spec@[m].0@ == keyword_table()[m].0 && keywords_spec@[m].1 == keyword_table()[m].1);
            } else if m == 31 {
                assert(keywords_spec@[m].0@ == keyword_table()[m].0 && keywords_spec@[m].1 == keyword_table()[m].1);
            } else if m == 32 {
                assert(keywords_spec@[m].0@ == keyword_table()[m].0 && keywords_spec@[m].1 == keyword_table()[m].1);
            } else if m == 33 {
                assert(keywords_spec@[m].0@ == keyword_table()[m].0 && keywords_spec@[m].1 == keyword_table()[m].1);
            }
        }
        let mut k: usize = 0;
        while k < 34
            invariant
                0 <= k <= 34,
                s == self.char_vec@,
                s.len() + 4 <= usize::MAX,
                self.ch_index == p,
                p <= s.len() + 1,
                first_keyword(s, p, 0) == first_keyword(s, p, k as int),
                !keyword_at(s, p, "(:"@),
                !keyword_at(s, p, "Q{"@),
                0 <= p,
                p == old(self).ch_index as int,
                s == old(self).char_vec@,
                forall|m: int| 0 <= m < 34 ==>
                    (#[trigger] keywords_spec@[m]).0@ == keyword_table()[m].0 && keywords_spec@[m].1 == keyword_table()[m].1,
                forall|m: int| 0 <= m < keyword_table().len() ==> #[trigger] text_ok(keyword_table()[m].0),
                self.same_but_position(old(self)),
            decreases 34 - k,
        {
            let (keyword, ttype) = keywords_spec[k];
            assert(keywords_spec@[k as int].0@ == keyword_table()[k as int].0);
            assert(text_ok(keyword_table()[k as int].0));
            if self.look_ahead_keyword(keyword) {
                assert(first_keyword(s, p, k as int) == Some(keyword_table()[k as int]));
                return Ok(new_token(ttype, keyword));
            }
            k += 1;
        }

        let ch1 = self.read_rune();
        if is_eof(ch1) {
            return Ok(new_token(TType::EOF, ""));
        } else if is_name_start_char(ch1) {
            let mut name = String::new();
            push_char(&mut name, ch1);
            let mut ch2 = self.read_rune();
            while is_name_char(ch2)
                invariant
                    s == self.char_vec@,
                    s.len() + 4 <= usize::MAX,
                    0 <= p,
                    p + 2 <= self.ch_index <= s.len() + 1,
                    ch2 == char_at(s, self.ch_index - 1),
                    name_chars_end(s, self.ch_index - 1) == name_chars_end(s, p + 1),
                    name@ == s.subrange(p, self.ch_index - 1),
                    self.same_but_position(old(self)),
                decreases s.len() + 1 - self.ch_index,
            {
                let ghost q = self.ch_index - 1;
                assert(0 <= q < s.len());
                push_char(&mut name, ch2);
                proof { lemma_subrange_push(s, p, q); }
                ch2 = self.read_rune();
            }
            self.unread_rune();
            return Ok(Token { t_type: TType::InnerName, name });
        } else if ch1 == '"' || ch1 == '\'' {
            let literal = self.fetch_string_literal(ch1)?;
            return Ok(Token { t_type: TType::StringLiteral, name: literal });
        } else if is_digit(ch1) {
            self.unread_rune();
            return self.fetch_numerics();
        } else if ch1 == '.' {
            let ch2 = self.read_rune();
            if is_digit(ch2) {
                self.unread_rune();
                self.unread_rune();
                return self.fetch_numerics();
            } else {
                self.unread_rune();
                return Ok(new_token(TType::Dot, "."));
            }
        } else {
            return Err(new_error(XPathErrorKind::SyntaxError,
                "a character that cannot start any token of XPath"));
        }
    }
}

/// Whether `s` holds the character `c`.
fn string_contains_char(s: &String, c: char) -> (res: bool)
    ensures
        res == s@.contains(c),
{
    let t = s.as_str();
    let n = t.unicode_len();
    let mut i: usize = 0;
    while i < n
        invariant
            n == s@.len(),
            t@ == s@,
            0 <= i <= n,
            forall|k: int| 0 <= k < i ==> s@[k] != c,
        decreases n - i,
    {
        if t.get_char(i) == c {
            return true;
        }
        i += 1;
    }
    false
}


// =====================================================================
// Facts about classification.

/// The tokens between the end markers are all classified: none is a bare
/// word or a `Nop`.
pub open spec fn classified(t: Seq<TokenV>) -> bool {
    forall|k: int| 1 <= k < t.len() - 1 ==> #[trigger] t[k].0 != TType::Nop && t[k].0 != TType::InnerName
}

proof fn lemma_scan_from_types(s: Seq<char>, i: int)
    requires
        0 <= i,
    ensures
        scan_from(s, i) matches Ok(r) ==> forall|k: int| 0 <= k < r.len()
            ==> #[trigger] r[k].0 != TType::EOF && r[k].0 != TType::Nop,
    decreases s.len() + 2 - i,
{
    let p = spaces_end(s, i);
    match scan_token(s, p) {
        Err(_) => {},
        Ok((t, text, j)) => {
            if t != TType::EOF && i < j && j <= s.len() {
                lemma_scan_from_types(s, j);
                match scan_from(s, j) {
                    Ok(rest) => {
                        if t != TType::Nop {
                            let r = seq![(t, text)] + rest;
                            assert forall|k: int| 0 <= k < r.len() implies #[trigger] r[k].0 != TType::EOF
                                && r[k].0 != TType::Nop by {
                                if k > 0 {
                                    assert(r[k] == rest[k - 1]);
                                }
                            }
                        }
                    },
                    Err(_) => {},
                }
            }
        },
    }
}

proof fn lemma_framed(raw: Seq<TokenV>)
    requires
        forall|k: int| 0 <= k < raw.len() ==> #[trigger] raw[k].0 != TType::EOF && raw[k].0 != TType::Nop,
    ensures
        framed_ok(framed(raw)),
        framed(raw).len() == raw.len() + 2,
        forall|k: int| 1 <= k < framed(raw).len() - 1 ==> #[trigger] framed(raw)[k].0 != TType::Nop,
{
    let f = framed(raw);
    assert forall|k: int| 1 <= k < f.len() - 1 implies #[trigger] f[k].0 != TType::EOF && f[k].0 != TType::Nop by {
        assert(f[k] == raw[k - 1]);
    }
}

proof fn lemma_rewrite_operators(t: Seq<TokenV>)
    requires
        framed_ok(t),
        forall|k: int| 1 <= k < t.len() - 1 ==> #[trigger] t[k].0 != TType::Nop,
    ensures
        framed_ok(rewrite_operators(t)),
        rewrite_operators(t).len() == t.len(),
        forall|k: int| 1 <= k < t.len() - 1 ==> #[trigger] rewrite_operators(t)[k].0 != TType::Nop,
{
    let r = rewrite_operators(t);
    assert forall|k: int| 1 <= k < r.len() - 1 implies #[trigger] r[k].0 != TType::EOF && r[k].0 != TType::Nop by {
        assert(t[k].0 != TType::EOF);
    }
}

proof fn lemma_pairs_upto(u: Seq<TokenV>, n: int)
    requires
        framed_ok(u),
        1 <= n <= u.len() - 2,
        u[1].0 != TType::Nop,
    ensures
        pairs_upto(u, n).len() == u.len(),
        pairs_upto(u, n)[0] == u[0],
        pairs_upto(u, n)[1].0 != TType::Nop,
        forall|k: int| n + 1 <= k < u.len() ==> #[trigger] pairs_upto(u, n)[k] == u[k],
        framed_ok(pairs_upto(u, n)),
    decreases n,
{
    if n > 1 {
        lemma_pairs_upto(u, n - 1);
        let r = pairs_upto(u, n - 1);
        let q = pair_step(r, n - 1);
        assert forall|k: int| 1 <= k < q.len() - 1 implies #[trigger] q[k].0 != TType::EOF by {
            if k != n - 1 && k != n {
                assert(q[k] == r[k]);
            }
        }
    }
}

proof fn lemma_drop_nops_push(s: Seq<TokenV>, e: TokenV)
    requires
        e.0 != TType::Nop,
    ensures
        drop_nops(s.push(e)) == drop_nops(s).push(e),
    decreases s.len(),
{
    if s.len() == 0 {
        assert(s.push(e).drop_first() =~= s);
        assert(drop_nops(s.push(e)) =~= drop_nops(s).push(e));
    } else {
        assert(s.push(e).drop_first() =~= s.drop_first().push(e));
        lemma_drop_nops_push(s.drop_first(), e);
        if s[0].0 != TType::Nop {
            assert(seq![s[0]] + drop_nops(s.drop_first()).push(e) =~= (seq![s[0]] + drop_nops(
                s.drop_first(),
            )).push(e));
        }
    }
}

proof fn lemma_drop_nops_types(s: Seq<TokenV>)
    ensures
        forall|k: int| 0 <= k < drop_nops(s).len() ==> #[trigger] drop_nops(s)[k].0 != TType::Nop,
        (forall|j: int| 0 <= j < s.len() ==> #[trigger] s[j].0 != TType::EOF) ==> forall|k: int|
            0 <= k < drop_nops(s).len() ==> #[trigger] drop_nops(s)[k].0 != TType::EOF,
        s.len() > 0 && s[0].0 != TType::Nop ==> drop_nops(s).len() > 0 && drop_nops(s)[0] == s[0],
    decreases s.len(),
{
    if s.len() > 0 {
        let rest = s.drop_first();
        lemma_drop_nops_types(rest);
        if (forall|j: int| 0 <= j < s.len() ==> #[trigger] s[j].0 != TType::EOF) {
            assert forall|j: int| 0 <= j < rest.len() implies #[trigger] rest[j].0 != TType::EOF by {
                assert(rest[j] == s[j + 1]);
            }
        }
        if s[0].0 != TType::Nop {
            let d = drop_nops(s);
            assert forall|k: int| 0 <= k < d.len() && k > 0 implies d[k] == drop_nops(rest)[k - 1] by {}
        }
    }
}

proof fn lemma_eliminate_nops(t: Seq<TokenV>)
    requires
        framed_ok(t),
        t.len() >= 3,
        t[1].0 != TType::Nop,
    ensures
        framed_ok(eliminate_nops(t)),
        eliminate_nops(t).len() >= 3,
        forall|k: int| 1 <= k < eliminate_nops(t).len() - 1 ==> #[trigger] eliminate_nops(t)[k].0 != TType::Nop,
{
    let mid = t.subrange(1, t.len() - 1);
    let last = t[t.len() - 1];
    assert(t.subrange(1, t.len() as int) =~= mid.push(last));
    lemma_drop_nops_push(mid, last);
    lemma_drop_nops_types(mid);
    assert forall|j: int| 0 <= j < mid.len() implies #[trigger] mid[j].0 != TType::EOF by {
        assert(mid[j] == t[j + 1]);
    }
    assert(mid[0] == t[1]);
    let d = drop_nops(mid);
    let e = eliminate_nops(t);
    assert(e =~= seq![t[0]] + d.push(last));
    assert forall|k: int| 1 <= k < e.len() - 1 implies #[trigger] e[k].0 != TType::EOF && e[k].0 != TType::Nop by {
        assert(e[k] == d[k - 1]);
    }
}

proof fn lemma_rewrite_names(t: Seq<TokenV>)
    requires
        framed_ok(t),
        forall|k: int| 1 <= k < t.len() - 1 ==> #[trigger] t[k].0 != TType::Nop,
    ensures
        framed_ok(rewrite_names(t)),
        classified(rewrite_names(t)),
        rewrite_names(t).len() == t.len(),
{
    let r = rewrite_names(t);
    assert forall|k: int| 1 <= k < r.len() - 1 implies #[trigger] r[k].0 != TType::EOF && r[k].0 != TType::Nop
        && r[k].0 != TType::InnerName by {
        if t[k].0 == TType::InnerName {
            lemma_name_symbol_kinds(t[k].1, t[k + 1].0, name_symbol_table().len() as int);
        }
    }
}

proof fn lemma_name_symbol_kinds(name: Seq<char>, next: TType, n: int)
    requires
        n <= name_symbol_table().len(),
    ensures
        name_symbol_upto(name, next, n) matches Some(x) ==> x != TType::EOF && x != TType::Nop && x != TType::InnerName,
    decreases n,
{
    if n > 0 {
        lemma_name_symbol_kinds(name, next, n - 1);
    }
}

/// Whatever the input, a token list that lexing gives lies between two end
/// markers with no end marker inside, holds at least one token, and every
/// token in it is classified (no bare word, no `Nop`).
pub proof fn law_tokenize_shape(s: Seq<char>)
    requires
        spec_tokenize(s) is Ok,
    ensures
        framed_ok(spec_tokenize(s).unwrap()),
        classified(spec_tokenize(s).unwrap()),
        spec_tokenize(s).unwrap().len() >= 3,
{
    lemma_scan_from_types(s, 0);
    let raw = scan_from(s, 0).unwrap();
    let f = framed(raw);
    lemma_framed(raw);
    assert(f[1] == raw[0]);
    lemma_rewrite_operators(f);
    let o = rewrite_operators(f);
    lemma_pairs_upto(o, o.len() - 2);
    let p = rewrite_pairs(o);
    assert forall|k: int| 1 <= k < p.len() - 1 implies #[trigger] p[k].0 != TType::EOF by {}
    lemma_eliminate_nops(p);
    lemma_rewrite_names(eliminate_nops(p));
}

// =====================================================================
// Classification, executable.

fn operand_expected(t: TType) -> (r: bool)
    ensures
        r == operand_expected_after(t),
{
    match t {
        TType::EOF
        | TType::At
        | TType::ColonColon
        | TType::LeftParen
        | TType::LeftBracket
        | TType::Comma
        | TType::And
        | TType::Or
        | TType::Div
        | TType::IDiv
        | TType::Mod
        | TType::Slash
        | TType::SlashSlash
        | TType::Union
        | TType::Intersect
        | TType::Except
        | TType::InstanceOf
        | TType::TreatAs
        | TType::CastableAs
        | TType::CastAs
        | TType::Plus
        | TType::Minus
        | TType::ValueEQ
        | TType::ValueNE
        | TType::ValueGT
        | TType::ValueGE
        | TType::ValueLT
        | TType::ValueLE
        | TType::GeneralEQ
        | TType::GeneralNE
        | TType::GeneralGT
        | TType::GeneralGE
        | TType::GeneralLT
        | TType::GeneralLE
        | TType::IsSameNode
        | TType::To
        | TType::NodeBefore
        | TType::NodeAfter
        | TType::Asterisk
        | TType::Colon => true,
        _ => false,
    }
}

fn operator_word_exec(name: &str) -> (r: Option<TType>)
    ensures
        r == operator_word(name@),
{
    if str_eq(name, "and") {
        Some(TType::And)
    } else if str_eq(name, "or") {
        Some(TType::Or)
    } else if str_eq(name, "div") {
        Some(TType::Div)
    } else if str_eq(name, "mod") {
        Some(TType::Mod)
    } else if str_eq(name, "idiv") {
        Some(TType::IDiv)
    } else if str_eq(name, "eq") {
        Some(TType::ValueEQ)
    } else if str_eq(name, "ne") {
        Some(TType::ValueNE)
    } else if str_eq(name, "lt") {
        Some(TType::ValueLT)
    } else if str_eq(name, "le") {
        Some(TType::ValueLE)
    } else if str_eq(name, "gt") {
        Some(TType::ValueGT)
    } else if str_eq(name, "ge") {
        Some(TType::ValueGE)
    } else if str_eq(name, "is") {
        Some(TType::IsSameNode)
    } else if str_eq(name, "to") {
        Some(TType::To)
    } else if str_eq(name, "union") {
        Some(TType::Union)
    } else if str_eq(name, "intersect") {
        Some(TType::Intersect)
    } else if str_eq(name, "except") {
        Some(TType::Except)
    } else {
        None
    }
}

fn pair_word_exec(a: &str, b: &str) -> (r: Option<TType>)
    ensures
        r == pair_word(a@, b@),
{
    if str_eq(a, "instance") && str_eq(b, "of") {
        Some(TType::InstanceOf)
    } else if str_eq(a, "treat") && str_eq(b, "as") {
        Some(TType::TreatAs)
    } else if str_eq(a, "castable") && str_eq(b, "as") {
        Some(TType::CastableAs)
    } else if str_eq(a, "cast") && str_eq(b, "as") {
        Some(TType::CastAs)
    } else {
        None
    }
}

impl Lexer {
    spec fn same_but_tokens(&self, other: &Lexer) -> bool {
        &&& self.char_vec@ == other.char_vec@
        &&& self.ch_index == other.ch_index
        &&& self.index == other.index
        &&& self.mark_index == other.mark_index
    }

    fn push_token(&mut self, ttype: TType, name: &str)
        ensures
            final(self).tokens_v() == old(self).tokens_v().push((ttype, name@)),
            final(self).same_but_tokens(old(self)),
    {
        self.tokens.push(Token { t_type: ttype, name: String::from_str(name) });
        proof {
            assert(self.tokens_v() =~= old(self).tokens_v().push((ttype, name@)));
        }
    }

    fn set_token(&mut self, i: usize, tok: Token)
        requires
            i < old(self).tokens@.len(),
        ensures
            final(self).tokens_v() == old(self).tokens_v().update(i as int, tok@),
            final(self).tokens@.len() == old(self).tokens@.len(),
            final(self).same_but_tokens(old(self)),
    {
        let ghost v = tok@;
        self.tokens.set(i, tok);
        proof {
            assert(self.tokens_v() =~= old(self).tokens_v().update(i as int, v));
        }
    }

    fn rewrite_operator_type(&mut self)
        requires
            framed_ok(old(self).tokens_v()),
        ensures
            final(self).tokens_v() == rewrite_operators(old(self).tokens_v()),
            final(self).same_but_tokens(old(self)),
    {
        let ghost t = self.tokens_v();
        let n = self.tokens.len();
        let mut i: usize = 1;
        while self.tokens[i].t_type != TType::EOF
            invariant
                framed_ok(t),
                n == t.len(),
                t == old(self).tokens_v(),
                self.tokens_v().len() == t.len(),
                self.tokens@.len() == t.len(),
                1 <= i < t.len(),
                forall|k: int| 1 <= k < i ==> #[trigger] self.tokens_v()[k] == (operator_type_at(t, k), t[k].1),
                forall|k: int| (k == 0 || i <= k < t.len()) ==> #[trigger] self.tokens_v()[k] == t[k],
                self.same_but_tokens(old(self)),
            decreases t.len() - i,
        {
            assert(self.tokens_v()[i as int - 1].0 == operator_type_at(t, i - 1));
            assert(self.tokens_v()[i as int] == t[i as int]);
            let prev = self.tokens[i - 1].t_type;
            if !operand_expected(prev) && self.tokens[i].t_type == TType::InnerName {
                match operator_word_exec(self.tokens[i].name.as_str()) {
                    Some(op_type) => {
                        let tok = Token { t_type: op_type, name: self.tokens[i].name.clone() };
                        self.set_token(i, tok);
                    },
                    None => {},
                }
            }
            assert(self.tokens_v()[i as int] == (operator_type_at(t, i as int), t[i as int].1));
            i += 1;
        }
        assert(self.tokens_v()[i as int] == t[i as int]);
        assert(self.tokens_v()[i as int].0 == TType::EOF);
        assert(self.tokens_v() =~= rewrite_operators(t));
    }

    fn rewrite_pair_words(&mut self)
        requires
            framed_ok(old(self).tokens_v()),
            old(self).tokens_v().len() >= 3,
            old(self).tokens_v()[1].0 != TType::Nop,
        ensures
            final(self).tokens_v() == rewrite_pairs(old(self).tokens_v()),
            final(self).same_but_tokens(old(self)),
    {
        let ghost t = self.tokens_v();
        let n = self.tokens.len();
        let mut i: usize = 1;
        proof {
            lemma_pairs_upto(t, 1);
        }
        while self.tokens[i + 1].t_type != TType::EOF
            invariant
                framed_ok(t),
                n == t.len(),
                t.len() >= 3,
                t[1].0 != TType::Nop,
                t == old(self).tokens_v(),
                self.tokens@.len() == t.len(),
                1 <= i <= t.len() - 2,
                self.tokens_v() == pairs_upto(t, i as int),
                self.same_but_tokens(old(self)),
            decreases t.len() - i,
        {
            proof {
                lemma_pairs_upto(t, i as int);
            }
            assert(self.tokens_v()[i as int + 1] == t[i as int + 1]);
            let ghost u = self.tokens_v();
            if self.tokens[i].t_type == TType::InnerName && self.tokens[i + 1].t_type == TType::InnerName {
                assert(u[i as int].0 == TType::InnerName && u[i as int + 1].0 == TType::InnerName);
                match pair_word_exec(self.tokens[i].name.as_str(), self.tokens[i + 1].name.as_str()) {
                    Some(t_type) => {
                        let tok1 = Token { t_type, name: self.tokens[i].name.clone() };
                        assert(tok1@ == (t_type, u[i as int].1));
                        self.set_token(i, tok1);
                        assert(self.tokens_v()[i as int + 1] == u[i as int + 1]);
                        let tok2 = Token { t_type: TType::Nop, name: self.tokens[i + 1].name.clone() };
                        assert(tok2@ == (TType::Nop, u[i as int + 1].1));
                        self.set_token(i + 1, tok2);
                    },
                    None => {},
                }
            } else {
                assert(!(u[i as int].0 == TType::InnerName && u[i as int + 1].0 == TType::InnerName));
            }
            assert(self.tokens_v() =~= pair_step(pairs_upto(t, i as int), i as int));
            i += 1;
        }
        proof {
            lemma_pairs_upto(t, i as int);
        }
        assert(self.tokens_v()[i as int + 1] == t[i as int + 1]);
        assert(self.tokens_v()[i as int + 1].0 == TType::EOF);
    }

    fn eliminate_nops(&mut self)
        requires
            old(self).tokens_v().len() >= 1,
        ensures
            final(self).tokens_v() == eliminate_nops(old(self).tokens_v()),
            final(self).same_but_tokens(old(self)),
    {
        let ghost t = self.tokens_v();
        let mut i = self.tokens.len() - 1;
        assert(t.subrange(i as int + 1, t.len() as int) =~= Seq::<TokenV>::empty());
        assert(self.tokens_v() =~= t.subrange(0, i as int + 1) + drop_nops(t.subrange(i as int + 1, t.len() as int)));
        while 0 < i
            invariant
                t == old(self).tokens_v(),
                0 <= i < t.len(),
                self.tokens_v() == t.subrange(0, i as int + 1) + drop_nops(t.subrange(i as int + 1, t.len() as int)),
                self.tokens@.len() == self.tokens_v().len(),
                self.same_but_tokens(old(self)),
            decreases i,
        {
            let ghost rest = t.subrange(i as int + 1, t.len() as int);
            assert(t.subrange(i as int, t.len() as int).drop_first() =~= rest);
            assert(self.tokens_v()[i as int] == t[i as int]);
            if self.tokens[i].t_type == TType::Nop {
                let ghost before = self.tokens_v();
                self.tokens.remove(i);
                proof {
                    assert(self.tokens_v() =~= before.remove(i as int));
                    assert(drop_nops(t.subrange(i as int, t.len() as int)) == drop_nops(rest));
                    assert(before.remove(i as int) =~= t.subrange(0, i as int) + drop_nops(rest));
                }
            } else {
                assert(self.tokens_v() =~= t.subrange(0, i as int) + drop_nops(
                    t.subrange(i as int, t.len() as int),
                ));
            }
            i -= 1;
        }
        assert(t.subrange(0, 1) =~= seq![t[0]]);
    }

    fn rewrite_name_and_symbol(&mut self)
        requires
            framed_ok(old(self).tokens_v()),
        ensures
            final(self).tokens_v() == rewrite_names(old(self).tokens_v()),
            final(self).same_but_tokens(old(self)),
    {
        let ghost t = self.tokens_v();
        let tbl: [(&str, TType, TType); 37] = [
            ("array", TType::LeftParen, TType::ArrayTest),
            ("array", TType::LeftCurly, TType::Array),
            ("attribute", TType::LeftParen, TType::AttributeTest),
            ("comment", TType::LeftParen, TType::CommentTest),
            ("document-node", TType::LeftParen, TType::DocumentTest),
            ("element", TType::LeftParen, TType::ElementTest),
            ("empty-sequence", TType::LeftParen, TType::EmptySequence),
            ("function", TType::LeftParen, TType::Function),
            ("if", TType::LeftParen, TType::If),
            ("item", TType::LeftParen, TType::Item),
            ("map", TType::LeftParen, TType::MapTest),
            ("map", TType::LeftCurly, TType::MapKw),
            ("namespace-node", TType::LeftParen, TType::NamespaceNodeTest),
            ("node", TType::LeftParen, TType::AnyKindTest),
            ("processing-instruction", TType::LeftParen, TType::PITest),
            ("schema-attribute", TType::LeftParen, TType::SchemaAttributeTest),
            ("schema-element", TType::LeftParen, TType::SchemaElementTest),
            ("switch", TType::LeftParen, TType::Switch),
            ("text", TType::LeftParen, TType::TextTest),
            ("typeswitch", TType::LeftParen, TType::TypeSwitch),
            ("for", TType::Dollar, TType::For),
            ("some", TType::Dollar, TType::SomeKw),
            ("every", TType::Dollar, TType::Every),
            ("let", TType::Dollar, TType::Let),
            ("ancestor", TType::ColonColon, TType::AxisName),
            ("ancestor-or-self", TType::ColonColon, TType::AxisName),
            ("attribute", TType::ColonColon, TType::AxisName),
            ("child", TType::ColonColon, TType::AxisName),
            ("descendant", TType::ColonColon, TType::AxisName),
            ("descendant-or-self", TType::ColonColon, TType::AxisName),
            ("following", TType::ColonColon, TType::AxisName),
            ("following-sibling", TType::ColonColon, TType::AxisName),
            ("namespace", TType::ColonColon, TType::AxisName),
            ("parent", TType::ColonColon, TType::AxisName),
            ("preceding", TType::ColonColon, TType::AxisName),
            ("preceding-sibling", TType::ColonColon, TType::AxisName),
            ("self", TType::ColonColon, TType::AxisName),
        ];
        assert forall|m: int| 0 <= m < 37 implies
            ((#[trigger] tbl@[m]).0@, tbl@[m].1, tbl@[m].2) == name_symbol_table()[m] by {
            if m == 0 {
                assert((tbl@[m].0@, tbl@[m].1, tbl@[m].2) == name_symbol_table()[m]);
            } else if m == 1 {
                assert((tbl@[m].0@, tbl@[m].1, tbl@[m].2) == name_symbol_table()[m]);
            } else if m == 2 {
                assert((tbl@[m].0@, tbl@[m].1, tbl@[m].2) == name_symbol_table()[m]);
            } else if m == 3 {
                assert((tbl@[m].0@, tbl@[m].1, tbl@[m].2) == name_symbol_table()[m]);
            } else if m == 4 {
                assert((tbl@[m].0@, tbl@[m].1, tbl@[m].2) == name_symbol_table()[m]);
            } else if m == 5 {
                assert((tbl@[m].0@, tbl@[m].1, tbl@[m].2) == name_symbol_table()[m]);
            } else if m == 6 {
                assert((tbl@[m].0@, tbl@[m].1, tbl@[m].2) == name_symbol_table()[m]);
            } else if m == 7 {
                assert((tbl@[m].0@, tbl@[m].1, tbl@[m].2) == name_symbol_table()[m]);
            } else if m == 8 {
                assert((tbl@[m].0@, tbl@[m].1, tbl@[m].2) == name_symbol_table()[m]);
            } else if m == 9 {
                assert((tbl@[m].0@, tbl@[m].1, tbl@[m].2) == name_symbol_table()[m]);
            } else if m == 10 {
                assert((tbl@[m].0@, tbl@[m].1, tbl@[m].2) == name_symbol_table()[m]);
            } else if m == 11 {
                assert((tbl@[m].0@, tbl@[m].1, tbl@[m].2) == name_symbol_table()[m]);
            } else if m == 12 {
                assert((tbl@[m].0@, tbl@[m].1, tbl@[m].2) == name_symbol_table()[m]);
            } else if m == 13 {
                assert((tbl@[m].0@, tbl@[m].1, tbl@[m].2) == name_symbol_table()[m]);
            } else if m == 14 {
                assert((tbl@[m].0@, tbl@[m].1, tbl@[m].2) == name_symbol_table()[m]);
            } else if m == 15 {
                assert((tbl@[m].0@, tbl@[m].1, tbl@[m].2) == name_symbol_table()[m]);
            } else if m == 16 {
                assert((tbl@[m].0@, tbl@[m].1, tbl@[m].2) == name_symbol_table()[m]);
            } else if m == 17 {
                assert((tbl@[m].0@, tbl@[m].1, tbl@[m].2) == name_symbol_table()[m]);
            } else if m == 18 {
                assert((tbl@[m].0@, tbl@[m].1, tbl@[m].2) == name_symbol_table()[m]);
            } else if m == 19 {
                assert((tbl@[m].0@, tbl@[m].1, tbl@[m].2) == name_symbol_table()[m]);
            } else if m == 20 {
                assert((tbl@[m].0@, tbl@[m].1, tbl@[m].2) == name_symbol_table()[m]);
            } else if m == 21 {
                assert((tbl@[m].0@, tbl@[m].1, tbl@[m].2) == name_symbol_table()[m]);
            } else if m == 22 {
                assert((tbl@[m].0@, tbl@[m].1, tbl@[m].2) == name_symbol_table()[m]);
            } else if m == 23 {
                assert((tbl@[m].0@, tbl@[m].1, tbl@[m].2) == name_symbol_table()[m]);
            } else if m == 24 {
                assert((tbl@[m].0@, tbl@[m].1, tbl@[m].2) == name_symbol_table()[m]);
            } else if m == 25 {
                assert((tbl@[m].0@, tbl@[m].1, tbl@[m].2) == name_symbol_table()[m]);
            } else if m == 26 {
                assert((tbl@[m].0@, tbl@[m].1, tbl@[m].2) == name_symbol_table()[m]);
            } else if m == 27 {
                assert((tbl@[m].0@, tbl@[m].1, tbl@[m].2) == name_symbol_table()[m]);
            } else if m == 28 {
                assert((tbl@[m].0@, tbl@[m].1, tbl@[m].2) == name_symbol_table()[m]);
            } else if m == 29 {
                assert((tbl@[m].0@, tbl@[m].1, tbl@[m].2) == name_symbol_table()[m]);
            } else if m == 30 {
                assert((tbl@[m].0@, tbl@[m].1, tbl@[m].2) == name_symbol_table()[m]);
            } else if m == 31 {
                assert((tbl@[m].0@, tbl@[m].1, tbl@[m].2) == name_symbol_table()[m]);
            } else if m == 32 {
                assert((tbl@[m].0@, tbl@[m].1, tbl@[m].2) == name_symbol_table()[m]);
            } else if m == 33 {
                assert((tbl@[m].0@, tbl@[m].1, tbl@[m].2) == name_symbol_table()[m]);
            } else if m == 34 {
                assert((tbl@[m].0@, tbl@[m].1, tbl@[m].2) == name_symbol_table()[m]);
            } else if m == 35 {
                assert((tbl@[m].0@, tbl@[m].1, tbl@[m].2) == name_symbol_table()[m]);
            } else if m == 36 {
                assert((tbl@[m].0@, tbl@[m].1, tbl@[m].2) == name_symbol_table()[m]);
            }
        }
        let n = self.tokens.len();
        let mut i: usize = 1;
        while self.tokens[i].t_type != TType::EOF
            invariant
                framed_ok(t),
                n == t.len(),
                t == old(self).tokens_v(),
                self.tokens_v().len() == t.len(),
                self.tokens@.len() == t.len(),
                1 <= i < t.len(),
                forall|k: int| 0 <= k < i ==> #[trigger] self.tokens_v()[k] == rewrite_names(t)[k],
                forall|k: int| i <= k < t.len() ==> #[trigger] self.tokens_v()[k] == t[k],
                forall|m: int| 0 <= m < 37 ==>
                    ((#[trigger] tbl@[m]).0@, tbl@[m].1, tbl@[m].2) == name_symbol_table()[m],
                self.same_but_tokens(old(self)),
            decreases t.len() - i,
        {
            assert(self.tokens_v()[i as int] == t[i as int]);
            assert(self.tokens_v()[i as int + 1] == t[i as int + 1]);
            if self.tokens[i].t_type == TType::InnerName {
                let next_type = self.tokens[i + 1].t_type;
                let mut new_type = TType::InnerName;
                let mut j: usize = 0;
                while j < 37
                    invariant
                        0 <= j <= 37,
                        new_type == (match name_symbol_upto(t[i as int].1, next_type, j as int) {
                            Some(x) => x,
                            None => TType::InnerName,
                        }),
                        self.tokens_v()[i as int] == t[i as int],
                        self.tokens@.len() == t.len(),
                        i < t.len(),
                        forall|m: int| 0 <= m < 37 ==>
                            ((#[trigger] tbl@[m]).0@, tbl@[m].1, tbl@[m].2) == name_symbol_table()[m],
                    decreases 37 - j,
                {
                    let (name, next_t_type, new_t_type) = tbl[j];
                    assert((tbl@[j as int].0@, tbl@[j as int].1, tbl@[j as int].2) == name_symbol_table()[j as int]);
                    if str_eq(self.tokens[i].name.as_str(), name) && next_type == next_t_type {
                        new_type = new_t_type;
                    }
                    j += 1;
                }
                proof {
                    lemma_name_symbol_kinds(t[i as int].1, next_type, 37);
                }
                if new_type == TType::InnerName {
                    new_type = TType::Name;
                }
                let tok = Token { t_type: new_type, name: self.tokens[i].name.clone() };
                self.set_token(i, tok);
            }
            assert(self.tokens_v()[i as int] == rewrite_names(t)[i as int]);
            i += 1;
        }
        assert(self.tokens_v()[i as int] == t[i as int]);
        assert(self.tokens_v()[i as int].0 == TType::EOF);
        assert(self.tokens_v() =~= rewrite_names(t));
    }
}


// =====================================================================
// Building the lexer, and moving through its tokens.

/// The name of a token kind, as the token dump shows it.
pub open spec fn spec_ttype_label(t: TType) -> Seq<char> {
    match t {
        TType::EOF => "EOF"@,
        TType::InnerName => "InnerName"@,
        TType::Nop => "Nop"@,
        TType::Name => "Name"@,
        TType::AxisName => "AxisName"@,
        TType::SlashSlash => "SlashSlash"@,
        TType::Slash => "Slash"@,
        TType::DotDot => "DotDot"@,
        TType::Dot => "Dot"@,
        TType::ColonColon => "ColonColon"@,
        TType::Colon => "Colon"@,
        TType::ValueEQ => "ValueEQ"@,
        TType::ValueNE => "ValueNE"@,
        TType::ValueGT => "ValueGT"@,
        TType::ValueGE => "ValueGE"@,
        TType::ValueLT => "ValueLT"@,
        TType::ValueLE => "ValueLE"@,
        TType::GeneralEQ => "GeneralEQ"@,
        TType::GeneralNE => "GeneralNE"@,
        TType::GeneralGT => "GeneralGT"@,
        TType::GeneralGE => "GeneralGE"@,
        TType::GeneralLT => "GeneralLT"@,
        TType::GeneralLE => "GeneralLE"@,
        TType::IsSameNode => "IsSameNode"@,
        TType::NodeBefore => "NodeBefore"@,
        TType::NodeAfter => "NodeAfter"@,
        TType::And => "And"@,
        TType::Or => "Or"@,
        TType::Union => "Union"@,
        TType::Intersect => "Intersect"@,
        TType::Except => "Except"@,
        TType::To => "To"@,
        TType::InstanceOf => "InstanceOf"@,
        TType::TreatAs => "TreatAs"@,
        TType::CastableAs => "CastableAs"@,
        TType::CastAs => "CastAs"@,
        TType::Plus => "Plus"@,
        TType::Minus => "Minus"@,
        TType::Div => "Div"@,
        TType::IDiv => "IDiv"@,
        TType::Mod => "Mod"@,
        TType::If => "If"@,
        TType::For => "For"@,
        TType::SomeKw => "Some"@,
        TType::Every => "Every"@,
        TType::Asterisk => "Asterisk"@,
        TType::Dollar => "Dollar"@,
        TType::LeftBracket => "LeftBracket"@,
        TType::RightBracket => "RightBracket"@,
        TType::LeftParen => "LeftParen"@,
        TType::RightParen => "RightParen"@,
        TType::At => "At"@,
        TType::Question => "Question"@,
        TType::Comma => "Comma"@,
        TType::IntegerLiteral => "IntegerLiteral"@,
        TType::DecimalLiteral => "DecimalLiteral"@,
        TType::DoubleLiteral => "DoubleLiteral"@,
        TType::StringLiteral => "StringLiteral"@,
        TType::EmptySequence => "EmptySequence"@,
        TType::Item => "Item"@,
        TType::TypeSwitch => "TypeSwitch"@,
        TType::Switch => "Switch"@,
        TType::DocumentTest => "DocumentTest"@,
        TType::ElementTest => "ElementTest"@,
        TType::AttributeTest => "AttributeTest"@,
        TType::SchemaElementTest => "SchemaElementTest"@,
        TType::SchemaAttributeTest => "SchemaAttributeTest"@,
        TType::PITest => "PITest"@,
        TType::CommentTest => "CommentTest"@,
        TType::TextTest => "TextTest"@,
        TType::NamespaceNodeTest => "NamespaceNodeTest"@,
        TType::AnyKindTest => "AnyKindTest"@,
        TType::BracedURILiteral => "BracedURILiteral"@,
        TType::OperatorConcat => "OperatorConcat"@,
        TType::Sharp => "Sharp"@,
        TType::Bind => "Bind"@,
        TType::Arrow => "Arrow"@,
        TType::LeftCurly => "LeftCurly"@,
        TType::RightCurly => "RightCurly"@,
        TType::ColonAsterisk => "ColonAsterisk"@,
        TType::AsteriskColon => "AsteriskColon"@,
        TType::OperatorMap => "OperatorMap"@,
        TType::Let => "Let"@,
        TType::Array => "Array"@,
        TType::MapKw => "Map"@,
        TType::Function => "Function"@,
        TType::MapTest => "MapTest"@,
        TType::ArrayTest => "ArrayTest"@,
    }
}

/// The name of a token kind.
pub fn ttype_label(t: TType) -> (s: &'static str)
    ensures
        s@ == spec_ttype_label(t),
{
    match t {
        TType::EOF => "EOF",
        TType::InnerName => "InnerName",
        TType::Nop => "Nop",
        TType::Name => "Name",
        TType::AxisName => "AxisName",
        TType::SlashSlash => "SlashSlash",
        TType::Slash => "Slash",
        TType::DotDot => "DotDot",
        TType::Dot => "Dot",
        TType::ColonColon => "ColonColon",
        TType::Colon => "Colon",
        TType::ValueEQ => "ValueEQ",
        TType::ValueNE => "ValueNE",
        TType::ValueGT => "ValueGT",
        TType::ValueGE => "ValueGE",
        TType::ValueLT => "ValueLT",
        TType::ValueLE => "ValueLE",
        TType::GeneralEQ => "GeneralEQ",
        TType::GeneralNE => "GeneralNE",
        TType::GeneralGT => "GeneralGT",
        TType::GeneralGE => "GeneralGE",
        TType::GeneralLT => "GeneralLT",
        TType::GeneralLE => "GeneralLE",
        TType::IsSameNode => "IsSameNode",
        TType::NodeBefore => "NodeBefore",
        TType::NodeAfter => "NodeAfter",
        TType::And => "And",
        TType::Or => "Or",
        TType::Union => "Union",
        TType::Intersect => "Intersect",
        TType::Except => "Except",
        TType::To => "To",
        TType::InstanceOf => "InstanceOf",
        TType::TreatAs => "TreatAs",
        TType::CastableAs => "CastableAs",
        TType::CastAs => "CastAs",
        TType::Plus => "Plus",
        TType::Minus => "Minus",
        TType::Div => "Div",
        TType::IDiv => "IDiv",
        TType::Mod => "Mod",
        TType::If => "If",
        TType::For => "For",
        TType::SomeKw => "Some",
        TType::Every => "Every",
        TType::Asterisk => "Asterisk",
        TType::Dollar => "Dollar",
        TType::LeftBracket => "LeftBracket",
        TType::RightBracket => "RightBracket",
        TType::LeftParen => "LeftParen",
        TType::RightParen => "RightParen",
        TType::At => "At",
        TType::Question => "Question",
        TType::Comma => "Comma",
        TType::IntegerLiteral => "IntegerLiteral",
        TType::DecimalLiteral => "DecimalLiteral",
        TType::DoubleLiteral => "DoubleLiteral",
        TType::StringLiteral => "StringLiteral",
        TType::EmptySequence => "EmptySequence",
        TType::Item => "Item",
        TType::TypeSwitch => "TypeSwitch",
        TType::Switch => "Switch",
        TType::DocumentTest => "DocumentTest",
        TType::ElementTest => "ElementTest",
        TType::AttributeTest => "AttributeTest",
        TType::SchemaElementTest => "SchemaElementTest",
        TType::SchemaAttributeTest => "SchemaAttributeTest",
        TType::PITest => "PITest",
        TType::CommentTest => "CommentTest",
        TType::TextTest => "TextTest",
        TType::NamespaceNodeTest => "NamespaceNodeTest",
        TType::AnyKindTest => "AnyKindTest",
        TType::BracedURILiteral => "BracedURILiteral",
        TType::OperatorConcat => "OperatorConcat",
        TType::Sharp => "Sharp",
        TType::Bind => "Bind",
        TType::Arrow => "Arrow",
        TType::LeftCurly => "LeftCurly",
        TType::RightCurly => "RightCurly",
        TType::ColonAsterisk => "ColonAsterisk",
        TType::AsteriskColon => "AsteriskColon",
        TType::OperatorMap => "OperatorMap",
        TType::Let => "Let",
        TType::Array => "Array",
        TType::MapKw => "Map",
        TType::Function => "Function",
        TType::MapTest => "MapTest",
        TType::ArrayTest => "ArrayTest",
    }
}

/// The dump of tokens `0 .. n`: one line `[kind] text` per token.
pub open spec fn dump_text(t: Seq<TokenV>, n: int) -> Seq<char>
    decreases n,
{
    if n <= 0 {
        Seq::empty()
    } else {
        dump_text(t, n - 1) + "["@ + spec_ttype_label(t[n - 1].0) + "] "@ + t[n - 1].1 + "\n"@
    }
}

/// How token `i` appears in the context shown around the cursor: the token
/// just read is set in double angle brackets, the others in spaces.
pub open spec fn around_piece(t: Seq<TokenV>, index: int, i: int) -> Seq<char> {
    if i == index - 1 {
        "≪"@ + t[i].1 + "≫"@
    } else {
        " "@ + t[i].1 + " "@
    }
}

/// The pieces of tokens `lo .. hi`, in order.
pub open spec fn around_range(t: Seq<TokenV>, index: int, lo: int, hi: int) -> Seq<char>
    decreases hi - lo,
{
    if hi <= lo {
        Seq::empty()
    } else {
        around_range(t, index, lo, hi - 1) + around_piece(t, index, hi - 1)
    }
}

/// The context around the cursor: up to three tokens on each side, never
/// the end markers.
pub open spec fn around_text(t: Seq<TokenV>, index: int) -> Seq<char> {
    let lo = if index <= 3 { 1 } else { index - 3 };
    let hi = if t.len() - 1 <= index + 3 { t.len() - 1 } else { index + 3 };
    around_range(t, index, lo, hi)
}

/// Where the cursor stands after a token is read from a list of `len`
/// tokens: one further on, unless it stands on the closing end marker.
pub open spec fn index_after_get(index: int, len: int) -> int {
    if index < len - 1 {
        index + 1
    } else {
        index
    }
}

/// Where the cursor stands after it steps back: one back, unless it stands
/// on the first token.
pub open spec fn index_after_unget(index: int) -> int {
    if 0 < index {
        index - 1
    } else {
        index
    }
}

/// After an operand, an operator word is read as the operator that XPath
/// gives it: `and`, `or`, `div`, `mod` and `idiv`; the value comparisons
/// `eq`, `ne`, `lt`, `le`, `gt`, `ge`; the node comparison `is`; the range
/// `to`; and `union`, `intersect`, `except`. Any other word stays a word.
pub proof fn law_operator_words(t: Seq<TokenV>, k: int, w: Seq<char>)
    requires
        1 <= k < t.len() - 1,
        t[k] == (TType::InnerName, w),
        !operand_expected_after(rewrite_operators(t)[k - 1].0),
    ensures
        w == "and"@ ==> rewrite_operators(t)[k].0 == TType::And,
        w == "or"@ ==> rewrite_operators(t)[k].0 == TType::Or,
        w == "div"@ ==> rewrite_operators(t)[k].0 == TType::Div,
        w == "mod"@ ==> rewrite_operators(t)[k].0 == TType::Mod,
        w == "idiv"@ ==> rewrite_operators(t)[k].0 == TType::IDiv,
        w == "eq"@ ==> rewrite_operators(t)[k].0 == TType::ValueEQ,
        w == "ne"@ ==> rewrite_operators(t)[k].0 == TType::ValueNE,
        w == "lt"@ ==> rewrite_operators(t)[k].0 == TType::ValueLT,
        w == "le"@ ==> rewrite_operators(t)[k].0 == TType::ValueLE,
        w == "gt"@ ==> rewrite_operators(t)[k].0 == TType::ValueGT,
        w == "ge"@ ==> rewrite_operators(t)[k].0 == TType::ValueGE,
        w == "is"@ ==> rewrite_operators(t)[k].0 == TType::IsSameNode,
        w == "to"@ ==> rewrite_operators(t)[k].0 == TType::To,
        w == "union"@ ==> rewrite_operators(t)[k].0 == TType::Union,
        w == "intersect"@ ==> rewrite_operators(t)[k].0 == TType::Intersect,
        w == "except"@ ==> rewrite_operators(t)[k].0 == TType::Except,
        rewrite_operators(t)[k].1 == w,
{
    reveal_strlit("and");
    reveal_strlit("or");
    reveal_strlit("div");
    reveal_strlit("mod");
    reveal_strlit("idiv");
    reveal_strlit("eq");
    reveal_strlit("ne");
    reveal_strlit("lt");
    reveal_strlit("le");
    reveal_strlit("gt");
    reveal_strlit("ge");
    reveal_strlit("is");
    reveal_strlit("to");
    reveal_strlit("union");
    reveal_strlit("intersect");
    reveal_strlit("except");
    assert(operator_word("and"@) == Some(TType::And)) by {
    }
    assert(operator_word("or"@) == Some(TType::Or)) by {
        assert("or"@.len() != "and"@.len());
    }
    assert(operator_word("div"@) == Some(TType::Div)) by {
        assert("div"@[0] != "and"@[0]);
        assert("div"@.len() != "or"@.len());
    }
    assert(operator_word("mod"@) == Some(TType::Mod)) by {
        assert("mod"@[0] != "and"@[0]);
        assert("mod"@.len() != "or"@.len());
        assert("mod"@[0] != "div"@[0]);
    }
    assert(operator_word("idiv"@) == Some(TType::IDiv)) by {
        assert("idiv"@.len() != "and"@.len());
        assert("idiv"@.len() != "or"@.len());
        assert("idiv"@.len() != "div"@.len());
        assert("idiv"@.len() != "mod"@.len());
    }
    assert(operator_word("eq"@) == Some(TType::ValueEQ)) by {
        assert("eq"@.len() != "and"@.len());
        assert("eq"@[0] != "or"@[0]);
        assert("eq"@.len() != "div"@.len());
        assert("eq"@.len() != "mod"@.len());
        assert("eq"@.len() != "idiv"@.len());
    }
    assert(operator_word("ne"@) == Some(TType::ValueNE)) by {
        assert("ne"@.len() != "and"@.len());
        assert("ne"@[0] != "or"@[0]);
        assert("ne"@.len() != "div"@.len());
        assert("ne"@.len() != "mod"@.len());
        assert("ne"@.len() != "idiv"@.len());
        assert("ne"@[0] != "eq"@[0]);
    }
    assert(operator_word("lt"@) == Some(TType::ValueLT)) by {
        assert("lt"@.len() != "and"@.len());
        assert("lt"@[0] != "or"@[0]);
        assert("lt"@.len() != "div"@.len());
        assert("lt"@.len() != "mod"@.len());
        assert("lt"@.len() != "idiv"@.len());
        assert("lt"@[0] != "eq"@[0]);
        assert("lt"@[0] != "ne"@[0]);
    }
    assert(operator_word("le"@) == Some(TType::ValueLE)) by {
        assert("le"@.len() != "and"@.len());
        assert("le"@[0] != "or"@[0]);
        assert("le"@.len() != "div"@.len());
        assert("le"@.len() != "mod"@.len());
        assert("le"@.len() != "idiv"@.len());
        assert("le"@[0] != "eq"@[0]);
        assert("le"@[0] != "ne"@[0]);
        assert("le"@[1] != "lt"@[1]);
    }
    assert(operator_word("gt"@) == Some(TType::ValueGT)) by {
        assert("gt"@.len() != "and"@.len());
        assert("gt"@[0] != "or"@[0]);
        assert("gt"@.len() != "div"@.len());
        assert("gt"@.len() != "mod"@.len());
        assert("gt"@.len() != "idiv"@.len());
        assert("gt"@[0] != "eq"@[0]);
        assert("gt"@[0] != "ne"@[0]);
        assert("gt"@[0] != "lt"@[0]);
        assert("gt"@[0] != "le"@[0]);
    }
    assert(operator_word("ge"@) == Some(TType::ValueGE)) by {
        assert("ge"@.len() != "and"@.len());
        assert("ge"@[0] != "or"@[0]);
        assert("ge"@.len() != "div"@.len());
        assert("ge"@.len() != "mod"@.len());
        assert("ge"@.len() != "idiv"@.len());
        assert("ge"@[0] != "eq"@[0]);
        assert("ge"@[0] != "ne"@[0]);
        assert("ge"@[0] != "lt"@[0]);
        assert("ge"@[0] != "le"@[0]);
        assert("ge"@[1] != "gt"@[1]);
    }
    assert(operator_word("is"@) == Some(TType::IsSameNode)) by {
        assert("is"@.len() != "and"@.len());
        assert("is"@[0] != "or"@[0]);
        assert("is"@.len() != "div"@.len());
        assert("is"@.len() != "mod"@.len());
        assert("is"@.len() != "idiv"@.len());
        assert("is"@[0] != "eq"@[0]);
        assert("is"@[0] != "ne"@[0]);
        assert("is"@[0] != "lt"@[0]);
        assert("is"@[0] != "le"@[0]);
        assert("is"@[0] != "gt"@[0]);
        assert("is"@[0] != "ge"@[0]);
    }
    assert(operator_word("to"@) == Some(TType::To)) by {
        assert("to"@.len() != "and"@.len());
        assert("to"@[0] != "or"@[0]);
        assert("to"@.len() != "div"@.len());
        assert("to"@.len() != "mod"@.len());
        assert("to"@.len() != "idiv"@.len());
        assert("to"@[0] != "eq"@[0]);
        assert("to"@[0] != "ne"@[0]);
        assert("to"@[0] != "lt"@[0]);
        assert("to"@[0] != "le"@[0]);
        assert("to"@[0] != "gt"@[0]);
        assert("to"@[0] != "ge"@[0]);
        assert("to"@[0] != "is"@[0]);
    }
    assert(operator_word("union"@) == Some(TType::Union)) by {
        assert("union"@.len() != "and"@.len());
        assert("union"@.len() != "or"@.len());
        assert("union"@.len() != "div"@.len());
        assert("union"@.len() != "mod"@.len());
        assert("union"@.len() != "idiv"@.len());
        assert("union"@.len() != "eq"@.len());
        assert("union"@.len() != "ne"@.len());
        assert("union"@.len() != "lt"@.len());
        assert("union"@.len() != "le"@.len());
        assert("union"@.len() != "gt"@.len());
        assert("union"@.len() != "ge"@.len());
        assert("union"@.len() != "is"@.len());
        assert("union"@.len() != "to"@.len());
    }
    assert(operator_word("intersect"@) == Some(TType::Intersect)) by {
        assert("intersect"@.len() != "and"@.len());
        assert("intersect"@.len() != "or"@.len());
        assert("intersect"@.len() != "div"@.len());
        assert("intersect"@.len() != "mod"@.len());
        assert("intersect"@.len() != "idiv"@.len());
        assert("intersect"@.len() != "eq"@.len());
        assert("intersect"@.len() != "ne"@.len());
        assert("intersect"@.len() != "lt"@.len());
        assert("intersect"@.len() != "le"@.len());
        assert("intersect"@.len() != "gt"@.len());
        assert("intersect"@.len() != "ge"@.len());
        assert("intersect"@.len() != "is"@.len());
        assert("intersect"@.len() != "to"@.len());
        assert("intersect"@.len() != "union"@.len());
    }
    assert(operator_word("except"@) == Some(TType::Except)) by {
        assert("except"@.len() != "and"@.len());
        assert("except"@.len() != "or"@.len());
        assert("except"@.len() != "div"@.len());
        assert("except"@.len() != "mod"@.len());
        assert("except"@.len() != "idiv"@.len());
        assert("except"@.len() != "eq"@.len());
        assert("except"@.len() != "ne"@.len());
        assert("except"@.len() != "lt"@.len());
        assert("except"@.len() != "le"@.len());
        assert("except"@.len() != "gt"@.len());
        assert("except"@.len() != "ge"@.len());
        assert("except"@.len() != "is"@.len());
        assert("except"@.len() != "to"@.len());
        assert("except"@.len() != "union"@.len());
        assert("except"@.len() != "intersect"@.len());
    }
    assert(rewrite_operators(t)[k - 1].0 == operator_type_at(t, k - 1));
    assert(rewrite_operators(t)[k].0 == operator_type_at(t, k));
}

/// Where an operand is expected, a word stays a word, whatever it is.
pub proof fn law_word_after_operator(t: Seq<TokenV>, k: int)
    requires
        1 <= k < t.len() - 1,
        t[k].0 == TType::InnerName,
        operand_expected_after(rewrite_operators(t)[k - 1].0),
    ensures
        rewrite_operators(t)[k] == t[k],
{
    assert(rewrite_operators(t)[k - 1].0 == operator_type_at(t, k - 1));
    assert(rewrite_operators(t)[k].0 == operator_type_at(t, k));
}

/// Stepping back undoes reading a token other than the closing end marker,
/// and reading a token undoes stepping back from any token but the first.
pub proof fn law_unget_undoes_get(index: int, len: int)
    requires
        0 <= index < len,
    ensures
        index < len - 1 ==> index_after_unget(index_after_get(index, len)) == index,
        0 < index ==> index_after_get(index_after_unget(index), len) == index,
{
}

impl Lexer {
    /// Splits `xpath_string` into tokens and classifies them; the cursor and
    /// the mark stand on the first token after the leading end marker.
    pub fn new(xpath_string: &String) -> (res: Result<Lexer, XPathError>)
        requires
            xpath_string@.len() + 4 <= usize::MAX,
        ensures
            match spec_tokenize(xpath_string@) {
                Ok(toks) => res matches Ok(lex) && {
                    &&& lex.tokens_v() == toks
                    &&& lex.chars() == xpath_string@
                    &&& lex.index_v() == 1
                    &&& lex.mark_v() == 1
                    &&& lex.wf()
                    &&& lex.tokens_v().len() >= 3
                    &&& classified(lex.tokens_v())
                },
                Err(_) => res matches Err(e) && e.kind == XPathErrorKind::SyntaxError,
            },
    {
        let ghost s = xpath_string@;
        let text = xpath_string.as_str();
        let n = text.unicode_len();
        let mut char_vec: Vec<char> = Vec::new();
        let mut i: usize = 0;
        while i < n
            invariant
                n == s.len(),
                text@ == s,
                0 <= i <= n,
                char_vec@ == s.subrange(0, i as int),
            decreases n - i,
        {
            char_vec.push(text.get_char(i));
            assert(char_vec@ =~= s.subrange(0, i as int + 1));
            i += 1;
        }
        assert(char_vec@ =~= s);
        let mut lexer = Lexer { char_vec, ch_index: 0, tokens: Vec::new(), index: 1, mark_index: 1 };
        assert(lexer.tokens_v() =~= Seq::<TokenV>::empty());
        lexer.push_token(TType::EOF, "");
        proof {
            reveal_strlit("");
            assert(""@ =~= Seq::<char>::empty());
            assert(lexer.tokens_v() =~= seq![eof_token()]);
            assert(lexer.tokens_v().drop_first() =~= Seq::<TokenV>::empty());
            match scan_from(s, 0) {
                Ok(r) => {
                    assert(Seq::<TokenV>::empty() + r =~= r);
                },
                Err(_) => {},
            }
        }
        loop
            invariant_except_break
                s == xpath_string@,
                lexer.char_vec@ == s,
                s.len() + 4 <= usize::MAX,
                lexer.ch_index <= s.len(),
                lexer.tokens_v().len() >= 1,
                lexer.tokens_v()[0] == eof_token(),
                lexer.tokens@.len() == lexer.tokens_v().len(),
                lexer.index == 1,
                lexer.mark_index == 1,
                match scan_from(s, lexer.ch_index as int) {
                    Ok(rest) => scan_from(s, 0) == Ok::<Seq<TokenV>, ()>(lexer.tokens_v().drop_first() + rest),
                    Err(_) => scan_from(s, 0) is Err,
                },
            ensures
                lexer.char_vec@ == s,
                lexer.tokens_v().len() >= 1,
                lexer.tokens_v()[0] == eof_token(),
                lexer.tokens@.len() == lexer.tokens_v().len(),
                lexer.index == 1,
                lexer.mark_index == 1,
                scan_from(s, 0) == Ok::<Seq<TokenV>, ()>(lexer.tokens_v().drop_first()),
            decreases s.len() + 2 - lexer.ch_index,
        {
            let ghost i0 = lexer.ch_index as int;
            lexer.skip_spaces();
            proof {
                lemma_spaces_end(s, i0);
                lemma_scan_token_progress(s, lexer.ch_index as int);
                if lexer.ch_index > s.len() {
                    assert(char_at(s, lexer.ch_index as int) == EOF);
                }
            }
            assert(lexer.ch_index <= s.len() + 1);
            let tok = match lexer.get_tok() {
                Ok(tok) => tok,
                Err(e) => {
                    assert(scan_from(s, i0) is Err);
                    assert(scan_from(s, 0) is Err);
                    assert(spec_tokenize(s) is Err);
                    assert(e.kind == XPathErrorKind::SyntaxError);
                    return Err(e);
                },
            };
            if tok.t_type == TType::EOF {
                assert(scan_from(s, i0) == Ok::<Seq<TokenV>, ()>(Seq::empty()));
                assert(lexer.tokens_v().drop_first() + Seq::<TokenV>::empty() =~= lexer.tokens_v().drop_first());
                break;
            }
            if tok.t_type == TType::Nop {
                continue;
            }
            let ghost before = lexer.tokens_v();
            let ghost tv = tok@;
            lexer.tokens.push(tok);
            proof {
                assert(lexer.tokens_v() =~= before.push(tv));
                assert(lexer.tokens_v().drop_first() =~= before.drop_first().push(tv));
                match scan_from(s, lexer.ch_index as int) {
                    Ok(rest) => {
                        assert(before.drop_first() + (seq![tv] + rest) =~= before.drop_first().push(tv) + rest);
                    },
                    Err(_) => {},
                }
            }
        }
        let ghost raw = lexer.tokens_v().drop_first();
        if lexer.tokens.len() < 2 {
            return Err(new_error(XPathErrorKind::SyntaxError, "the expression holds no token"));
        }
        lexer.push_token(TType::EOF, "");
        proof {
            reveal_strlit("");
            assert(lexer.tokens_v() =~= framed(raw));
            lemma_scan_from_types(s, 0);
            lemma_framed(raw);
            assert(framed(raw)[1] == raw[0]);
            lemma_rewrite_operators(framed(raw));
        }
        lexer.rewrite_operator_type();
        proof {
            let o = lexer.tokens_v();
            lemma_pairs_upto(o, o.len() - 2);
        }
        lexer.rewrite_pair_words();
        proof {
            let p = lexer.tokens_v();
            assert forall|k: int| 1 <= k < p.len() - 1 implies #[trigger] p[k].0 != TType::EOF by {}
            lemma_eliminate_nops(p);
        }
        lexer.eliminate_nops();
        lexer.rewrite_name_and_symbol();
        proof {
            law_tokenize_shape(s);
        }
        Ok(lexer)
    }

    /// The token at the cursor.
    pub fn next_token(&self) -> (tok: Token)
        requires
            self.wf(),
        ensures
            tok@ == self.tokens_v()[self.index_v()],
    {
        self.tokens[self.index].duplicate()
    }

    /// The token at the cursor; the cursor moves on, but never past the
    /// closing end marker.
    pub fn get_token(&mut self) -> (tok: Token)
        requires
            old(self).wf(),
        ensures
            tok@ == old(self).tokens_v()[old(self).index_v()],
            final(self).index_v() == index_after_get(old(self).index_v(), old(self).tokens_v().len() as int),
            final(self).tokens_v() == old(self).tokens_v(),
            final(self).chars() == old(self).chars(),
            final(self).mark_v() == old(self).mark_v(),
            final(self).wf(),
    {
        let tok = self.tokens[self.index].duplicate();
        if self.index < self.tokens.len() - 1 {
            self.index += 1;
        }
        tok
    }

    /// Moves the cursor one token back, unless it stands on the first.
    pub fn unget_token(&mut self)
        requires
            old(self).wf(),
        ensures
            final(self).index_v() == index_after_unget(old(self).index_v()),
            final(self).tokens_v() == old(self).tokens_v(),
            final(self).chars() == old(self).chars(),
            final(self).mark_v() == old(self).mark_v(),
            final(self).wf(),
    {
        if 0 < self.index {
            self.index -= 1;
        }
    }

    /// Saves the cursor.
    pub fn mark_token_index(&mut self)
        requires
            old(self).wf(),
        ensures
            final(self).mark_v() == old(self).index_v(),
            final(self).index_v() == old(self).index_v(),
            final(self).tokens_v() == old(self).tokens_v(),
            final(self).chars() == old(self).chars(),
            final(self).wf(),
    {
        self.mark_index = self.index;
    }

    /// Moves the cursor back to where it was saved.
    pub fn restore_marked_index(&mut self)
        requires
            old(self).wf(),
        ensures
            final(self).index_v() == old(self).mark_v(),
            final(self).mark_v() == old(self).mark_v(),
            final(self).tokens_v() == old(self).tokens_v(),
            final(self).chars() == old(self).chars(),
            final(self).wf(),
    {
        self.index = self.mark_index;
    }

    /// The tokens around the cursor, for error messages.
    pub fn around_tokens(&self) -> (s: String)
        requires
            self.wf(),
            self.index_v() >= 1 || self.tokens_v().len() < 3,
        ensures
            s@ == around_text(self.tokens_v(), self.index_v()),
    {
        let ghost t = self.tokens_v();
        let len = self.tokens.len();
        let min_index: usize = if self.index <= 3 { 1 } else { self.index - 3 };
        let max_index: usize = if len - 1 - self.index <= 3 { len - 1 } else { self.index + 3 };
        let mut s = String::new();
        let mut i: usize = min_index;
        while i < max_index
            invariant
                self.wf(),
                t == self.tokens_v(),
                len == t.len(),
                self.tokens@.len() == len,
                self.index_v() >= 1 || t.len() < 3,
                min_index <= i,
                i <= max_index || i == min_index,
                max_index <= len - 1,
                s@ == around_range(t, self.index_v(), min_index as int, i as int),
            decreases max_index - i,
        {
            assert(self.tokens_v()[i as int].1 == self.tokens@[i as int].name@);
            if i + 1 == self.index {
                s.append("≪");
                s.append(self.tokens[i].name.as_str());
                s.append("≫");
            } else {
                s.append(" ");
                s.append(self.tokens[i].name.as_str());
                s.append(" ");
            }
            i += 1;
        }
        s
    }

    /// One line `[kind] text` per token.
    pub fn token_dump(&self) -> (s: String)
        ensures
            s@ == dump_text(self.tokens_v(), self.tokens_v().len() as int),
    {
        let ghost t = self.tokens_v();
        let mut s = String::new();
        let mut i: usize = 0;
        while i < self.tokens.len()
            invariant
                t == self.tokens_v(),
                self.tokens@.len() == t.len(),
                0 <= i <= t.len(),
                s@ == dump_text(t, i as int),
            decreases t.len() - i,
        {
            assert(self.tokens_v()[i as int] == self.tokens@[i as int]@);
            s.append("[");
            s.append(ttype_label(self.tokens[i].t_type));
            s.append("] ");
            s.append(self.tokens[i].name.as_str());
            s.append("\n");
            i += 1;
        }
        s
    }
}

} // verus!
