//! The table of built-in functions: their signatures, and which names and
//! numbers of arguments the evaluator knows.

use vstd::prelude::*;
use crate::text::str_eq;

verus! {

/// The signature of each built-in function, by its reference `name#arity`.
pub open spec fn signature_table() -> Seq<(Seq<char>, Seq<char>)> {
    seq![
        ("fn:nilled#0"@, "function() as xs:boolean?"@),
        ("fn:nilled#1"@, "function(node()?) as xs:boolean?"@),
        ("fn:string#0"@, "function() as xs:string"@),
        ("fn:string#1"@, "function(item()?) as xs:string"@),
        ("fn:data#0"@, "function() as xs:anyAtomicType*"@),
        ("fn:data#1"@, "function(item()*) as xs:anyAtomicType*"@),
        ("fn:abs#1"@, "function(numeric?) as numeric?"@),
        ("fn:ceiling#1"@, "function(numeric?) as numeric?"@),
        ("fn:floor#1"@, "function(numeric?) as numeric?"@),
        ("fn:round#1"@, "function(numeric?) as numeric?"@),
        ("fn:number#0"@, "function() as xs:double"@),
        ("fn:number#1"@, "function(xs:anyAtomicType?) as xs:double"@),
        ("fn:codepoints-to-string#1"@, "function(xs:integer*) as xs:string"@),
        ("fn:string-to-codepoints#1"@, "function(xs:string*) as xs:integer*"@),
        ("fn:compare#2"@, "function(xs:string?, xs:string?) as xs:integer?"@),
        ("fn:compare#3"@, "function(xs:string?, xs:string?, xs:string) as xs:integer?"@),
        ("fn:codepoint-equal#2"@, "function(xs:string?, xs:string?) as xs:boolean?"@),
        ("fn:concat#2"@, "function(xs:anyAtomicType?, xs:anyAtomicType?) as xs:string"@),
        ("fn:string-join#1"@, "function(xs:string*) as xs:string"@),
        ("fn:string-join#2"@, "function(xs:string*, xs:string) as xs:string"@),
        ("fn:substring#2"@, "function(xs:string?, xs:double) as xs:string"@),
        ("fn:substring#3"@, "function(xs:string?, xs:double, xs:double) as xs:string"@),
        ("fn:string-length#0"@, "function() as xs:integer"@),
        ("fn:string-length#1"@, "function(xs:string?) as xs:integer"@),
        ("fn:normalize-space#0"@, "function() as xs:integer"@),
        ("fn:normalize-space#1"@, "function(xs:string?) as xs:integer"@),
        ("fn:upper-case#1"@, "function(xs:string?) as xs:string"@),
        ("fn:lower-case#1"@, "function(xs:string?) as xs:string"@),
        ("fn:translate#3"@, "function(xs:string?, xs:string, xs:string) as xs:string"@),
        ("fn:contains#2"@, "function(xs:string?, xs:string?) as xs:boolean"@),
        ("fn:contains#3"@, "function(xs:string?, xs:string?, xs:string) as xs:boolean"@),
        ("fn:starts-with#2"@, "function(xs:string?, xs:string?) as xs:boolean"@),
        ("fn:starts-with#3"@, "function(xs:string?, xs:string?, xs:string) as xs:boolean"@),
        ("fn:ends-with#2"@, "function(xs:string?, xs:string?) as xs:boolean"@),
        ("fn:ends-with#3"@, "function(xs:string?, xs:string?, xs:string) as xs:boolean"@),
        ("fn:substring-before#2"@, "function(xs:string?, xs:string?) as xs:string"@),
        ("fn:substring-before#3"@, "function(xs:string?, xs:string?, xs:string) as xs:string"@),
        ("fn:substring-after#2"@, "function(xs:string?, xs:string?) as xs:string"@),
        ("fn:substring-after#3"@, "function(xs:string?, xs:string?, xs:string) as xs:string"@),
        ("fn:true#0"@, "function() as xs:boolean"@),
        ("fn:false#0"@, "function() as xs:boolean"@),
        ("fn:boolean#1"@, "function(item()*) as xs:boolean"@),
        ("fn:not#1"@, "function(item()*) as xs:boolean"@),
        ("fn:name#0"@, "function() as xs:string"@),
        ("fn:name#1"@, "function(node()?) as xs:string"@),
        ("fn:local-name#0"@, "function() as xs:string"@),
        ("fn:local-name#1"@, "function(node()?) as xs:string"@),
        ("fn:namespace-uri#0"@, "function() as xs:anyURI"@),
        ("fn:namespace-uri#1"@, "function(node()?) as xs:anyURI"@),
        ("fn:lang#1"@, "function(xs:string?) as xs:boolean"@),
        ("fn:lang#2"@, "function(xs:string?, node()) as xs:boolean"@),
        ("fn:root#0"@, "function() as node()"@),
        ("fn:root#1"@, "function(node()?) as node()?"@),
        ("fn:empty#1"@, "function(item()*) as xs:boolean"@),
        ("fn:exists#1"@, "function(item()*) as xs:boolean"@),
        ("fn:head#1"@, "function(item()*) as item()?"@),
        ("fn:tail#1"@, "function(item()*) as item()*"@),
        ("fn:insert-before#3"@, "function(item()*, xs:integer, item()*) as item()*"@),
        ("fn:remove#2"@, "function(item()*, xs:integer) as item()*"@),
        ("fn:reverse#1"@, "function(item()*) as item()*"@),
        ("fn:subsequence#2"@, "function(item()*, xs:double) as item()*"@),
        ("fn:subsequence#3"@, "function(item()*, xs:double, xs:double) as item()*"@),
        ("fn:index-of#2"@, "function(xs:anyAtomicType*, xs:anyAtomicType) as xs:integer*"@),
        ("fn:index-of#3"@, "function(xs:anyAtomicType*, xs:anyAtomicType, xs:string) as xs:integer*"@),
        ("fn:zero-or-one#1"@, "function(item()*) as item()?"@),
        ("fn:one-or-more#1"@, "function(item()*) as item()?"@),
        ("fn:exactly-one#1"@, "function(item()*) as item()?"@),
        ("fn:count#1"@, "function(item()*) as xs:integer"@),
        ("fn:avg#1"@, "function(xs:anyAtomicType*) as xs:anyAtomicType?"@),
        ("fn:max#1"@, "function(xs:anyAtomicType*) as xs:anyAtomicType?"@),
        ("fn:max#2"@, "function(xs:anyAtomicType*, xs:string) as xs:anyAtomicType?"@),
        ("fn:min#1"@, "function(xs:anyAtomicType*) as xs:anyAtomicType?"@),
        ("fn:min#2"@, "function(xs:anyAtomicType*, xs:string) as xs:anyAtomicType?"@),
        ("fn:sum#1"@, "function(xs:anyAtomicType*) as xs:anyAtomicType?"@),
        ("fn:sum#2"@, "function(xs:anyAtomicType*, xs:anyAtomicType?) as xs:anyAtomicType?"@),
        ("fn:position#0"@, "function() as xs:integer"@),
        ("fn:last#0"@, "function() as xs:integer"@),
        ("fn:for-each#2"@, "function(item()*, function(item()) as item()*) as item()*"@),
        ("fn:filter#2"@, "function(item()*, function(item()) as xs:boolean) as item()*"@),
        ("map:size#1"@, "function(map(*)) as xs:integer"@),
        ("map:keys#1"@, "function(map(*)) as xs:anyAtomicType*"@),
        ("map:contains#2"@, "function(map(*), xs:anyAtomicType) as xs:boolean"@),
        ("map:get#2"@, "function(map(*), xs:anyAtomicType) as item()*"@),
        ("array:size#1"@, "function(array(*)) as xs:integer"@),
        ("array:get#2"@, "function(array(*), xs:integer) as item()*"@),
        ("array:flatten#1"@, "function(item()*) as item()*"@),
    ]
}

/// The signature of the first entry from `k` on whose reference is `name`, or
/// the empty text.
pub open spec fn signature_from(name: Seq<char>, k: int) -> Seq<char>
    decreases signature_table().len() - k,
{
    if k < 0 || k >= signature_table().len() {
        Seq::empty()
    } else if signature_table()[k].0 == name {
        signature_table()[k].1
    } else {
        signature_from(name, k + 1)
    }
}

/// Every signature in the table is at most 100 characters long.
proof fn lemma_signature_table_short()
    ensures
        forall|k: int| 0 <= k < signature_table().len() ==> #[trigger] signature_table()[k].1.len() <= 100,
{
    assert forall|k: int| 0 <= k < signature_table().len() implies #[trigger] signature_table()[k].1.len() <= 100 by {
        if k == 0 {
            reveal_strlit("function() as xs:boolean?");
        } else if k == 1 {
            reveal_strlit("function(node()?) as xs:boolean?");
        } else if k == 2 {
            reveal_strlit("function() as xs:string");
        } else if k == 3 {
            reveal_strlit("function(item()?) as xs:string");
        } else if k == 4 {
            reveal_strlit("function() as xs:anyAtomicType*");
        } else if k == 5 {
            reveal_strlit("function(item()*) as xs:anyAtomicType*");
        } else if k == 6 {
            reveal_strlit("function(numeric?) as numeric?");
        } else if k == 7 {
            reveal_strlit("function(numeric?) as numeric?");
        } else if k == 8 {
            reveal_strlit("function(numeric?) as numeric?");
        } else if k == 9 {
            reveal_strlit("function(numeric?) as numeric?");
        } else if k == 10 {
            reveal_strlit("function() as xs:double");
        } else if k == 11 {
            reveal_strlit("function(xs:anyAtomicType?) as xs:double");
        } else if k == 12 {
            reveal_strlit("function(xs:integer*) as xs:string");
        } else if k == 13 {
            reveal_strlit("function(xs:string*) as xs:integer*");
        } else if k == 14 {
            reveal_strlit("function(xs:string?, xs:string?) as xs:integer?");
        } else if k == 15 {
            reveal_strlit("function(xs:string?, xs:string?, xs:string) as xs:integer?");
        } else if k == 16 {
            reveal_strlit("function(xs:string?, xs:string?) as xs:boolean?");
        } else if k == 17 {
            reveal_strlit("function(xs:anyAtomicType?, xs:anyAtomicType?) as xs:string");
        } else if k == 18 {
            reveal_strlit("function(xs:string*) as xs:string");
        } else if k == 19 {
            reveal_strlit("function(xs:string*, xs:string) as xs:string");
        } else if k == 20 {
            reveal_strlit("function(xs:string?, xs:double) as xs:string");
        } else if k == 21 {
            reveal_strlit("function(xs:string?, xs:double, xs:double) as xs:string");
        } else if k == 22 {
            reveal_strlit("function() as xs:integer");
        } else if k == 23 {
            reveal_strlit("function(xs:string?) as xs:integer");
        } else if k == 24 {
            reveal_strlit("function() as xs:integer");
        } else if k == 25 {
            reveal_strlit("function(xs:string?) as xs:integer");
        } else if k == 26 {
            reveal_strlit("function(xs:string?) as xs:string");
        } else if k == 27 {
            reveal_strlit("function(xs:string?) as xs:string");
        } else if k == 28 {
            reveal_strlit("function(xs:string?, xs:string, xs:string) as xs:string");
        } else if k == 29 {
            reveal_strlit("function(xs:string?, xs:string?) as xs:boolean");
        } else if k == 30 {
            reveal_strlit("function(xs:string?, xs:string?, xs:string) as xs:boolean");
        } else if k == 31 {
            reveal_strlit("function(xs:string?, xs:string?) as xs:boolean");
        } else if k == 32 {
            reveal_strlit("function(xs:string?, xs:string?, xs:string) as xs:boolean");
        } else if k == 33 {
            reveal_strlit("function(xs:string?, xs:string?) as xs:boolean");
        } else if k == 34 {
            reveal_strlit("function(xs:string?, xs:string?, xs:string) as xs:boolean");
        } else if k == 35 {
            reveal_strlit("function(xs:string?, xs:string?) as xs:string");
        } else if k == 36 {
            reveal_strlit("function(xs:string?, xs:string?, xs:string) as xs:string");
        } else if k == 37 {
            reveal_strlit("function(xs:string?, xs:string?) as xs:string");
        } else if k == 38 {
            reveal_strlit("function(xs:string?, xs:string?, xs:string) as xs:string");
        } else if k == 39 {
            reveal_strlit("function() as xs:boolean");
        } else if k == 40 {
            reveal_strlit("function() as xs:boolean");
        } else if k == 41 {
            reveal_strlit("function(item()*) as xs:boolean");
        } else if k == 42 {
            reveal_strlit("function(item()*) as xs:boolean");
        } else if k == 43 {
            reveal_strlit("function() as xs:string");
        } else if k == 44 {
            reveal_strlit("function(node()?) as xs:string");
        } else if k == 45 {
            reveal_strlit("function() as xs:string");
        } else if k == 46 {
            reveal_strlit("function(node()?) as xs:string");
        } else if k == 47 {
            reveal_strlit("function() as xs:anyURI");
        } else if k == 48 {
            reveal_strlit("function(node()?) as xs:anyURI");
        } else if k == 49 {
            reveal_strlit("function(xs:string?) as xs:boolean");
        } else if k == 50 {
            reveal_strlit("function(xs:string?, node()) as xs:boolean");
        } else if k == 51 {
            reveal_strlit("function() as node()");
        } else if k == 52 {
            reveal_strlit("function(node()?) as node()?");
        } else if k == 53 {
            reveal_strlit("function(item()*) as xs:boolean");
        } else if k == 54 {
            reveal_strlit("function(item()*) as xs:boolean");
        } else if k == 55 {
            reveal_strlit("function(item()*) as item()?");
        } else if k == 56 {
            reveal_strlit("function(item()*) as item()*");
        } else if k == 57 {
            reveal_strlit("function(item()*, xs:integer, item()*) as item()*");
        } else if k == 58 {
            reveal_strlit("function(item()*, xs:integer) as item()*");
        } else if k == 59 {
            reveal_strlit("function(item()*) as item()*");
        } else if k == 60 {
            reveal_strlit("function(item()*, xs:double) as item()*");
        } else if k == 61 {
            reveal_strlit("function(item()*, xs:double, xs:double) as item()*");
        } else if k == 62 {
            reveal_strlit("function(xs:anyAtomicType*, xs:anyAtomicType) as xs:integer*");
        } else if k == 63 {
            reveal_strlit("function(xs:anyAtomicType*, xs:anyAtomicType, xs:string) as xs:integer*");
        } else if k == 64 {
            reveal_strlit("function(item()*) as item()?");
        } else if k == 65 {
            reveal_strlit("function(item()*) as item()?");
        } else if k == 66 {
            reveal_strlit("function(item()*) as item()?");
        } else if k == 67 {
            reveal_strlit("function(item()*) as xs:integer");
        } else if k == 68 {
            reveal_strlit("function(xs:anyAtomicType*) as xs:anyAtomicType?");
        } else if k == 69 {
            reveal_strlit("function(xs:anyAtomicType*) as xs:anyAtomicType?");
        } else if k == 70 {
            reveal_strlit("function(xs:anyAtomicType*, xs:string) as xs:anyAtomicType?");
        } else if k == 71 {
            reveal_strlit("function(xs:anyAtomicType*) as xs:anyAtomicType?");
        } else if k == 72 {
            reveal_strlit("function(xs:anyAtomicType*, xs:string) as xs:anyAtomicType?");
        } else if k == 73 {
            reveal_strlit("function(xs:anyAtomicType*) as xs:anyAtomicType?");
        } else if k == 74 {
            reveal_strlit("function(xs:anyAtomicType*, xs:anyAtomicType?) as xs:anyAtomicType?");
        } else if k == 75 {
            reveal_strlit("function() as xs:integer");
        } else if k == 76 {
            reveal_strlit("function() as xs:integer");
        } else if k == 77 {
            reveal_strlit("function(item()*, function(item()) as item()*) as item()*");
        } else if k == 78 {
            reveal_strlit("function(item()*, function(item()) as xs:boolean) as item()*");
        } else if k == 79 {
            reveal_strlit("function(map(*)) as xs:integer");
        } else if k == 80 {
            reveal_strlit("function(map(*)) as xs:anyAtomicType*");
        } else if k == 81 {
            reveal_strlit("function(map(*), xs:anyAtomicType) as xs:boolean");
        } else if k == 82 {
            reveal_strlit("function(map(*), xs:anyAtomicType) as item()*");
        } else if k == 83 {
            reveal_strlit("function(array(*)) as xs:integer");
        } else if k == 84 {
            reveal_strlit("function(array(*), xs:integer) as item()*");
        } else if k == 85 {
            reveal_strlit("function(item()*) as item()*");
        }
    }
}

/// The signature that a reference names is at most 100 characters long.
pub proof fn lemma_signature_short(name: Seq<char>, k: int)
    ensures
        signature_from(name, k).len() <= 100,
    decreases signature_table().len() - k,
{
    lemma_signature_table_short();
    if 0 <= k < signature_table().len() && signature_table()[k].0 != name {
        lemma_signature_short(name, k + 1);
    }
}

/// The functions that read the context or the evaluation environment: the
/// number of arguments and the name.
pub open spec fn context_function_table() -> Seq<(int, Seq<char>)> {
    seq![
        (0, "fn:nilled"@),
        (0, "fn:string"@),
        (0, "fn:data"@),
        (0, "fn:number"@),
        (0, "fn:string-length"@),
        (0, "fn:normalize-space"@),
        (0, "fn:name"@),
        (0, "fn:local-name"@),
        (0, "fn:namespace-uri"@),
        (1, "fn:lang"@),
        (0, "fn:root"@),
        (0, "fn:position"@),
        (0, "fn:last"@),
        (2, "fn:for-each"@),
        (2, "fn:filter"@),
    ]
}

/// The other functions: the number of arguments (the largest `usize` for any
/// number) and the name.
pub open spec fn function_table() -> Seq<(int, Seq<char>)> {
    seq![
        (1, "fn:nilled"@),
        (1, "fn:string"@),
        (1, "fn:data"@),
        (1, "fn:abs"@),
        (1, "fn:ceiling"@),
        (1, "fn:floor"@),
        (1, "fn:round"@),
        (1, "fn:number"@),
        (1, "fn:codepoints-to-string"@),
        (1, "fn:string-to-codepoints"@),
        (2, "fn:compare"@),
        (2, "fn:codepoint-equal"@),
        (usize::MAX as int, "fn:concat"@),
        (1, "fn:string-join"@),
        (2, "fn:string-join"@),
        (2, "fn:substring"@),
        (3, "fn:substring"@),
        (1, "fn:string-length"@),
        (1, "fn:normalize-space"@),
        (1, "fn:upper-case"@),
        (1, "fn:lower-case"@),
        (3, "fn:translate"@),
        (2, "fn:contains"@),
        (2, "fn:starts-with"@),
        (2, "fn:ends-with"@),
        (2, "fn:substring-before"@),
        (2, "fn:substring-after"@),
        (0, "fn:true"@),
        (0, "fn:false"@),
        (1, "fn:boolean"@),
        (1, "fn:not"@),
        (1, "fn:name"@),
        (1, "fn:local-name"@),
        (1, "fn:namespace-uri"@),
        (2, "fn:lang"@),
        (1, "fn:root"@),
        (1, "fn:empty"@),
        (1, "fn:exists"@),
        (1, "fn:head"@),
        (1, "fn:tail"@),
        (3, "fn:insert-before"@),
        (2, "fn:remove"@),
        (1, "fn:reverse"@),
        (2, "fn:subsequence"@),
        (3, "fn:subsequence"@),
        (2, "fn:index-of"@),
        (1, "fn:zero-or-one"@),
        (1, "fn:one-or-more"@),
        (1, "fn:exactly-one"@),
        (1, "fn:count"@),
        (1, "fn:avg"@),
        (1, "fn:max"@),
        (1, "fn:min"@),
        (1, "fn:sum"@),
        (2, "fn:sum"@),
        (1, "map:size"@),
        (1, "map:keys"@),
        (2, "map:contains"@),
        (2, "map:get"@),
        (1, "array:size"@),
        (2, "array:get"@),
        (1, "array:flatten"@),
    ]
}

/// Whether a function of this name takes this number of arguments.
pub open spec fn spec_check_function_spec(name: Seq<char>, num_args: int) -> bool {
    ||| exists|k: int| 0 <= k < context_function_table().len()
        && #[trigger] context_function_table()[k].0 == num_args && context_function_table()[k].1 == name
    ||| exists|k: int| 0 <= k < function_table().len()
        && (#[trigger] function_table()[k].0 == num_args || function_table()[k].0 == usize::MAX as int)
        && function_table()[k].1 == name
}

/// The functions that a call may name, each with the numbers of arguments
/// it takes: the functions that may also read the context (`fn:string()`,
/// `fn:position()`, ...), and the functions on values, strings, sequences,
/// maps and arrays; `fn:concat` takes any number of arguments.
pub proof fn law_builtin_functions()
    ensures
        spec_check_function_spec("fn:nilled"@, 0),
        spec_check_function_spec("fn:string"@, 0),
        spec_check_function_spec("fn:data"@, 0),
        spec_check_function_spec("fn:number"@, 0),
        spec_check_function_spec("fn:string-length"@, 0),
        spec_check_function_spec("fn:normalize-space"@, 0),
        spec_check_function_spec("fn:name"@, 0),
        spec_check_function_spec("fn:local-name"@, 0),
        spec_check_function_spec("fn:namespace-uri"@, 0),
        spec_check_function_spec("fn:lang"@, 1),
        spec_check_function_spec("fn:root"@, 0),
        spec_check_function_spec("fn:position"@, 0),
        spec_check_function_spec("fn:last"@, 0),
        spec_check_function_spec("fn:for-each"@, 2),
        spec_check_function_spec("fn:filter"@, 2),
        spec_check_function_spec("fn:nilled"@, 1),
        spec_check_function_spec("fn:string"@, 1),
        spec_check_function_spec("fn:data"@, 1),
        spec_check_function_spec("fn:abs"@, 1),
        spec_check_function_spec("fn:ceiling"@, 1),
        spec_check_function_spec("fn:floor"@, 1),
        spec_check_function_spec("fn:round"@, 1),
        spec_check_function_spec("fn:number"@, 1),
        spec_check_function_spec("fn:codepoints-to-string"@, 1),
        spec_check_function_spec("fn:string-to-codepoints"@, 1),
        spec_check_function_spec("fn:compare"@, 2),
        spec_check_function_spec("fn:codepoint-equal"@, 2),
        forall|n: int| #[trigger] spec_check_function_spec("fn:concat"@, n),
        spec_check_function_spec("fn:string-join"@, 1),
        spec_check_function_spec("fn:string-join"@, 2),
        spec_check_function_spec("fn:substring"@, 2),
        spec_check_function_spec("fn:substring"@, 3),
        spec_check_function_spec("fn:string-length"@, 1),
        spec_check_function_spec("fn:normalize-space"@, 1),
        spec_check_function_spec("fn:upper-case"@, 1),
        spec_check_function_spec("fn:lower-case"@, 1),
        spec_check_function_spec("fn:translate"@, 3),
        spec_check_function_spec("fn:contains"@, 2),
        spec_check_function_spec("fn:starts-with"@, 2),
        spec_check_function_spec("fn:ends-with"@, 2),
        spec_check_function_spec("fn:substring-before"@, 2),
        spec_check_function_spec("fn:substring-after"@, 2),
        spec_check_function_spec("fn:true"@, 0),
        spec_check_function_spec("fn:false"@, 0),
        spec_check_function_spec("fn:boolean"@, 1),
        spec_check_function_spec("fn:not"@, 1),
        spec_check_function_spec("fn:name"@, 1),
        spec_check_function_spec("fn:local-name"@, 1),
        spec_check_function_spec("fn:namespace-uri"@, 1),
        spec_check_function_spec("fn:lang"@, 2),
        spec_check_function_spec("fn:root"@, 1),
        spec_check_function_spec("fn:empty"@, 1),
        spec_check_function_spec("fn:exists"@, 1),
        spec_check_function_spec("fn:head"@, 1),
        spec_check_function_spec("fn:tail"@, 1),
        spec_check_function_spec("fn:insert-before"@, 3),
        spec_check_function_spec("fn:remove"@, 2),
        spec_check_function_spec("fn:reverse"@, 1),
        spec_check_function_spec("fn:subsequence"@, 2),
        spec_check_function_spec("fn:subsequence"@, 3),
        spec_check_function_spec("fn:index-of"@, 2),
        spec_check_function_spec("fn:zero-or-one"@, 1),
        spec_check_function_spec("fn:one-or-more"@, 1),
        spec_check_function_spec("fn:exactly-one"@, 1),
        spec_check_function_spec("fn:count"@, 1),
        spec_check_function_spec("fn:avg"@, 1),
        spec_check_function_spec("fn:max"@, 1),
        spec_check_function_spec("fn:min"@, 1),
        spec_check_function_spec("fn:sum"@, 1),
        spec_check_function_spec("fn:sum"@, 2),
        spec_check_function_spec("map:size"@, 1),
        spec_check_function_spec("map:keys"@, 1),
        spec_check_function_spec("map:contains"@, 2),
        spec_check_function_spec("map:get"@, 2),
        spec_check_function_spec("array:size"@, 1),
        spec_check_function_spec("array:get"@, 2),
        spec_check_function_spec("array:flatten"@, 1),
{
    assert(context_function_table()[0].0 == 0 && context_function_table()[0].1 == "fn:nilled"@);
    assert(context_function_table()[1].0 == 0 && context_function_table()[1].1 == "fn:string"@);
    assert(context_function_table()[2].0 == 0 && context_function_table()[2].1 == "fn:data"@);
    assert(context_function_table()[3].0 == 0 && context_function_table()[3].1 == "fn:number"@);
    assert(context_function_table()[4].0 == 0 && context_function_table()[4].1 == "fn:string-length"@);
    assert(context_function_table()[5].0 == 0 && context_function_table()[5].1 == "fn:normalize-space"@);
    assert(context_function_table()[6].0 == 0 && context_function_table()[6].1 == "fn:name"@);
    assert(context_function_table()[7].0 == 0 && context_function_table()[7].1 == "fn:local-name"@);
    assert(context_function_table()[8].0 == 0 && context_function_table()[8].1 == "fn:namespace-uri"@);
    assert(context_function_table()[9].0 == 1 && context_function_table()[9].1 == "fn:lang"@);
    assert(context_function_table()[10].0 == 0 && context_function_table()[10].1 == "fn:root"@);
    assert(context_function_table()[11].0 == 0 && context_function_table()[11].1 == "fn:position"@);
    assert(context_function_table()[12].0 == 0 && context_function_table()[12].1 == "fn:last"@);
    assert(context_function_table()[13].0 == 2 && context_function_table()[13].1 == "fn:for-each"@);
    assert(context_function_table()[14].0 == 2 && context_function_table()[14].1 == "fn:filter"@);
    assert(function_table()[0].0 == 1 && function_table()[0].1 == "fn:nilled"@);
    assert(function_table()[1].0 == 1 && function_table()[1].1 == "fn:string"@);
    assert(function_table()[2].0 == 1 && function_table()[2].1 == "fn:data"@);
    assert(function_table()[3].0 == 1 && function_table()[3].1 == "fn:abs"@);
    assert(function_table()[4].0 == 1 && function_table()[4].1 == "fn:ceiling"@);
    assert(function_table()[5].0 == 1 && function_table()[5].1 == "fn:floor"@);
    assert(function_table()[6].0 == 1 && function_table()[6].1 == "fn:round"@);
    assert(function_table()[7].0 == 1 && function_table()[7].1 == "fn:number"@);
    assert(function_table()[8].0 == 1 && function_table()[8].1 == "fn:codepoints-to-string"@);
    assert(function_table()[9].0 == 1 && function_table()[9].1 == "fn:string-to-codepoints"@);
    assert(function_table()[10].0 == 2 && function_table()[10].1 == "fn:compare"@);
    assert(function_table()[11].0 == 2 && function_table()[11].1 == "fn:codepoint-equal"@);
    assert forall|n: int| #[trigger] spec_check_function_spec("fn:concat"@, n) by {
        assert(function_table()[12].0 == usize::MAX as int && function_table()[12].1 == "fn:concat"@);
    }
    assert(function_table()[13].0 == 1 && function_table()[13].1 == "fn:string-join"@);
    assert(function_table()[14].0 == 2 && function_table()[14].1 == "fn:string-join"@);
    assert(function_table()[15].0 == 2 && function_table()[15].1 == "fn:substring"@);
    assert(function_table()[16].0 == 3 && function_table()[16].1 == "fn:substring"@);
    assert(function_table()[17].0 == 1 && function_table()[17].1 == "fn:string-length"@);
    assert(function_table()[18].0 == 1 && function_table()[18].1 == "fn:normalize-space"@);
    assert(function_table()[19].0 == 1 && function_table()[19].1 == "fn:upper-case"@);
    assert(function_table()[20].0 == 1 && function_table()[20].1 == "fn:lower-case"@);
    assert(function_table()[21].0 == 3 && function_table()[21].1 == "fn:translate"@);
    assert(function_table()[22].0 == 2 && function_table()[22].1 == "fn:contains"@);
    assert(function_table()[23].0 == 2 && function_table()[23].1 == "fn:starts-with"@);
    assert(function_table()[24].0 == 2 && function_table()[24].1 == "fn:ends-with"@);
    assert(function_table()[25].0 == 2 && function_table()[25].1 == "fn:substring-before"@);
    assert(function_table()[26].0 == 2 && function_table()[26].1 == "fn:substring-after"@);
    assert(function_table()[27].0 == 0 && function_table()[27].1 == "fn:true"@);
    assert(function_table()[28].0 == 0 && function_table()[28].1 == "fn:false"@);
    assert(function_table()[29].0 == 1 && function_table()[29].1 == "fn:boolean"@);
    assert(function_table()[30].0 == 1 && function_table()[30].1 == "fn:not"@);
    assert(function_table()[31].0 == 1 && function_table()[31].1 == "fn:name"@);
    assert(function_table()[32].0 == 1 && function_table()[32].1 == "fn:local-name"@);
    assert(function_table()[33].0 == 1 && function_table()[33].1 == "fn:namespace-uri"@);
    assert(function_table()[34].0 == 2 && function_table()[34].1 == "fn:lang"@);
    assert(function_table()[35].0 == 1 && function_table()[35].1 == "fn:root"@);
    assert(function_table()[36].0 == 1 && function_table()[36].1 == "fn:empty"@);
    assert(function_table()[37].0 == 1 && function_table()[37].1 == "fn:exists"@);
    assert(function_table()[38].0 == 1 && function_table()[38].1 == "fn:head"@);
    assert(function_table()[39].0 == 1 && function_table()[39].1 == "fn:tail"@);
    assert(function_table()[40].0 == 3 && function_table()[40].1 == "fn:insert-before"@);
    assert(function_table()[41].0 == 2 && function_table()[41].1 == "fn:remove"@);
    assert(function_table()[42].0 == 1 && function_table()[42].1 == "fn:reverse"@);
    assert(function_table()[43].0 == 2 && function_table()[43].1 == "fn:subsequence"@);
    assert(function_table()[44].0 == 3 && function_table()[44].1 == "fn:subsequence"@);
    assert(function_table()[45].0 == 2 && function_table()[45].1 == "fn:index-of"@);
    assert(function_table()[46].0 == 1 && function_table()[46].1 == "fn:zero-or-one"@);
    assert(function_table()[47].0 == 1 && function_table()[47].1 == "fn:one-or-more"@);
    assert(function_table()[48].0 == 1 && function_table()[48].1 == "fn:exactly-one"@);
    assert(function_table()[49].0 == 1 && function_table()[49].1 == "fn:count"@);
    assert(function_table()[50].0 == 1 && function_table()[50].1 == "fn:avg"@);
    assert(function_table()[51].0 == 1 && function_table()[51].1 == "fn:max"@);
    assert(function_table()[52].0 == 1 && function_table()[52].1 == "fn:min"@);
    assert(function_table()[53].0 == 1 && function_table()[53].1 == "fn:sum"@);
    assert(function_table()[54].0 == 2 && function_table()[54].1 == "fn:sum"@);
    assert(function_table()[55].0 == 1 && function_table()[55].1 == "map:size"@);
    assert(function_table()[56].0 == 1 && function_table()[56].1 == "map:keys"@);
    assert(function_table()[57].0 == 2 && function_table()[57].1 == "map:contains"@);
    assert(function_table()[58].0 == 2 && function_table()[58].1 == "map:get"@);
    assert(function_table()[59].0 == 1 && function_table()[59].1 == "array:size"@);
    assert(function_table()[60].0 == 2 && function_table()[60].1 == "array:get"@);
    assert(function_table()[61].0 == 1 && function_table()[61].1 == "array:flatten"@);
}

/// The signature of the function that `func_name` (`name#arity`) refers to,
/// or the empty string when there is none.
pub fn get_function_signature(func_name: &str) -> (s: String)
    ensures
        s@ == signature_from(func_name@, 0),
{
    let tbl: [(&str, &str); 86] = [
        ("fn:nilled#0", "function() as xs:boolean?"),
        ("fn:nilled#1", "function(node()?) as xs:boolean?"),
        ("fn:string#0", "function() as xs:string"),
        ("fn:string#1", "function(item()?) as xs:string"),
        ("fn:data#0", "function() as xs:anyAtomicType*"),
        ("fn:data#1", "function(item()*) as xs:anyAtomicType*"),
        ("fn:abs#1", "function(numeric?) as numeric?"),
        ("fn:ceiling#1", "function(numeric?) as numeric?"),
        ("fn:floor#1", "function(numeric?) as numeric?"),
        ("fn:round#1", "function(numeric?) as numeric?"),
        ("fn:number#0", "function() as xs:double"),
        ("fn:number#1", "function(xs:anyAtomicType?) as xs:double"),
        ("fn:codepoints-to-string#1", "function(xs:integer*) as xs:string"),
        ("fn:string-to-codepoints#1", "function(xs:string*) as xs:integer*"),
        ("fn:compare#2", "function(xs:string?, xs:string?) as xs:integer?"),
        ("fn:compare#3", "function(xs:string?, xs:string?, xs:string) as xs:integer?"),
        ("fn:codepoint-equal#2", "function(xs:string?, xs:string?) as xs:boolean?"),
        ("fn:concat#2", "function(xs:anyAtomicType?, xs:anyAtomicType?) as xs:string"),
        ("fn:string-join#1", "function(xs:string*) as xs:string"),
        ("fn:string-join#2", "function(xs:string*, xs:string) as xs:string"),
        ("fn:substring#2", "function(xs:string?, xs:double) as xs:string"),
        ("fn:substring#3", "function(xs:string?, xs:double, xs:double) as xs:string"),
        ("fn:string-length#0", "function() as xs:integer"),
        ("fn:string-length#1", "function(xs:string?) as xs:integer"),
        ("fn:normalize-space#0", "function() as xs:integer"),
        ("fn:normalize-space#1", "function(xs:string?) as xs:integer"),
        ("fn:upper-case#1", "function(xs:string?) as xs:string"),
        ("fn:lower-case#1", "function(xs:string?) as xs:string"),
        ("fn:translate#3", "function(xs:string?, xs:string, xs:string) as xs:string"),
        ("fn:contains#2", "function(xs:string?, xs:string?) as xs:boolean"),
        ("fn:contains#3", "function(xs:string?, xs:string?, xs:string) as xs:boolean"),
        ("fn:starts-with#2", "function(xs:string?, xs:string?) as xs:boolean"),
        ("fn:starts-with#3", "function(xs:string?, xs:string?, xs:string) as xs:boolean"),
        ("fn:ends-with#2", "function(xs:string?, xs:string?) as xs:boolean"),
        ("fn:ends-with#3", "function(xs:string?, xs:string?, xs:string) as xs:boolean"),
        ("fn:substring-before#2", "function(xs:string?, xs:string?) as xs:string"),
        ("fn:substring-before#3", "function(xs:string?, xs:string?, xs:string) as xs:string"),
        ("fn:substring-after#2", "function(xs:string?, xs:string?) as xs:string"),
        ("fn:substring-after#3", "function(xs:string?, xs:string?, xs:string) as xs:string"),
        ("fn:true#0", "function() as xs:boolean"),
        ("fn:false#0", "function() as xs:boolean"),
        ("fn:boolean#1", "function(item()*) as xs:boolean"),
        ("fn:not#1", "function(item()*) as xs:boolean"),
        ("fn:name#0", "function() as xs:string"),
        ("fn:name#1", "function(node()?) as xs:string"),
        ("fn:local-name#0", "function() as xs:string"),
        ("fn:local-name#1", "function(node()?) as xs:string"),
        ("fn:namespace-uri#0", "function() as xs:anyURI"),
        ("fn:namespace-uri#1", "function(node()?) as xs:anyURI"),
        ("fn:lang#1", "function(xs:string?) as xs:boolean"),
        ("fn:lang#2", "function(xs:string?, node()) as xs:boolean"),
        ("fn:root#0", "function() as node()"),
        ("fn:root#1", "function(node()?) as node()?"),
        ("fn:empty#1", "function(item()*) as xs:boolean"),
        ("fn:exists#1", "function(item()*) as xs:boolean"),
        ("fn:head#1", "function(item()*) as item()?"),
        ("fn:tail#1", "function(item()*) as item()*"),
        ("fn:insert-before#3", "function(item()*, xs:integer, item()*) as item()*"),
        ("fn:remove#2", "function(item()*, xs:integer) as item()*"),
        ("fn:reverse#1", "function(item()*) as item()*"),
        ("fn:subsequence#2", "function(item()*, xs:double) as item()*"),
        ("fn:subsequence#3", "function(item()*, xs:double, xs:double) as item()*"),
        ("fn:index-of#2", "function(xs:anyAtomicType*, xs:anyAtomicType) as xs:integer*"),
        ("fn:index-of#3", "function(xs:anyAtomicType*, xs:anyAtomicType, xs:string) as xs:integer*"),
        ("fn:zero-or-one#1", "function(item()*) as item()?"),
        ("fn:one-or-more#1", "function(item()*) as item()?"),
        ("fn:exactly-one#1", "function(item()*) as item()?"),
        ("fn:count#1", "function(item()*) as xs:integer"),
        ("fn:avg#1", "function(xs:anyAtomicType*) as xs:anyAtomicType?"),
        ("fn:max#1", "function(xs:anyAtomicType*) as xs:anyAtomicType?"),
        ("fn:max#2", "function(xs:anyAtomicType*, xs:string) as xs:anyAtomicType?"),
        ("fn:min#1", "function(xs:anyAtomicType*) as xs:anyAtomicType?"),
        ("fn:min#2", "function(xs:anyAtomicType*, xs:string) as xs:anyAtomicType?"),
        ("fn:sum#1", "function(xs:anyAtomicType*) as xs:anyAtomicType?"),
        ("fn:sum#2", "function(xs:anyAtomicType*, xs:anyAtomicType?) as xs:anyAtomicType?"),
        ("fn:position#0", "function() as xs:integer"),
        ("fn:last#0", "function() as xs:integer"),
        ("fn:for-each#2", "function(item()*, function(item()) as item()*) as item()*"),
        ("fn:filter#2", "function(item()*, function(item()) as xs:boolean) as item()*"),
        ("map:size#1", "function(map(*)) as xs:integer"),
        ("map:keys#1", "function(map(*)) as xs:anyAtomicType*"),
        ("map:contains#2", "function(map(*), xs:anyAtomicType) as xs:boolean"),
        ("map:get#2", "function(map(*), xs:anyAtomicType) as item()*"),
        ("array:size#1", "function(array(*)) as xs:integer"),
        ("array:get#2", "function(array(*), xs:integer) as item()*"),
        ("array:flatten#1", "function(item()*) as item()*"),
    ];
    assert forall|m: int| 0 <= m < 86 implies
        ((#[trigger] tbl@[m]).0@, tbl@[m].1@) == signature_table()[m] by {
            if m == 0 {
                assert((tbl@[m].0@, tbl@[m].1@) == signature_table()[m]);
            } else if m == 1 {
                assert((tbl@[m].0@, tbl@[m].1@) == signature_table()[m]);
            } else if m == 2 {
                assert((tbl@[m].0@, tbl@[m].1@) == signature_table()[m]);
            } else if m == 3 {
                assert((tbl@[m].0@, tbl@[m].1@) == signature_table()[m]);
            } else if m == 4 {
                assert((tbl@[m].0@, tbl@[m].1@) == signature_table()[m]);
            } else if m == 5 {
                assert((tbl@[m].0@, tbl@[m].1@) == signature_table()[m]);
            } else if m == 6 {
                assert((tbl@[m].0@, tbl@[m].1@) == signature_table()[m]);
            } else if m == 7 {
                assert((tbl@[m].0@, tbl@[m].1@) == signature_table()[m]);
            } else if m == 8 {
                assert((tbl@[m].0@, tbl@[m].1@) == signature_table()[m]);
            } else if m == 9 {
                assert((tbl@[m].0@, tbl@[m].1@) == signature_table()[m]);
            } else if m == 10 {
                assert((tbl@[m].0@, tbl@[m].1@) == signature_table()[m]);
            } else if m == 11 {
                assert((tbl@[m].0@, tbl@[m].1@) == signature_table()[m]);
            } else if m == 12 {
                assert((tbl@[m].0@, tbl@[m].1@) == signature_table()[m]);
            } else if m == 13 {
                assert((tbl@[m].0@, tbl@[m].1@) == signature_table()[m]);
            } else if m == 14 {
                assert((tbl@[m].0@, tbl@[m].1@) == signature_table()[m]);
            } else if m == 15 {
                assert((tbl@[m].0@, tbl@[m].1@) == signature_table()[m]);
            } else if m == 16 {
                assert((tbl@[m].0@, tbl@[m].1@) == signature_table()[m]);
            } else if m == 17 {
                assert((tbl@[m].0@, tbl@[m].1@) == signature_table()[m]);
            } else if m == 18 {
                assert((tbl@[m].0@, tbl@[m].1@) == signature_table()[m]);
            } else if m == 19 {
                assert((tbl@[m].0@, tbl@[m].1@) == signature_table()[m]);
            } else if m == 20 {
                assert((tbl@[m].0@, tbl@[m].1@) == signature_table()[m]);
            } else if m == 21 {
                assert((tbl@[m].0@, tbl@[m].1@) == signature_table()[m]);
            } else if m == 22 {
                assert((tbl@[m].0@, tbl@[m].1@) == signature_table()[m]);
            } else if m == 23 {
                assert((tbl@[m].0@, tbl@[m].1@) == signature_table()[m]);
            } else if m == 24 {
                assert((tbl@[m].0@, tbl@[m].1@) == signature_table()[m]);
            } else if m == 25 {
                assert((tbl@[m].0@, tbl@[m].1@) == signature_table()[m]);
            } else if m == 26 {
                assert((tbl@[m].0@, tbl@[m].1@) == signature_table()[m]);
            } else if m == 27 {
                assert((tbl@[m].0@, tbl@[m].1@) == signature_table()[m]);
            } else if m == 28 {
                assert((tbl@[m].0@, tbl@[m].1@) == signature_table()[m]);
            } else if m == 29 {
                assert((tbl@[m].0@, tbl@[m].1@) == signature_table()[m]);
            } else if m == 30 {
                assert((tbl@[m].0@, tbl@[m].1@) == signature_table()[m]);
            } else if m == 31 {
                assert((tbl@[m].0@, tbl@[m].1@) == signature_table()[m]);
            } else if m == 32 {
                assert((tbl@[m].0@, tbl@[m].1@) == signature_table()[m]);
            } else if m == 33 {
                assert((tbl@[m].0@, tbl@[m].1@) == signature_table()[m]);
            } else if m == 34 {
                assert((tbl@[m].0@, tbl@[m].1@) == signature_table()[m]);
            } else if m == 35 {
                assert((tbl@[m].0@, tbl@[m].1@) == signature_table()[m]);
            } else if m == 36 {
                assert((tbl@[m].0@, tbl@[m].1@) == signature_table()[m]);
            } else if m == 37 {
                assert((tbl@[m].0@, tbl@[m].1@) == signature_table()[m]);
            } else if m == 38 {
                assert((tbl@[m].0@, tbl@[m].1@) == signature_table()[m]);
            } else if m == 39 {
                assert((tbl@[m].0@, tbl@[m].1@) == signature_table()[m]);
            } else if m == 40 {
                assert((tbl@[m].0@, tbl@[m].1@) == signature_table()[m]);
            } else if m == 41 {
                assert((tbl@[m].0@, tbl@[m].1@) == signature_table()[m]);
            } else if m == 42 {
                assert((tbl@[m].0@, tbl@[m].1@) == signature_table()[m]);
            } else if m == 43 {
                assert((tbl@[m].0@, tbl@[m].1@) == signature_table()[m]);
            } else if m == 44 {
                assert((tbl@[m].0@, tbl@[m].1@) == signature_table()[m]);
            } else if m == 45 {
                assert((tbl@[m].0@, tbl@[m].1@) == signature_table()[m]);
            } else if m == 46 {
                assert((tbl@[m].0@, tbl@[m].1@) == signature_table()[m]);
            } else if m == 47 {
                assert((tbl@[m].0@, tbl@[m].1@) == signature_table()[m]);
            } else if m == 48 {
                assert((tbl@[m].0@, tbl@[m].1@) == signature_table()[m]);
            } else if m == 49 {
                assert((tbl@[m].0@, tbl@[m].1@) == signature_table()[m]);
            } else if m == 50 {
                assert((tbl@[m].0@, tbl@[m].1@) == signature_table()[m]);
            } else if m == 51 {
                assert((tbl@[m].0@, tbl@[m].1@) == signature_table()[m]);
            } else if m == 52 {
                assert((tbl@[m].0@, tbl@[m].1@) == signature_table()[m]);
            } else if m == 53 {
                assert((tbl@[m].0@, tbl@[m].1@) == signature_table()[m]);
            } else if m == 54 {
                assert((tbl@[m].0@, tbl@[m].1@) == signature_table()[m]);
            } else if m == 55 {
                assert((tbl@[m].0@, tbl@[m].1@) == signature_table()[m]);
            } else if m == 56 {
                assert((tbl@[m].0@, tbl@[m].1@) == signature_table()[m]);
            } else if m == 57 {
                assert((tbl@[m].0@, tbl@[m].1@) == signature_table()[m]);
            } else if m == 58 {
                assert((tbl@[m].0@, tbl@[m].1@) == signature_table()[m]);
            } else if m == 59 {
                assert((tbl@[m].0@, tbl@[m].1@) == signature_table()[m]);
            } else if m == 60 {
                assert((tbl@[m].0@, tbl@[m].1@) == signature_table()[m]);
            } else if m == 61 {
                assert((tbl@[m].0@, tbl@[m].1@) == signature_table()[m]);
            } else if m == 62 {
                assert((tbl@[m].0@, tbl@[m].1@) == signature_table()[m]);
            } else if m == 63 {
                assert((tbl@[m].0@, tbl@[m].1@) == signature_table()[m]);
            } else if m == 64 {
                assert((tbl@[m].0@, tbl@[m].1@) == signature_table()[m]);
            } else if m == 65 {
                assert((tbl@[m].0@, tbl@[m].1@) == signature_table()[m]);
            } else if m == 66 {
                assert((tbl@[m].0@, tbl@[m].1@) == signature_table()[m]);
            } else if m == 67 {
                assert((tbl@[m].0@, tbl@[m].1@) == signature_table()[m]);
            } else if m == 68 {
                assert((tbl@[m].0@, tbl@[m].1@) == signature_table()[m]);
            } else if m == 69 {
                assert((tbl@[m].0@, tbl@[m].1@) == signature_table()[m]);
            } else if m == 70 {
                assert((tbl@[m].0@, tbl@[m].1@) == signature_table()[m]);
            } else if m == 71 {
                assert((tbl@[m].0@, tbl@[m].1@) == signature_table()[m]);
            } else if m == 72 {
                assert((tbl@[m].0@, tbl@[m].1@) == signature_table()[m]);
            } else if m == 73 {
                assert((tbl@[m].0@, tbl@[m].1@) == signature_table()[m]);
            } else if m == 74 {
                assert((tbl@[m].0@, tbl@[m].1@) == signature_table()[m]);
            } else if m == 75 {
                assert((tbl@[m].0@, tbl@[m].1@) == signature_table()[m]);
            } else if m == 76 {
                assert((tbl@[m].0@, tbl@[m].1@) == signature_table()[m]);
            } else if m == 77 {
                assert((tbl@[m].0@, tbl@[m].1@) == signature_table()[m]);
            } else if m == 78 {
                assert((tbl@[m].0@, tbl@[m].1@) == signature_table()[m]);
            } else if m == 79 {
                assert((tbl@[m].0@, tbl@[m].1@) == signature_table()[m]);
            } else if m == 80 {
                assert((tbl@[m].0@, tbl@[m].1@) == signature_table()[m]);
            } else if m == 81 {
                assert((tbl@[m].0@, tbl@[m].1@) == signature_table()[m]);
            } else if m == 82 {
                assert((tbl@[m].0@, tbl@[m].1@) == signature_table()[m]);
            } else if m == 83 {
                assert((tbl@[m].0@, tbl@[m].1@) == signature_table()[m]);
            } else if m == 84 {
                assert((tbl@[m].0@, tbl@[m].1@) == signature_table()[m]);
            } else if m == 85 {
                assert((tbl@[m].0@, tbl@[m].1@) == signature_table()[m]);
            }
    }
    let mut k: usize = 0;
    while k < 86
        invariant
            0 <= k <= 86,
            signature_from(func_name@, 0) == signature_from(func_name@, k as int),
            forall|m: int| 0 <= m < 86 ==>
                ((#[trigger] tbl@[m]).0@, tbl@[m].1@) == signature_table()[m],
        decreases 86 - k,
    {
        let (t_func_name, t_signature) = tbl[k];
        assert((tbl@[k as int].0@, tbl@[k as int].1@) == signature_table()[k as int]);
        if str_eq(t_func_name, func_name) {
            return String::from_str(t_signature);
        }
        k += 1;
    }
    String::new()
}

/// Whether a function of this name takes this number of arguments; the
/// parser checks each call against it.
pub fn check_function_spec(func_name: &str, num_args: usize) -> (b: bool)
    ensures
        b == spec_check_function_spec(func_name@, num_args as int),
{
    let ctx: [(usize, &str); 15] = [
        (0, "fn:nilled"),
        (0, "fn:string"),
        (0, "fn:data"),
        (0, "fn:number"),
        (0, "fn:string-length"),
        (0, "fn:normalize-space"),
        (0, "fn:name"),
        (0, "fn:local-name"),
        (0, "fn:namespace-uri"),
        (1, "fn:lang"),
        (0, "fn:root"),
        (0, "fn:position"),
        (0, "fn:last"),
        (2, "fn:for-each"),
        (2, "fn:filter"),
    ];
    assert forall|m: int| 0 <= m < 15 implies
        ((#[trigger] ctx@[m]).0 as int, ctx@[m].1@) == context_function_table()[m] by {
            if m == 0 {
                assert((ctx@[m].0 as int, ctx@[m].1@) == context_function_table()[m]);
            } else if m == 1 {
                assert((ctx@[m].0 as int, ctx@[m].1@) == context_function_table()[m]);
            } else if m == 2 {
                assert((ctx@[m].0 as int, ctx@[m].1@) == context_function_table()[m]);
            } else if m == 3 {
                assert((ctx@[m].0 as int, ctx@[m].1@) == context_function_table()[m]);
            } else if m == 4 {
                assert((ctx@[m].0 as int, ctx@[m].1@) == context_function_table()[m]);
            } else if m == 5 {
                assert((ctx@[m].0 as int, ctx@[m].1@) == context_function_table()[m]);
            } else if m == 6 {
                assert((ctx@[m].0 as int, ctx@[m].1@) == context_function_table()[m]);
            } else if m == 7 {
                assert((ctx@[m].0 as int, ctx@[m].1@) == context_function_table()[m]);
            } else if m == 8 {
                assert((ctx@[m].0 as int, ctx@[m].1@) == context_function_table()[m]);
            } else if m == 9 {
                assert((ctx@[m].0 as int, ctx@[m].1@) == context_function_table()[m]);
            } else if m == 10 {
                assert((ctx@[m].0 as int, ctx@[m].1@) == context_function_table()[m]);
            } else if m == 11 {
                assert((ctx@[m].0 as int, ctx@[m].1@) == context_function_table()[m]);
            } else if m == 12 {
                assert((ctx@[m].0 as int, ctx@[m].1@) == context_function_table()[m]);
            } else if m == 13 {
                assert((ctx@[m].0 as int, ctx@[m].1@) == context_function_table()[m]);
            } else if m == 14 {
                assert((ctx@[m].0 as int, ctx@[m].1@) == context_function_table()[m]);
            }
    }
    let mut k: usize = 0;
    while k < 15
        invariant
            0 <= k <= 15,
            forall|m: int| 0 <= m < k ==> !(context_function_table()[m].0 == num_args
                && #[trigger] context_function_table()[m].1 == func_name@),
            forall|m: int| 0 <= m < 15 ==>
                ((#[trigger] ctx@[m]).0 as int, ctx@[m].1@) == context_function_table()[m],
        decreases 15 - k,
    {
        let (t_num_args, t_func_name) = ctx[k];
        assert((ctx@[k as int].0 as int, ctx@[k as int].1@) == context_function_table()[k as int]);
        if t_num_args == num_args && str_eq(t_func_name, func_name) {
            assert(context_function_table()[k as int].0 == num_args);
            return true;
        }
        k += 1;
    }

    let ft: [(usize, &str); 62] = [
        (1, "fn:nilled"),
        (1, "fn:string"),
        (1, "fn:data"),
        (1, "fn:abs"),
        (1, "fn:ceiling"),
        (1, "fn:floor"),
        (1, "fn:round"),
        (1, "fn:number"),
        (1, "fn:codepoints-to-string"),
        (1, "fn:string-to-codepoints"),
        (2, "fn:compare"),
        (2, "fn:codepoint-equal"),
        (usize::MAX, "fn:concat"),
        (1, "fn:string-join"),
        (2, "fn:string-join"),
        (2, "fn:substring"),
        (3, "fn:substring"),
        (1, "fn:string-length"),
        (1, "fn:normalize-space"),
        (1, "fn:upper-case"),
        (1, "fn:lower-case"),
        (3, "fn:translate"),
        (2, "fn:contains"),
        (2, "fn:starts-with"),
        (2, "fn:ends-with"),
        (2, "fn:substring-before"),
        (2, "fn:substring-after"),
        (0, "fn:true"),
        (0, "fn:false"),
        (1, "fn:boolean"),
        (1, "fn:not"),
        (1, "fn:name"),
        (1, "fn:local-name"),
        (1, "fn:namespace-uri"),
        (2, "fn:lang"),
        (1, "fn:root"),
        (1, "fn:empty"),
        (1, "fn:exists"),
        (1, "fn:head"),
        (1, "fn:tail"),
        (3, "fn:insert-before"),
        (2, "fn:remove"),
        (1, "fn:reverse"),
        (2, "fn:subsequence"),
        (3, "fn:subsequence"),
        (2, "fn:index-of"),
        (1, "fn:zero-or-one"),
        (1, "fn:one-or-more"),
        (1, "fn:exactly-one"),
        (1, "fn:count"),
        (1, "fn:avg"),
        (1, "fn:max"),
        (1, "fn:min"),
        (1, "fn:sum"),
        (2, "fn:sum"),
        (1, "map:size"),
        (1, "map:keys"),
        (2, "map:contains"),
        (2, "map:get"),
        (1, "array:size"),
        (2, "array:get"),
        (1, "array:flatten"),
    ];
    assert forall|m: int| 0 <= m < 62 implies
        ((#[trigger] ft@[m]).0 as int, ft@[m].1@) == function_table()[m] by {
            if m == 0 {
                assert((ft@[m].0 as int, ft@[m].1@) == function_table()[m]);
            } else if m == 1 {
                assert((ft@[m].0 as int, ft@[m].1@) == function_table()[m]);
            } else if m == 2 {
                assert((ft@[m].0 as int, ft@[m].1@) == function_table()[m]);
            } else if m == 3 {
                assert((ft@[m].0 as int, ft@[m].1@) == function_table()[m]);
            } else if m == 4 {
                assert((ft@[m].0 as int, ft@[m].1@) == function_table()[m]);
            } else if m == 5 {
                assert((ft@[m].0 as int, ft@[m].1@) == function_table()[m]);
            } else if m == 6 {
                assert((ft@[m].0 as int, ft@[m].1@) == function_table()[m]);
            } else if m == 7 {
                assert((ft@[m].0 as int, ft@[m].1@) == function_table()[m]);
            } else if m == 8 {
                assert((ft@[m].0 as int, ft@[m].1@) == function_table()[m]);
            } else if m == 9 {
                assert((ft@[m].0 as int, ft@[m].1@) == function_table()[m]);
            } else if m == 10 {
                assert((ft@[m].0 as int, ft@[m].1@) == function_table()[m]);
            } else if m == 11 {
                assert((ft@[m].0 as int, ft@[m].1@) == function_table()[m]);
            } else if m == 12 {
                assert((ft@[m].0 as int, ft@[m].1@) == function_table()[m]);
            } else if m == 13 {
                assert((ft@[m].0 as int, ft@[m].1@) == function_table()[m]);
            } else if m == 14 {
                assert((ft@[m].0 as int, ft@[m].1@) == function_table()[m]);
            } else if m == 15 {
                assert((ft@[m].0 as int, ft@[m].1@) == function_table()[m]);
            } else if m == 16 {
                assert((ft@[m].0 as int, ft@[m].1@) == function_table()[m]);
            } else if m == 17 {
                assert((ft@[m].0 as int, ft@[m].1@) == function_table()[m]);
            } else if m == 18 {
                assert((ft@[m].0 as int, ft@[m].1@) == function_table()[m]);
            } else if m == 19 {
                assert((ft@[m].0 as int, ft@[m].1@) == function_table()[m]);
            } else if m == 20 {
                assert((ft@[m].0 as int, ft@[m].1@) == function_table()[m]);
            } else if m == 21 {
                assert((ft@[m].0 as int, ft@[m].1@) == function_table()[m]);
            } else if m == 22 {
                assert((ft@[m].0 as int, ft@[m].1@) == function_table()[m]);
            } else if m == 23 {
                assert((ft@[m].0 as int, ft@[m].1@) == function_table()[m]);
            } else if m == 24 {
                assert((ft@[m].0 as int, ft@[m].1@) == function_table()[m]);
            } else if m == 25 {
                assert((ft@[m].0 as int, ft@[m].1@) == function_table()[m]);
            } else if m == 26 {
                assert((ft@[m].0 as int, ft@[m].1@) == function_table()[m]);
            } else if m == 27 {
                assert((ft@[m].0 as int, ft@[m].1@) == function_table()[m]);
            } else if m == 28 {
                assert((ft@[m].0 as int, ft@[m].1@) == function_table()[m]);
            } else if m == 29 {
                assert((ft@[m].0 as int, ft@[m].1@) == function_table()[m]);
            } else if m == 30 {
                assert((ft@[m].0 as int, ft@[m].1@) == function_table()[m]);
            } else if m == 31 {
                assert((ft@[m].0 as int, ft@[m].1@) == function_table()[m]);
            } else if m == 32 {
                assert((ft@[m].0 as int, ft@[m].1@) == function_table()[m]);
            } else if m == 33 {
                assert((ft@[m].0 as int, ft@[m].1@) == function_table()[m]);
            } else if m == 34 {
                assert((ft@[m].0 as int, ft@[m].1@) == function_table()[m]);
            } else if m == 35 {
                assert((ft@[m].0 as int, ft@[m].1@) == function_table()[m]);
            } else if m == 36 {
                assert((ft@[m].0 as int, ft@[m].1@) == function_table()[m]);
            } else if m == 37 {
                assert((ft@[m].0 as int, ft@[m].1@) == function_table()[m]);
            } else if m == 38 {
                assert((ft@[m].0 as int, ft@[m].1@) == function_table()[m]);
            } else if m == 39 {
                assert((ft@[m].0 as int, ft@[m].1@) == function_table()[m]);
            } else if m == 40 {
                assert((ft@[m].0 as int, ft@[m].1@) == function_table()[m]);
            } else if m == 41 {
                assert((ft@[m].0 as int, ft@[m].1@) == function_table()[m]);
            } else if m == 42 {
                assert((ft@[m].0 as int, ft@[m].1@) == function_table()[m]);
            } else if m == 43 {
                assert((ft@[m].0 as int, ft@[m].1@) == function_table()[m]);
            } else if m == 44 {
                assert((ft@[m].0 as int, ft@[m].1@) == function_table()[m]);
            } else if m == 45 {
                assert((ft@[m].0 as int, ft@[m].1@) == function_table()[m]);
            } else if m == 46 {
                assert((ft@[m].0 as int, ft@[m].1@) == function_table()[m]);
            } else if m == 47 {
                assert((ft@[m].0 as int, ft@[m].1@) == function_table()[m]);
            } else if m == 48 {
                assert((ft@[m].0 as int, ft@[m].1@) == function_table()[m]);
            } else if m == 49 {
                assert((ft@[m].0 as int, ft@[m].1@) == function_table()[m]);
            } else if m == 50 {
                assert((ft@[m].0 as int, ft@[m].1@) == function_table()[m]);
            } else if m == 51 {
                assert((ft@[m].0 as int, ft@[m].1@) == function_table()[m]);
            } else if m == 52 {
                assert((ft@[m].0 as int, ft@[m].1@) == function_table()[m]);
            } else if m == 53 {
                assert((ft@[m].0 as int, ft@[m].1@) == function_table()[m]);
            } else if m == 54 {
                assert((ft@[m].0 as int, ft@[m].1@) == function_table()[m]);
            } else if m == 55 {
                assert((ft@[m].0 as int, ft@[m].1@) == function_table()[m]);
            } else if m == 56 {
                assert((ft@[m].0 as int, ft@[m].1@) == function_table()[m]);
            } else if m == 57 {
                assert((ft@[m].0 as int, ft@[m].1@) == function_table()[m]);
            } else if m == 58 {
                assert((ft@[m].0 as int, ft@[m].1@) == function_table()[m]);
            } else if m == 59 {
                assert((ft@[m].0 as int, ft@[m].1@) == function_table()[m]);
            } else if m == 60 {
                assert((ft@[m].0 as int, ft@[m].1@) == function_table()[m]);
            } else if m == 61 {
                assert((ft@[m].0 as int, ft@[m].1@) == function_table()[m]);
            }
    }
    let mut k: usize = 0;
    while k < 62
        invariant
            0 <= k <= 62,
            forall|m: int| 0 <= m < k ==> !((function_table()[m].0 == num_args
                || function_table()[m].0 == usize::MAX as int)
                && #[trigger] function_table()[m].1 == func_name@),
            forall|m: int| 0 <= m < 62 ==>
                ((#[trigger] ft@[m]).0 as int, ft@[m].1@) == function_table()[m],
            !(exists|j: int| 0 <= j < context_function_table().len()
                && #[trigger] context_function_table()[j].0 == num_args && context_function_table()[j].1 == func_name@),
        decreases 62 - k,
    {
        let (t_num_args, t_func_name) = ft[k];
        assert((ft@[k as int].0 as int, ft@[k as int].1@) == function_table()[k as int]);
        if t_num_args == num_args && str_eq(t_func_name, func_name) {
            assert(function_table()[k as int].0 == num_args);
            return true;
        }
        if t_num_args == usize::MAX && str_eq(t_func_name, func_name) {
            assert(function_table()[k as int].0 == usize::MAX as int);
            return true;
        }
        k += 1;
    }
    false
}

} // verus!
