//! The string functions of XPath on the strings they are given: substring
//! matching, character translation, space removal, joining, and comparison
//! by code point. An empty sequence given for a string argument is read as
//! the empty string by their callers.

use vstd::prelude::*;
use crate::error::{XPathError, XPathErrorKind, new_error};
use crate::text::{chars_of, push_char, str_eq};

verus! {

// =====================================================================
// Substrings.

/// Whether `b` occurs in `a` at position `p`.
pub open spec fn occurs_at(a: Seq<char>, b: Seq<char>, p: int) -> bool {
    &&& 0 <= p
    &&& p + b.len() <= a.len()
    &&& a.subrange(p, p + b.len()) == b
}

/// The first position at or after `p` where `b` occurs in `a`.
pub open spec fn first_occurrence_from(a: Seq<char>, b: Seq<char>, p: int) -> Option<int>
    decreases a.len() + 1 - p,
{
    if p < 0 || p + b.len() > a.len() {
        None
    } else if a.subrange(p, p + b.len()) == b {
        Some(p)
    } else {
        first_occurrence_from(a, b, p + 1)
    }
}

/// The first position where `b` occurs in `a`.
pub open spec fn first_occurrence(a: Seq<char>, b: Seq<char>) -> Option<int> {
    first_occurrence_from(a, b, 0)
}

/// The first occurrence found from `p` on is an occurrence, and there is
/// none between `p` and it; when none is found, there is none from `p` on.
pub proof fn lemma_first_occurrence_from(a: Seq<char>, b: Seq<char>, p: int)
    requires
        0 <= p,
    ensures
        match first_occurrence_from(a, b, p) {
            Some(q) => p <= q && occurs_at(a, b, q) && forall|r: int| p <= r < q ==> !#[trigger] occurs_at(a, b, r),
            None => forall|r: int| p <= r ==> !#[trigger] occurs_at(a, b, r),
        },
    decreases a.len() + 1 - p,
{
    if p + b.len() > a.len() {
    } else if a.subrange(p, p + b.len()) == b {
    } else {
        lemma_first_occurrence_from(a, b, p + 1);
    }
}

/// Whether `b` stands in `a` at position `p`, for a position where it fits.
fn matches_at(a: &Vec<char>, b: &Vec<char>, p: usize) -> (r: bool)
    requires
        p + b@.len() <= a@.len(),
    ensures
        r == (a@.subrange(p as int, p + b@.len()) == b@),
{
    let n = a.len();
    let m = b.len();
    let mut k: usize = 0;
    while k < m
        invariant
            n == a@.len(),
            m == b@.len(),
            p + m <= n,
            k <= m,
            forall|j: int| 0 <= j < k ==> a@[p + j] == b@[j],
        decreases m - k,
    {
        if a[p + k] != b[k] {
            assert(a@.subrange(p as int, p + m)[k as int] != b@[k as int]);
            return false;
        }
        k += 1;
    }
    assert(a@.subrange(p as int, p + m) =~= b@);
    true
}

/// The position of the first occurrence of `b` in `a`.
fn find_first(a: &Vec<char>, b: &Vec<char>) -> (r: Option<usize>)
    ensures
        match r {
            Some(p) => first_occurrence(a@, b@) == Some(p as int),
            None => first_occurrence(a@, b@) is None,
        },
{
    let n = a.len();
    let m = b.len();
    if m > n {
        return None;
    }
    let mut p: usize = 0;
    loop
        invariant
            n == a@.len(),
            m == b@.len(),
            m <= n,
            p <= n - m,
            first_occurrence(a@, b@) == first_occurrence_from(a@, b@, p as int),
        decreases n - m - p,
    {
        if matches_at(a, b, p) {
            return Some(p);
        }
        if p == n - m {
            assert(first_occurrence_from(a@, b@, p + 1) is None);
            return None;
        }
        p += 1;
    }
}

/// `fn:contains`: whether `arg2` occurs in `arg1`; the empty string occurs
/// in every string.
pub fn fn_contains(arg1: &str, arg2: &str) -> (r: bool)
    ensures
        r == exists|p: int| occurs_at(arg1@, arg2@, p),
{
    let a = chars_of(arg1);
    let b = chars_of(arg2);
    let found = find_first(&a, &b);
    proof {
        lemma_first_occurrence_from(arg1@, arg2@, 0);
    }
    found.is_some()
}

/// `fn:starts-with`: whether `arg1` begins with `arg2`.
pub fn fn_starts_with(arg1: &str, arg2: &str) -> (r: bool)
    ensures
        r == (arg2@.len() <= arg1@.len() && arg1@.subrange(0, arg2@.len() as int) == arg2@),
{
    let a = chars_of(arg1);
    let b = chars_of(arg2);
    if b.len() > a.len() {
        return false;
    }
    matches_at(&a, &b, 0)
}

/// `fn:ends-with`: whether `arg1` ends with `arg2`.
pub fn fn_ends_with(arg1: &str, arg2: &str) -> (r: bool)
    ensures
        r == (arg2@.len() <= arg1@.len()
            && arg1@.subrange(arg1@.len() - arg2@.len(), arg1@.len() as int) == arg2@),
{
    let a = chars_of(arg1);
    let b = chars_of(arg2);
    if b.len() > a.len() {
        return false;
    }
    matches_at(&a, &b, a.len() - b.len())
}

/// `fn:substring-before`: the part of `arg1` before the first occurrence
/// of `arg2`, or the empty string when `arg2` does not occur.
pub fn fn_substring_before(arg1: &str, arg2: &str) -> (r: String)
    ensures
        r@ == match first_occurrence(arg1@, arg2@) {
            Some(p) => arg1@.subrange(0, p),
            None => Seq::empty(),
        },
{
    let a = chars_of(arg1);
    let b = chars_of(arg2);
    proof {
        lemma_first_occurrence_from(arg1@, arg2@, 0);
    }
    match find_first(&a, &b) {
        Some(p) => String::from_str(arg1.substring_char(0, p)),
        None => String::new(),
    }
}

/// `fn:substring-after`: the part of `arg1` after the first occurrence of
/// `arg2`, or the empty string when `arg2` does not occur.
pub fn fn_substring_after(arg1: &str, arg2: &str) -> (r: String)
    ensures
        r@ == match first_occurrence(arg1@, arg2@) {
            Some(p) => arg1@.subrange(p + arg2@.len(), arg1@.len() as int),
            None => Seq::empty(),
        },
{
    let a = chars_of(arg1);
    let b = chars_of(arg2);
    proof {
        lemma_first_occurrence_from(arg1@, arg2@, 0);
    }
    let n = a.len();
    let m = b.len();
    match find_first(&a, &b) {
        Some(p) => String::from_str(arg1.substring_char(p + m, n)),
        None => String::new(),
    }
}

/// Where `arg2` occurs in `arg1`, what comes before its first occurrence,
/// `arg2` itself and what comes after it make up `arg1` again.
pub proof fn law_before_and_after(arg1: Seq<char>, arg2: Seq<char>)
    requires
        exists|p: int| occurs_at(arg1, arg2, p),
    ensures
        first_occurrence(arg1, arg2) matches Some(p) && arg1.subrange(0, p) + arg2
            + arg1.subrange(p + arg2.len(), arg1.len() as int) == arg1,
{
    lemma_first_occurrence_from(arg1, arg2, 0);
    let q = choose|p: int| occurs_at(arg1, arg2, p);
    assert(occurs_at(arg1, arg2, q));
    match first_occurrence(arg1, arg2) {
        Some(p) => {
            assert(arg1.subrange(0, p) + arg2 + arg1.subrange(p + arg2.len(), arg1.len() as int) =~= arg1);
        },
        None => {},
    }
}

/// A string that begins with `arg2` contains it.
pub proof fn law_starts_with_contains(arg1: Seq<char>, arg2: Seq<char>)
    requires
        arg2.len() <= arg1.len(),
        arg1.subrange(0, arg2.len() as int) == arg2,
    ensures
        exists|p: int| occurs_at(arg1, arg2, p),
{
    assert(occurs_at(arg1, arg2, 0));
}

// =====================================================================
// Character translation.

/// The last position of `c` in `s`.
pub open spec fn last_index_of(s: Seq<char>, c: char) -> Option<int>
    decreases s.len(),
{
    if s.len() == 0 {
        None
    } else if s.last() == c {
        Some(s.len() - 1)
    } else {
        last_index_of(s.drop_last(), c)
    }
}

/// What `fn:translate` makes of one character: the character of `to` at
/// the last position of `c` in `from`, nothing when `to` is shorter than
/// that, and `c` itself when `from` does not hold it.
pub open spec fn translate_char(c: char, from: Seq<char>, to: Seq<char>) -> Seq<char> {
    match last_index_of(from, c) {
        None => seq![c],
        Some(i) => if i < to.len() {
            seq![to[i]]
        } else {
            Seq::empty()
        },
    }
}

/// `s` with every character translated.
pub open spec fn spec_translate(s: Seq<char>, from: Seq<char>, to: Seq<char>) -> Seq<char>
    decreases s.len(),
{
    if s.len() == 0 {
        Seq::empty()
    } else {
        spec_translate(s.drop_last(), from, to) + translate_char(s.last(), from, to)
    }
}

proof fn lemma_last_index_of(s: Seq<char>, c: char)
    ensures
        match last_index_of(s, c) {
            Some(i) => 0 <= i < s.len() && s[i] == c && forall|k: int| i < k < s.len() ==> s[k] != c,
            None => forall|k: int| 0 <= k < s.len() ==> s[k] != c,
        },
    decreases s.len(),
{
    if s.len() > 0 && s.last() != c {
        let t = s.drop_last();
        lemma_last_index_of(t, c);
        match last_index_of(t, c) {
            Some(i) => {
                assert(s[i] == t[i]);
                assert forall|k: int| i < k < s.len() implies s[k] != c by {
                    if k < s.len() - 1 {
                        assert(s[k] == t[k]);
                    }
                }
            },
            None => {
                assert forall|k: int| 0 <= k < s.len() implies s[k] != c by {
                    if k < s.len() - 1 {
                        assert(s[k] == t[k]);
                    }
                }
            },
        }
    }
}

/// `fn:translate`: each character of `arg` that `map_string` holds is
/// replaced by the character at the same position of `trans_string` (the
/// last position, where `map_string` holds it more than once), or dropped
/// where `trans_string` is shorter; the other characters are kept.
pub fn fn_translate(arg: &str, map_string: &str, trans_string: &str) -> (r: String)
    ensures
        r@ == spec_translate(arg@, map_string@, trans_string@),
{
    let s = chars_of(arg);
    let from = chars_of(map_string);
    let to = chars_of(trans_string);
    let mut result = String::new();
    let mut i: usize = 0;
    while i < s.len()
        invariant
            s@ == arg@,
            from@ == map_string@,
            to@ == trans_string@,
            i <= s@.len(),
            result@ == spec_translate(s@.subrange(0, i as int), from@, to@),
        decreases s@.len() - i,
    {
        let ch = s[i];
        let mut found = false;
        let mut index: usize = 0;
        let mut j: usize = 0;
        while j < from.len()
            invariant
                from@ == map_string@,
                j <= from@.len(),
                found ==> index < j && from@[index as int] == ch,
                found ==> forall|k: int| index < k < j ==> from@[k] != ch,
                !found ==> forall|k: int| 0 <= k < j ==> from@[k] != ch,
            decreases from@.len() - j,
        {
            if from[j] == ch {
                found = true;
                index = j;
            }
            j += 1;
        }
        proof {
            lemma_last_index_of(from@, ch);
            assert(s@.subrange(0, i + 1).drop_last() =~= s@.subrange(0, i as int));
            assert(s@.subrange(0, i + 1).last() == ch);
        }
        if found {
            assert(last_index_of(from@, ch) == Some(index as int));
            if index < to.len() {
                push_char(&mut result, to[index]);
            }
        } else {
            assert(last_index_of(from@, ch) is None);
            push_char(&mut result, ch);
        }
        i += 1;
    }
    assert(s@.subrange(0, s@.len() as int) =~= s@);
    result
}

// =====================================================================
// White space.

/// The characters with the Unicode property `White_Space`.
pub open spec fn spec_is_white_space(c: char) -> bool {
    let u = c as u32;
    ||| 0x09 <= u <= 0x0D
    ||| u == 0x20
    ||| u == 0x85
    ||| u == 0xA0
    ||| u == 0x1680
    ||| 0x2000 <= u <= 0x200A
    ||| u == 0x2028
    ||| u == 0x2029
    ||| u == 0x202F
    ||| u == 0x205F
    ||| u == 0x3000
}

fn is_white_space(c: char) -> (b: bool)
    ensures
        b == spec_is_white_space(c),
{
    let u = c as u32;
    (0x09 <= u && u <= 0x0D) || u == 0x20 || u == 0x85 || u == 0xA0 || u == 0x1680
        || (0x2000 <= u && u <= 0x200A) || u == 0x2028 || u == 0x2029 || u == 0x202F
        || u == 0x205F || u == 0x3000
}

/// `s` without its white space characters.
pub open spec fn without_white_space(s: Seq<char>) -> Seq<char>
    decreases s.len(),
{
    if s.len() == 0 {
        Seq::empty()
    } else if spec_is_white_space(s.last()) {
        without_white_space(s.drop_last())
    } else {
        without_white_space(s.drop_last()).push(s.last())
    }
}

/// `fn:normalize-space`: the words of `arg` (its runs of characters other
/// than white space), written one after the other.
pub fn fn_normalize_space(arg: &str) -> (r: String)
    ensures
        r@ == without_white_space(arg@),
{
    let s = chars_of(arg);
    let mut result = String::new();
    let mut i: usize = 0;
    while i < s.len()
        invariant
            s@ == arg@,
            i <= s@.len(),
            result@ == without_white_space(s@.subrange(0, i as int)),
        decreases s@.len() - i,
    {
        proof {
            assert(s@.subrange(0, i + 1).drop_last() =~= s@.subrange(0, i as int));
        }
        if !is_white_space(s[i]) {
            push_char(&mut result, s[i]);
        }
        i += 1;
    }
    assert(s@.subrange(0, s@.len() as int) =~= s@);
    result
}

// =====================================================================
// Joining.

/// The strings of `items` written one after the other, `sep` between each
/// two.
pub open spec fn joined(items: Seq<Seq<char>>, sep: Seq<char>) -> Seq<char>
    decreases items.len(),
{
    if items.len() == 0 {
        Seq::empty()
    } else if items.len() == 1 {
        items[0]
    } else {
        joined(items.drop_last(), sep) + sep + items.last()
    }
}

/// The characters of each string of a list.
pub open spec fn texts(items: Seq<String>) -> Seq<Seq<char>> {
    items.map_values(|s: String| s@)
}

/// `fn:string-join`: the strings of `items`, `separator` between each two.
pub fn fn_string_join(items: &Vec<String>, separator: &str) -> (r: String)
    ensures
        r@ == joined(texts(items@), separator@),
{
    let mut result = String::new();
    let mut i: usize = 0;
    while i < items.len()
        invariant
            i <= items@.len(),
            result@ == joined(texts(items@.subrange(0, i as int)), separator@),
        decreases items@.len() - i,
    {
        proof {
            assert(texts(items@.subrange(0, i + 1)).drop_last() =~= texts(items@.subrange(0, i as int)));
        }
        if i != 0 {
            result.append(separator);
        }
        result.append(items[i].as_str());
        i += 1;
    }
    assert(items@.subrange(0, items@.len() as int) =~= items@);
    result
}

/// `fn:concat`: the strings of `items` one after the other.
pub fn fn_concat(items: &Vec<String>) -> (r: String)
    ensures
        r@ == joined(texts(items@), Seq::empty()),
{
    proof {
        reveal_strlit("");
        assert(""@ =~= Seq::<char>::empty());
    }
    fn_string_join(items, "")
}

// =====================================================================
// Code points.

/// `fn:string-length`: the number of characters of `arg`.
pub fn fn_string_length(arg: &str) -> (n: usize)
    ensures
        n == arg@.len(),
{
    arg.unicode_len()
}

/// `fn:string-to-codepoints`: the code point of each character.
pub fn fn_string_to_codepoints(arg: &str) -> (v: Vec<i64>)
    ensures
        v@ == codepoints_of(arg@),
{
    let s = chars_of(arg);
    let mut v: Vec<i64> = Vec::new();
    let mut i: usize = 0;
    while i < s.len()
        invariant
            s@ == arg@,
            i <= s@.len(),
            v@ == codepoints_of(s@.subrange(0, i as int)),
        decreases s@.len() - i,
    {
        let c = s[i];
        v.push(c as u32 as i64);
        i += 1;
        assert(v@ =~= codepoints_of(s@.subrange(0, i as int)));
    }
    assert(s@.subrange(0, s@.len() as int) =~= s@);
    v
}

/// The code point of each character of `s`.
pub open spec fn codepoints_of(s: Seq<char>) -> Seq<i64> {
    s.map_values(|c: char| (c as u32) as i64)
}

// =====================================================================
// From code points to a string, through UTF-16.

/// A 64-bit integer read as an unsigned one.
pub open spec fn as_unsigned(n: i64) -> int {
    if n < 0 {
        n + 0x1_0000_0000_0000_0000
    } else {
        n as int
    }
}

/// The UTF-16 units that `fn:codepoints-to-string` writes a code point as:
/// from 0x10000 on, a pair of surrogates (the high one cut to sixteen bits),
/// below it the code point itself.
pub open spec fn utf16_units_of(n: i64) -> Seq<u16> {
    let u = as_unsigned(n);
    if u >= 0x10000 {
        seq![(((u - 0x10000) / 0x400 + 0xD800) % 0x10000) as u16, ((u - 0x10000) % 0x400 + 0xDC00) as u16]
    } else {
        seq![u as u16]
    }
}

/// The UTF-16 units of a list of code points.
pub open spec fn utf16_units(cps: Seq<i64>) -> Seq<u16>
    decreases cps.len(),
{
    if cps.len() == 0 {
        Seq::empty()
    } else {
        utf16_units(cps.drop_last()) + utf16_units_of(cps.last())
    }
}

/// Whether a unit is a high (leading) surrogate.
pub open spec fn is_high_surrogate(x: u16) -> bool {
    0xD800 <= x <= 0xDBFF
}

/// Whether a unit is a low (trailing) surrogate.
pub open spec fn is_low_surrogate(x: u16) -> bool {
    0xDC00 <= x <= 0xDFFF
}

/// The characters that UTF-16 units stand for: a unit that is no surrogate
/// stands for itself, a high surrogate followed by a low one for the code
/// point that they encode together; any other surrogate makes the units
/// invalid.
pub open spec fn utf16_decode(u: Seq<u16>) -> Option<Seq<char>>
    decreases u.len(),
{
    if u.len() == 0 {
        Some(Seq::empty())
    } else if is_high_surrogate(u[0]) {
        if u.len() >= 2 && is_low_surrogate(u[1]) {
            match utf16_decode(u.subrange(2, u.len() as int)) {
                Some(rest) => Some(seq![
                    (0x10000 + (u[0] - 0xD800) * 0x400 + (u[1] - 0xDC00)) as char
                ] + rest),
                None => None,
            }
        } else {
            None
        }
    } else if is_low_surrogate(u[0]) {
        None
    } else {
        match utf16_decode(u.subrange(1, u.len() as int)) {
            Some(rest) => Some(seq![(u[0] as u32) as char] + rest),
            None => None,
        }
    }
}

/// `char::from_u32`: the character with code point `n`, when `n` is at
/// most 0x10FFFF and no surrogate; nothing otherwise.
#[verifier::external_body]
fn char_from_u32(n: u32) -> (r: Option<char>)
    ensures
        (n <= 0xD7FF || (0xE000 <= n && n <= 0x10FFFF)) ==> r == Some(n as char),
        !(n <= 0xD7FF || (0xE000 <= n && n <= 0x10FFFF)) ==> r is None,
{
    char::from_u32(n)
}

/// Prepends `s` to the characters that decoding gave, if it gave any.
pub open spec fn prepend_decoded(s: Seq<char>, o: Option<Seq<char>>) -> Option<Seq<char>> {
    match o {
        Some(r) => Some(s + r),
        None => None,
    }
}

fn utf16_to_string(u: &Vec<u16>) -> (r: Option<String>)
    ensures
        match utf16_decode(u@) {
            Some(cs) => r matches Some(s) && s@ == cs,
            None => r is None,
        },
{
    let n = u.len();
    let mut s = String::new();
    let mut i: usize = 0;
    assert(u@.subrange(0, n as int) =~= u@);
    while i < n
        invariant
            n == u@.len(),
            i <= n,
            utf16_decode(u@) == prepend_decoded(s@, utf16_decode(u@.subrange(i as int, n as int))),
        decreases n - i,
    {
        let ghost rest = u@.subrange(i as int, n as int);
        let x = u[i];
        assert(rest[0] == x);
        if 0xD800 <= x && x <= 0xDBFF {
            if i + 1 < n && 0xDC00 <= u[i + 1] && u[i + 1] <= 0xDFFF {
                let y = u[i + 1];
                assert(rest[1] == y);
                let cp: u32 = 0x10000 + ((x - 0xD800) as u32) * 0x400 + ((y - 0xDC00) as u32);
                assert(rest.subrange(2, rest.len() as int) =~= u@.subrange(i + 2, n as int));
                match char_from_u32(cp) {
                    Some(c) => {
                        proof {
                            let tail = utf16_decode(u@.subrange(i + 2, n as int));
                            match tail {
                                Some(t) => {
                                    assert(s@.push(c) + t =~= s@ + (seq![c] + t));
                                },
                                None => {},
                            }
                        }
                        push_char(&mut s, c);
                    },
                    None => {
                        return None;
                    },
                }
                i += 2;
            } else {
                return None;
            }
        } else if 0xDC00 <= x && x <= 0xDFFF {
            return None;
        } else {
            assert(rest.subrange(1, rest.len() as int) =~= u@.subrange(i + 1, n as int));
            match char_from_u32(x as u32) {
                Some(c) => {
                    proof {
                        let tail = utf16_decode(u@.subrange(i + 1, n as int));
                        match tail {
                            Some(t) => {
                                assert(s@.push(c) + t =~= s@ + (seq![c] + t));
                            },
                            None => {},
                        }
                    }
                    push_char(&mut s, c);
                },
                None => {
                    return None;
                },
            }
            i += 1;
        }
    }
    assert(u@.subrange(n as int, n as int) =~= Seq::<u16>::empty());
    assert(s@ + Seq::<char>::empty() =~= s@);
    Some(s)
}

proof fn lemma_units_front(cps: Seq<i64>)
    requires
        cps.len() > 0,
    ensures
        utf16_units(cps) == utf16_units_of(cps[0]) + utf16_units(cps.drop_first()),
    decreases cps.len(),
{
    if cps.len() == 1 {
        assert(cps.drop_last() =~= Seq::<i64>::empty());
        assert(cps.drop_first() =~= Seq::<i64>::empty());
        assert(utf16_units(cps) =~= utf16_units_of(cps[0]));
    } else {
        let d = cps.drop_last();
        lemma_units_front(d);
        assert(d.drop_first() =~= cps.drop_first().drop_last());
        assert(cps.drop_first().last() == cps.last());
        assert(d[0] == cps[0]);
        assert(utf16_units(cps) =~= utf16_units_of(cps[0]) + utf16_units(cps.drop_first()));
    }
}

proof fn lemma_decode_char(c: char, w: Seq<u16>)
    ensures
        utf16_decode(utf16_units_of((c as u32) as i64) + w) == prepend_decoded(seq![c], utf16_decode(w)),
{
    let n = (c as u32) as i64;
    let u = utf16_units_of(n) + w;
    assert(as_unsigned(n) == c as u32);
    if (c as u32) >= 0x10000 {
        let v = (c as u32) - 0x10000;
        let hi = ((v / 0x400 + 0xD800) % 0x10000) as u16;
        let lo = (v % 0x400 + 0xDC00) as u16;
        assert(v / 0x400 <= 0x3FF);
        assert(hi == v / 0x400 + 0xD800);
        assert(u[0] == hi);
        assert(u[1] == lo);
        assert(u.subrange(2, u.len() as int) =~= w);
        assert(0x10000 + (hi - 0xD800) * 0x400 + (lo - 0xDC00) == c as u32);
    } else {
        assert(u[0] == (c as u32) as u16);
        assert(u.subrange(1, u.len() as int) =~= w);
    }
}

proof fn lemma_decode_codepoints(s: Seq<char>, w: Seq<u16>)
    ensures
        utf16_decode(utf16_units(codepoints_of(s)) + w) == prepend_decoded(s, utf16_decode(w)),
    decreases s.len(),
{
    if s.len() == 0 {
        assert(codepoints_of(s) =~= Seq::<i64>::empty());
        assert(utf16_units(codepoints_of(s)) + w =~= w);
        match utf16_decode(w) {
            Some(r) => {
                assert(s + r =~= r);
            },
            None => {},
        }
    } else {
        let cps = codepoints_of(s);
        lemma_units_front(cps);
        assert(cps.drop_first() =~= codepoints_of(s.drop_first()));
        let rest = utf16_units(codepoints_of(s.drop_first()));
        lemma_decode_codepoints(s.drop_first(), w);
        lemma_decode_char(s[0], rest + w);
        assert(utf16_units(cps) + w =~= utf16_units_of((s[0] as u32) as i64) + (rest + w));
        match utf16_decode(w) {
            Some(r) => {
                assert(seq![s[0]] + (s.drop_first() + r) =~= s + r);
            },
            None => {},
        }
    }
}

/// Writing the code points of a string back as a string gives the string.
pub proof fn law_codepoints_round_trip(s: Seq<char>)
    ensures
        utf16_decode(utf16_units(codepoints_of(s))) == Some(s),
{
    lemma_decode_codepoints(s, Seq::empty());
    assert(utf16_units(codepoints_of(s)) + Seq::<u16>::empty() =~= utf16_units(codepoints_of(s)));
    assert(utf16_decode(Seq::<u16>::empty()) == Some(Seq::<char>::empty()));
    assert(s + Seq::<char>::empty() =~= s);
}

/// `fn:codepoints-to-string`: the string that the code points, written as
/// UTF-16 and read back, stand for; an error when they are not valid.
pub fn fn_codepoints_to_string(arg: &Vec<i64>) -> (r: Result<String, XPathError>)
    ensures
        match utf16_decode(utf16_units(arg@)) {
            Some(cs) => r matches Ok(s) && s@ == cs,
            None => r matches Err(e) && e.kind == XPathErrorKind::DynamicError,
        },
{
    let mut v: Vec<u16> = Vec::new();
    let mut i: usize = 0;
    while i < arg.len()
        invariant
            i <= arg@.len(),
            v@ == utf16_units(arg@.subrange(0, i as int)),
        decreases arg@.len() - i,
    {
        let n = arg[i];
        let uni: u64 = if n < 0 {
            ((n + i64::MAX + 1) as u64) + 0x8000_0000_0000_0000
        } else {
            n as u64
        };
        assert(uni == as_unsigned(n));
        if 0x10000 <= uni {
            let hi = (((uni - 0x10000) / 0x0400 + 0xD800) % 0x10000) as u16;
            let lo = ((uni - 0x10000) % 0x0400 + 0xDC00) as u16;
            v.push(hi);
            v.push(lo);
        } else {
            v.push(uni as u16);
        }
        proof {
            assert(arg@.subrange(0, i + 1).drop_last() =~= arg@.subrange(0, i as int));
            assert(arg@.subrange(0, i + 1).last() == n);
        }
        i += 1;
        assert(v@ =~= utf16_units(arg@.subrange(0, i as int)));
    }
    assert(arg@.subrange(0, arg@.len() as int) =~= arg@);
    match utf16_to_string(&v) {
        Some(s) => Ok(s),
        None => Err(new_error(XPathErrorKind::DynamicError, "Code point not valid.")),
    }
}

/// `fn:codepoint-equal`: whether the two strings have the same code points.
pub fn fn_codepoint_equal(comparand1: &str, comparand2: &str) -> (b: bool)
    ensures
        b == (comparand1@ == comparand2@),
{
    str_eq(comparand1, comparand2)
}

/// Whether `a` comes before `b` in the order of code points: at the first
/// position where they differ, or where one ends.
pub open spec fn codepoint_less(a: Seq<char>, b: Seq<char>) -> bool
    decreases a.len(),
{
    if a.len() == 0 {
        b.len() > 0
    } else if b.len() == 0 {
        false
    } else if a[0] != b[0] {
        a[0] < b[0]
    } else {
        codepoint_less(a.drop_first(), b.drop_first())
    }
}

/// `fn:compare`: -1, 0 or 1 as `comparand1` comes before `comparand2` in
/// the order of code points, equals it, or comes after it.
pub fn fn_compare(comparand1: &str, comparand2: &str) -> (r: i64)
    ensures
        r == (if codepoint_less(comparand1@, comparand2@) {
            -1
        } else if comparand1@ == comparand2@ {
            0
        } else {
            1
        }),
{
    let a = chars_of(comparand1);
    let b = chars_of(comparand2);
    let n = a.len();
    let m = b.len();
    let mut i: usize = 0;
    assert(a@.skip(0) =~= a@);
    assert(b@.skip(0) =~= b@);
    while i < n && i < m
        invariant
            a@ == comparand1@,
            b@ == comparand2@,
            n == a@.len(),
            m == b@.len(),
            i <= n,
            i <= m,
            a@.subrange(0, i as int) == b@.subrange(0, i as int),
            codepoint_less(a@, b@) == codepoint_less(a@.skip(i as int), b@.skip(i as int)),
        decreases n - i,
    {
        let ca = a[i];
        let cb = b[i];
        assert(a@.skip(i as int)[0] == a@[i as int]);
        assert(b@.skip(i as int)[0] == b@[i as int]);
        if ca != cb {
            assert(a@ != b@) by {
                assert(a@[i as int] != b@[i as int]);
            }
            if ca < cb {
                return -1;
            } else {
                return 1;
            }
        }
        assert(a@[i as int] == b@[i as int]);
        assert(a@.skip(i as int).drop_first() =~= a@.skip(i + 1));
        assert(b@.skip(i as int).drop_first() =~= b@.skip(i + 1));
        assert(a@.subrange(0, i + 1) =~= a@.subrange(0, i as int).push(a@[i as int]));
        assert(b@.subrange(0, i + 1) =~= b@.subrange(0, i as int).push(b@[i as int]));
        i += 1;
    }
    assert(a@.skip(i as int).len() == n - i);
    assert(b@.skip(i as int).len() == m - i);
    if i < m {
        assert(a@ =~= a@.subrange(0, i as int));
        -1
    } else if i < n {
        assert(b@ =~= b@.subrange(0, i as int));
        assert(a@ != b@) by {
            assert(a@.len() != b@.len());
        }
        1
    } else {
        assert(a@ =~= a@.subrange(0, i as int));
        assert(b@ =~= b@.subrange(0, i as int));
        0
    }
}

/// Code-point order is a strict order: no string comes before itself, and
/// of two strings at most one comes before the other.
pub proof fn law_codepoint_less_asymmetric(a: Seq<char>, b: Seq<char>)
    ensures
        !codepoint_less(a, a),
        codepoint_less(a, b) ==> !codepoint_less(b, a),
    decreases a.len(),
{
    if a.len() > 0 && b.len() > 0 && a[0] == b[0] {
        law_codepoint_less_asymmetric(a.drop_first(), b.drop_first());
    }
    if a.len() > 0 {
        law_codepoint_less_asymmetric(a.drop_first(), a.drop_first());
    }
}

/// Two different strings are ordered one way or the other.
pub proof fn law_codepoint_less_total(a: Seq<char>, b: Seq<char>)
    requires
        a != b,
    ensures
        codepoint_less(a, b) || codepoint_less(b, a),
    decreases a.len(),
{
    if a.len() == 0 {
        assert(b.len() > 0) by {
            if b.len() == 0 {
                assert(a =~= b);
            }
        }
    } else if b.len() == 0 {
    } else if a[0] == b[0] {
        assert(a.drop_first() != b.drop_first()) by {
            if a.drop_first() == b.drop_first() {
                assert(a.drop_first().len() == b.drop_first().len());
                assert(a.len() == b.len());
                assert(a =~= b) by {
                    assert forall|i: int| 0 <= i < a.len() implies a[i] == b[i] by {
                        if i > 0 {
                            assert(a[i] == a.drop_first()[i - 1]);
                            assert(b[i] == b.drop_first()[i - 1]);
                        }
                    }
                }
            }
        }
        law_codepoint_less_total(a.drop_first(), b.drop_first());
    }
}

/// `fn:compare` is antisymmetric: exchanging the strings negates the result.
pub proof fn law_compare_antisymmetric(a: Seq<char>, b: Seq<char>)
    ensures
        (if codepoint_less(a, b) { -1int } else if a == b { 0int } else { 1int })
            == -(if codepoint_less(b, a) { -1int } else if b == a { 0int } else { 1int }),
{
    law_codepoint_less_asymmetric(a, b);
    law_codepoint_less_asymmetric(b, a);
    if a != b {
        law_codepoint_less_total(a, b);
    }
}

// =====================================================================
// Case.

/// The upper-case form of a string under Unicode's case mapping.
pub uninterp spec fn unicode_upper_case(s: Seq<char>) -> Seq<char>;

/// The lower-case form of a string under Unicode's case mapping.
pub uninterp spec fn unicode_lower_case(s: Seq<char>) -> Seq<char>;

/// `str::to_uppercase`: its result is named, as a function of the string
/// alone; nothing more of it is stated here.
#[verifier::external_body]
fn to_uppercase_str(s: &str) -> (r: String)
    ensures
        r@ == unicode_upper_case(s@),
{
    s.to_uppercase()
}

/// `str::to_lowercase`: its result is named, as a function of the string
/// alone; nothing more of it is stated here.
#[verifier::external_body]
fn to_lowercase_str(s: &str) -> (r: String)
    ensures
        r@ == unicode_lower_case(s@),
{
    s.to_lowercase()
}

/// `fn:upper-case`: `arg` under Unicode's upper-case mapping.
pub fn fn_upper_case(arg: &str) -> (r: String)
    ensures
        r@ == unicode_upper_case(arg@),
{
    to_uppercase_str(arg)
}

/// `fn:lower-case`: `arg` under Unicode's lower-case mapping.
pub fn fn_lower_case(arg: &str) -> (r: String)
    ensures
        r@ == unicode_lower_case(arg@),
{
    to_lowercase_str(arg)
}

} // verus!
