use amxml::error::XPathErrorKind;
use amxml::seqfn::{
    fn_exactly_one, fn_head, fn_insert_before, fn_one_or_more, fn_remove, fn_reverse, fn_tail,
    fn_zero_or_one,
};
use amxml::strings::{
    fn_codepoint_equal, fn_codepoints_to_string, fn_compare, fn_concat, fn_contains, fn_ends_with,
    fn_lower_case, fn_normalize_space, fn_starts_with, fn_string_join, fn_string_length,
    fn_string_to_codepoints, fn_substring_after, fn_substring_before, fn_translate, fn_upper_case,
};

fn strings(items: &[&str]) -> Vec<String> {
    items.iter().map(|s| s.to_string()).collect()
}

#[test]
fn test_fn_codepoints_to_string() {
    assert_eq!(fn_codepoints_to_string(&vec![84, 104, 233, 114, 232, 115, 101]).unwrap(), "Thérèse");
    assert_eq!(fn_codepoints_to_string(&vec![131072, 131073, 131074]).unwrap(), "𠀀𠀁𠀂");
}

#[test]
fn test_codepoints_to_string_invalid() {
    // A lone surrogate is no character.
    let e = fn_codepoints_to_string(&vec![0xD800]).unwrap_err();
    assert_eq!(e.kind, XPathErrorKind::DynamicError);
    assert!(e.to_string().starts_with("Dynamic Error"));
    let e = fn_codepoints_to_string(&vec![65, 0xDC00]).unwrap_err();
    assert_eq!(e.kind, XPathErrorKind::DynamicError);
    // Code points are written as UTF-16 before they are read back, so two
    // surrogates given in order make one character.
    assert_eq!(fn_codepoints_to_string(&vec![0xD840, 0xDC00]).unwrap(), "𠀀");
    assert_eq!(fn_codepoints_to_string(&vec![]).unwrap(), "");
}

#[test]
fn test_fn_string_to_codepoints() {
    assert_eq!(fn_string_to_codepoints("Thérèse"), vec![84, 104, 233, 114, 232, 115, 101]);
    assert_eq!(fn_string_to_codepoints("𠀀𠀁𠀂"), vec![131072, 131073, 131074]);
}

#[test]
fn test_codepoints_round_trip() {
    for s in ["", "abc", "かきくけこ", "𠀀a𠀂", "\u{FFFF}\u{10FFFF}"].iter() {
        assert_eq!(fn_codepoints_to_string(&fn_string_to_codepoints(s)).unwrap(), *s);
    }
}

#[test]
fn test_fn_compare() {
    assert_eq!(fn_compare("abc", "abc"), 0);
    assert_eq!(fn_compare("abc", "abx"), -1);
    assert_eq!(fn_compare("abx", "abc"), 1);
    assert_eq!(fn_compare("ab", "abc"), -1);
    assert_eq!(fn_compare("abc", "ab"), 1);
    assert_eq!(fn_compare("", ""), 0);
    assert_eq!(fn_compare("Z", "a"), -1);
    assert_eq!(fn_compare("あ", "z"), 1);
}

#[test]
fn test_fn_codepoint_equal() {
    assert!(fn_codepoint_equal("abcd", "abcd"));
    assert!(!fn_codepoint_equal("abcd", "abcZ"));
    assert!(!fn_codepoint_equal("abcd", "abcd "));
    assert!(fn_codepoint_equal("", ""));
}

#[test]
fn test_fn_concat() {
    assert_eq!(fn_concat(&strings(&["あい"])), "あい");
    assert_eq!(fn_concat(&strings(&["あい", "うえ"])), "あいうえ");
    assert_eq!(fn_concat(&strings(&["123", "456", "789"])), "123456789");
    assert_eq!(fn_concat(&strings(&["A"])), "A");
    assert_eq!(fn_concat(&strings(&[])), "");
}

#[test]
fn test_fn_string_join() {
    assert_eq!(fn_string_join(&strings(&["A", "B", "C"]), "x"), "AxBxC");
    assert_eq!(fn_string_join(&strings(&["doc", "chap", "section"]), "/"), "doc/chap/section");
    assert_eq!(fn_string_join(&strings(&[]), "/"), "");
    assert_eq!(fn_string_join(&strings(&["only"]), "/"), "only");
}

#[test]
fn test_fn_string_length() {
    assert_eq!(fn_string_length(""), 0);
    assert_eq!(fn_string_length("かきくけこ"), 5);
}

#[test]
fn test_fn_normalize_space() {
    assert_eq!(fn_normalize_space(""), "");
    assert_eq!(fn_normalize_space(" abc  def "), "abcdef");
    assert_eq!(fn_normalize_space("\t a\nb\u{3000}c\u{A0}"), "abc");
}

#[test]
fn test_fn_upper_case() {
    assert_eq!(fn_upper_case("AbCdE"), "ABCDE");
    assert_eq!(fn_upper_case("ΣЯσя"), "ΣЯΣЯ");
}

#[test]
fn test_fn_lower_case() {
    assert_eq!(fn_lower_case("AbCdE"), "abcde");
    assert_eq!(fn_lower_case("ΣЯσя"), "σяσя");
}

#[test]
fn test_fn_translate() {
    assert_eq!(fn_translate("bar", "abc", "ABC"), "BAr");
    assert_eq!(fn_translate("---aaa---", "abc-", "ABC"), "AAA");
    assert_eq!(fn_translate("", "abc", "ABC"), "");
    // Where the map string holds a character twice, its last place counts.
    assert_eq!(fn_translate("a", "aa", "xy"), "y");
}

#[test]
fn test_fn_contains() {
    assert!(fn_contains("かきくけこ", "きく"));
    assert!(!fn_contains("かきくけこ", "たち"));
    assert!(!fn_contains("", "たち"));
    assert!(fn_contains("かきくけこ", ""));
    assert!(fn_contains("", ""));
}

#[test]
fn test_fn_starts_with() {
    assert!(fn_starts_with("かきくけこ", "かき"));
    assert!(!fn_starts_with("かきくけこ", "たち"));
    assert!(!fn_starts_with("", "たち"));
    assert!(fn_starts_with("かきくけこ", ""));
    assert!(fn_starts_with("", ""));
}

#[test]
fn test_fn_ends_with() {
    assert!(fn_ends_with("かきくけこ", "けこ"));
    assert!(!fn_ends_with("かきくけこ", "てと"));
    assert!(!fn_ends_with("", "てと"));
    assert!(fn_ends_with("かきくけこ", ""));
    assert!(fn_ends_with("", ""));
}

#[test]
fn test_fn_substring_before() {
    assert_eq!(fn_substring_before("1999/04/01", "/"), "1999");
    assert_eq!(fn_substring_before("1999/04/01", "X"), "");
    assert_eq!(fn_substring_before("abc", ""), "");
}

#[test]
fn test_fn_substring_after() {
    assert_eq!(fn_substring_after("1999/04/01", "/"), "04/01");
    assert_eq!(fn_substring_after("1999/04/01", "X"), "");
    assert_eq!(fn_substring_after("abc", ""), "abc");
    assert_eq!(fn_substring_after("かきくけこ", "きく"), "けこ");
}

#[test]
fn test_fn_head() {
    assert_eq!(fn_head(vec![1, 2, 3, 4, 5]), vec![1]);
    assert_eq!(fn_head(vec!["A", "B", "C"]), vec!["A"]);
    assert_eq!(fn_head(Vec::<i64>::new()), Vec::<i64>::new());
    assert_eq!(fn_head(vec![vec![1, 2, 3]]), vec![vec![1, 2, 3]]);
}

#[test]
fn test_fn_tail() {
    assert_eq!(fn_tail(vec![1, 2, 3, 4, 5]), vec![2, 3, 4, 5]);
    assert_eq!(fn_tail(vec!["A", "B", "C"]), vec!["B", "C"]);
    assert_eq!(fn_tail(vec!["a"]), Vec::<&str>::new());
    assert_eq!(fn_tail(Vec::<i64>::new()), Vec::<i64>::new());
    assert_eq!(fn_tail(vec![vec![1, 2, 3]]), Vec::<Vec<i64>>::new());
}

#[test]
fn test_fn_insert_before() {
    assert_eq!(fn_insert_before(vec![1, 2, 3], 0, vec![99]), vec![99, 1, 2, 3]);
    assert_eq!(fn_insert_before(vec![1, 2, 3], 1, vec![99]), vec![99, 1, 2, 3]);
    assert_eq!(fn_insert_before(vec![1, 2, 3], 2, vec![99]), vec![1, 99, 2, 3]);
    assert_eq!(fn_insert_before(vec![1, 2, 3], 3, vec![99]), vec![1, 2, 99, 3]);
    assert_eq!(fn_insert_before(vec![1, 2, 3], 4, vec![99]), vec![1, 2, 3, 99]);
    assert_eq!(fn_insert_before(vec![1, 2, 3], 2, vec![98, 99]), vec![1, 98, 99, 2, 3]);
    assert_eq!(fn_insert_before(vec![1, 2, 3], i64::MIN, vec![0]), vec![0, 1, 2, 3]);
    assert_eq!(fn_insert_before(vec![1, 2, 3], i64::MAX, vec![0]), vec![1, 2, 3, 0]);
}

#[test]
fn test_fn_remove() {
    assert_eq!(fn_remove(vec!["A", "B", "C"], 0), vec!["A", "B", "C"]);
    assert_eq!(fn_remove(vec!["A", "B", "C"], 2), vec!["A", "C"]);
    assert_eq!(fn_remove(Vec::<&str>::new(), 3), Vec::<&str>::new());
    assert_eq!(fn_remove(vec!["A", "B", "C"], 4), vec!["A", "B", "C"]);
    assert_eq!(fn_remove(vec!["A", "B", "C"], -1), vec!["A", "B", "C"]);
}

#[test]
fn test_fn_reverse() {
    assert_eq!(fn_reverse(vec!["A", "B", "C"]), vec!["C", "B", "A"]);
    assert_eq!(fn_reverse(Vec::<&str>::new()), Vec::<&str>::new());
}

#[test]
fn test_fn_zero_or_one() {
    assert_eq!(fn_zero_or_one(Vec::<i64>::new()).unwrap(), Vec::<i64>::new());
    assert_eq!(fn_zero_or_one(vec![5]).unwrap(), vec![5]);
    let e = fn_zero_or_one(vec![5, 8]).unwrap_err();
    assert_eq!(e.kind, XPathErrorKind::DynamicError);
    assert!(e.to_string().starts_with("Dynamic Error"));
}

#[test]
fn test_fn_one_or_more() {
    let e = fn_one_or_more(Vec::<i64>::new()).unwrap_err();
    assert!(e.to_string().starts_with("Dynamic Error"));
    assert_eq!(fn_one_or_more(vec![5]).unwrap(), vec![5]);
    assert_eq!(fn_one_or_more(vec![5, 8]).unwrap(), vec![5, 8]);
}

#[test]
fn test_fn_exactly_one() {
    let e = fn_exactly_one(Vec::<i64>::new()).unwrap_err();
    assert!(e.to_string().starts_with("Dynamic Error"));
    assert_eq!(fn_exactly_one(vec![5]).unwrap(), vec![5]);
    let e = fn_exactly_one(vec![5, 8]).unwrap_err();
    assert_eq!(e.kind, XPathErrorKind::DynamicError);
}
