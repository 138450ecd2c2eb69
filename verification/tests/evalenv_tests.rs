use amxml::error::XPathErrorKind;
use amxml::evalenv::{match_occurence, new_eval_env, EvalEnv};

#[test]
fn test_variable_scopes() {
    let mut env: EvalEnv<Vec<i64>> = new_eval_env();
    assert_eq!(env.get_var("x"), None);
    env.set_var("x", vec![1]);
    assert_eq!(env.get_var("x"), Some(&vec![1]));
    // An inner binding hides the outer one until it is removed.
    env.set_var("x", vec![2, 3]);
    env.set_var("y", vec![]);
    assert_eq!(env.get_var("x"), Some(&vec![2, 3]));
    assert_eq!(env.get_var("y"), Some(&vec![]));
    env.remove_var("x");
    assert_eq!(env.get_var("x"), Some(&vec![1]));
    assert_eq!(env.get_var("y"), Some(&vec![]));
    env.remove_var("x");
    assert_eq!(env.get_var("x"), None);
    // Removing a name that is not bound changes nothing.
    env.remove_var("z");
    assert_eq!(env.get_var("y"), Some(&vec![]));
}

#[test]
fn test_position_and_last() {
    let mut env: EvalEnv<i64> = new_eval_env();
    assert_eq!(env.get_position(), 0);
    assert_eq!(env.get_last(), 0);
    assert_eq!(env.set_position(3), 0);
    assert_eq!(env.set_last(7), 0);
    assert_eq!(env.get_position(), 3);
    assert_eq!(env.get_last(), 7);
    assert_eq!(env.set_position(4), 3);
    assert_eq!(env.set_last(8), 7);
    assert_eq!(env.get_position(), 4);
    assert_eq!(env.get_last(), 8);
}

#[test]
fn test_match_occurence() {
    assert_eq!(match_occurence(0, "?").unwrap(), true);
    assert_eq!(match_occurence(1, "?").unwrap(), true);
    assert_eq!(match_occurence(2, "?").unwrap(), false);
    assert_eq!(match_occurence(0, "*").unwrap(), true);
    assert_eq!(match_occurence(5, "*").unwrap(), true);
    assert_eq!(match_occurence(0, "+").unwrap(), false);
    assert_eq!(match_occurence(3, "+").unwrap(), true);
    assert_eq!(match_occurence(1, "").unwrap(), true);
    assert_eq!(match_occurence(0, "").unwrap(), false);
    assert_eq!(match_occurence(2, "").unwrap(), false);
    assert_eq!(match_occurence(1, "!").unwrap_err().kind, XPathErrorKind::CantOccur);
}
