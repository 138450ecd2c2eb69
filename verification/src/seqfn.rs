//! The functions of XPath on sequences that only rearrange their items:
//! `fn:head`, `fn:tail`, `fn:insert-before`, `fn:remove`, `fn:reverse`, and
//! the cardinality checks `fn:zero-or-one`, `fn:one-or-more` and
//! `fn:exactly-one`. A sequence is the list of its items, of any kind.

use vstd::prelude::*;
use crate::error::{XPathError, XPathErrorKind, new_error};

verus! {

/// `fn:head`: the first item, or nothing for the empty sequence.
pub fn fn_head<T>(arg: Vec<T>) -> (r: Vec<T>)
    ensures
        r@ == (if arg@.len() == 0 {
            Seq::empty()
        } else {
            seq![arg@[0]]
        }),
{
    let ghost s = arg@;
    let mut arg = arg;
    if arg.len() == 0 {
        return arg;
    }
    arg.truncate(1);
    assert(arg@ =~= seq![s[0]]);
    arg
}

/// `fn:tail`: every item but the first.
pub fn fn_tail<T>(arg: Vec<T>) -> (r: Vec<T>)
    ensures
        r@ == (if arg@.len() == 0 {
            Seq::empty()
        } else {
            arg@.subrange(1, arg@.len() as int)
        }),
{
    let mut arg = arg;
    if arg.len() == 0 {
        return arg;
    }
    arg.split_off(1)
}

/// Where `fn:insert-before` puts the inserted items: before the item at
/// `position` (counted from 1), at the start for a position below 1, at the
/// end for one past the last item.
pub open spec fn insert_index(len: int, position: int) -> int {
    if position - 1 <= 0 {
        0
    } else if len <= position - 1 {
        len
    } else {
        position - 1
    }
}

/// `fn:insert-before`: `inserts` placed in `target` before the item at
/// `position`.
pub fn fn_insert_before<T>(target: Vec<T>, position: i64, inserts: Vec<T>) -> (r: Vec<T>)
    ensures
        r@ == target@.subrange(0, insert_index(target@.len() as int, position as int))
            + inserts@
            + target@.subrange(insert_index(target@.len() as int, position as int), target@.len() as int),
{
    let mut target = target;
    let mut inserts = inserts;
    let len = target.len();
    let index: usize = if position <= 1 {
        0
    } else if (len as u64) <= ((position - 1) as u64) {
        len
    } else {
        (position - 1) as usize
    };
    assert(index == insert_index(len as int, position as int));
    let mut rest = target.split_off(index);
    target.append(&mut inserts);
    target.append(&mut rest);
    target
}

/// The sequence without the item at `position` (counted from 1); a
/// position outside the sequence removes nothing.
pub open spec fn removed_at<T>(s: Seq<T>, position: int) -> Seq<T> {
    if 1 <= position <= s.len() {
        s.remove(position - 1)
    } else {
        s
    }
}

/// `fn:remove`: `target` without the item at `position`.
pub fn fn_remove<T>(target: Vec<T>, position: i64) -> (r: Vec<T>)
    ensures
        r@ == removed_at(target@, position as int),
{
    let mut target = target;
    let len = target.len();
    if 1 <= position && (position as u64) <= (len as u64) {
        target.remove((position - 1) as usize);
    }
    target
}

/// `fn:reverse`: the items in reverse order.
pub fn fn_reverse<T>(arg: Vec<T>) -> (r: Vec<T>)
    ensures
        r@ == arg@.reverse(),
{
    let ghost s = arg@;
    let mut arg = arg;
    let mut r: Vec<T> = Vec::new();
    while arg.len() > 0
        invariant
            arg@ == s.subrange(0, arg@.len() as int),
            r@ == s.subrange(arg@.len() as int, s.len() as int).reverse(),
            arg@.len() <= s.len(),
        decreases arg@.len(),
    {
        let x = arg.pop().unwrap();
        r.push(x);
        assert(r@ =~= s.subrange(arg@.len() as int, s.len() as int).reverse());
    }
    r
}

/// `fn:zero-or-one`: the sequence itself when it holds one item at most.
pub fn fn_zero_or_one<T>(arg: Vec<T>) -> (r: Result<Vec<T>, XPathError>)
    ensures
        arg@.len() <= 1 ==> (r matches Ok(v) && v@ == arg@),
        arg@.len() > 1 ==> (r matches Err(e) && e.kind == XPathErrorKind::DynamicError),
{
    if arg.len() <= 1 {
        Ok(arg)
    } else {
        Err(new_error(
            XPathErrorKind::DynamicError,
            "fn:zero-or-one called with a sequence containing more than one item.",
        ))
    }
}

/// `fn:one-or-more`: the sequence itself when it holds an item at least.
pub fn fn_one_or_more<T>(arg: Vec<T>) -> (r: Result<Vec<T>, XPathError>)
    ensures
        arg@.len() >= 1 ==> (r matches Ok(v) && v@ == arg@),
        arg@.len() == 0 ==> (r matches Err(e) && e.kind == XPathErrorKind::DynamicError),
{
    if 1 <= arg.len() {
        Ok(arg)
    } else {
        Err(new_error(
            XPathErrorKind::DynamicError,
            "fn:one-or-more called with a sequence containing no items.",
        ))
    }
}

/// `fn:exactly-one`: the sequence itself when it holds one item.
pub fn fn_exactly_one<T>(arg: Vec<T>) -> (r: Result<Vec<T>, XPathError>)
    ensures
        arg@.len() == 1 ==> (r matches Ok(v) && v@ == arg@),
        arg@.len() != 1 ==> (r matches Err(e) && e.kind == XPathErrorKind::DynamicError),
{
    if arg.len() == 1 {
        Ok(arg)
    } else {
        Err(new_error(
            XPathErrorKind::DynamicError,
            "fn:exactly-one called with a sequence containing zero or more than one item.",
        ))
    }
}

/// The first item followed by the others is the whole sequence.
pub proof fn law_head_then_tail<T>(s: Seq<T>)
    requires
        s.len() > 0,
    ensures
        seq![s[0]] + s.subrange(1, s.len() as int) == s,
{
    assert(seq![s[0]] + s.subrange(1, s.len() as int) =~= s);
}

/// Removing the item just inserted gives back the sequence: the item lands
/// at the place that `insert_index` names, one past it counted from 1.
pub proof fn law_remove_undoes_insert<T>(target: Seq<T>, position: int, x: T)
    ensures
        removed_at(
            target.subrange(0, insert_index(target.len() as int, position)) + seq![x]
                + target.subrange(insert_index(target.len() as int, position), target.len() as int),
            insert_index(target.len() as int, position) + 1,
        ) == target,
{
    let i = insert_index(target.len() as int, position);
    let s = target.subrange(0, i) + seq![x] + target.subrange(i, target.len() as int);
    assert(s.len() == target.len() + 1);
    assert(s.remove(i) =~= target);
}

/// Reversing twice gives the sequence back.
pub proof fn law_reverse_reverse<T>(s: Seq<T>)
    ensures
        s.reverse().reverse() == s,
{
    assert(s.reverse().reverse() =~= s);
}

} // verus!
