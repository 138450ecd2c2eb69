//! The environment of an evaluation: the values of `position()` and
//! `last()`, and the table of variables, where a variable bound later hides
//! an earlier one of the same name until it is removed again.

use vstd::prelude::*;
use crate::error::{XPathError, XPathErrorKind, new_error};
use crate::text::str_eq;

verus! {

/// A variable and its value.
pub struct VarNameValue<V> {
    pub name: String,
    pub value: V,
}

/// The environment of an evaluation, its variables holding values of type
/// `V`.
pub struct EvalEnv<V> {
    position: usize,
    last: usize,
    var_vec: Vec<VarNameValue<V>>,
}

/// The position of the first entry at or after `i` that names `name`.
pub open spec fn var_index_from<V>(vars: Seq<(Seq<char>, V)>, name: Seq<char>, i: int) -> Option<int>
    decreases vars.len() - i,
{
    if i < 0 || i >= vars.len() {
        None
    } else if vars[i].0 == name {
        Some(i)
    } else {
        var_index_from(vars, name, i + 1)
    }
}

/// The position of the newest binding of `name`.
pub open spec fn var_index<V>(vars: Seq<(Seq<char>, V)>, name: Seq<char>) -> Option<int> {
    var_index_from(vars, name, 0)
}

/// The value of the newest binding of `name`.
pub open spec fn var_lookup<V>(vars: Seq<(Seq<char>, V)>, name: Seq<char>) -> Option<V> {
    match var_index(vars, name) {
        Some(i) => Some(vars[i].1),
        None => None,
    }
}

/// The table without the newest binding of `name`.
pub open spec fn var_removed<V>(vars: Seq<(Seq<char>, V)>, name: Seq<char>) -> Seq<(Seq<char>, V)> {
    match var_index(vars, name) {
        Some(i) => vars.remove(i),
        None => vars,
    }
}

/// The first binding of `name` found from `i` on names it, and none between
/// `i` and it does; when none is found, none from `i` on names it.
pub proof fn lemma_var_index_from<V>(vars: Seq<(Seq<char>, V)>, name: Seq<char>, i: int)
    requires
        0 <= i,
    ensures
        match var_index_from(vars, name, i) {
            Some(k) => i <= k < vars.len() && vars[k].0 == name
                && forall|j: int| i <= j < k ==> vars[j].0 != name,
            None => forall|j: int| i <= j < vars.len() ==> vars[j].0 != name,
        },
    decreases vars.len() - i,
{
    if i < vars.len() && vars[i].0 != name {
        lemma_var_index_from(vars, name, i + 1);
    }
}

impl<V> EvalEnv<V> {
    /// The variables, newest first: each with its name and value.
    pub closed spec fn vars(&self) -> Seq<(Seq<char>, V)> {
        self.var_vec@.map_values(|e: VarNameValue<V>| (e.name@, e.value))
    }

    /// The value of `position()`.
    pub closed spec fn position_v(&self) -> usize {
        self.position
    }

    /// The value of `last()`.
    pub closed spec fn last_v(&self) -> usize {
        self.last
    }

    /// Binds `name` to `value`, hiding any earlier binding of that name.
    pub fn set_var(&mut self, name: &str, value: V)
        ensures
            final(self).vars() == seq![(name@, value)] + old(self).vars(),
            final(self).position_v() == old(self).position_v(),
            final(self).last_v() == old(self).last_v(),
    {
        self.var_vec.insert(0, VarNameValue { name: String::from_str(name), value });
        assert(self.vars() =~= seq![(name@, value)] + old(self).vars());
    }

    /// The position of the newest binding of `name`.
    fn find_var(&self, name: &str) -> (r: Option<usize>)
        ensures
            match r {
                Some(i) => var_index(self.vars(), name@) == Some(i as int) && i < self.var_vec@.len(),
                None => var_index(self.vars(), name@) is None,
            },
    {
        proof {
            lemma_var_index_from(self.vars(), name@, 0);
        }
        let mut i: usize = 0;
        while i < self.var_vec.len()
            invariant
                i <= self.var_vec@.len(),
                var_index(self.vars(), name@) == var_index_from(self.vars(), name@, i as int),
            decreases self.var_vec@.len() - i,
        {
            if str_eq(self.var_vec[i].name.as_str(), name) {
                return Some(i);
            }
            i += 1;
        }
        None
    }

    /// Removes the newest binding of `name`, which uncovers the one before.
    pub fn remove_var(&mut self, name: &str)
        ensures
            final(self).vars() == var_removed(old(self).vars(), name@),
            final(self).position_v() == old(self).position_v(),
            final(self).last_v() == old(self).last_v(),
    {
        match self.find_var(name) {
            Some(i) => {
                self.var_vec.remove(i);
                assert(self.vars() =~= old(self).vars().remove(i as int));
            },
            None => {},
        }
    }

    /// The value of the newest binding of `name`.
    pub fn get_var(&self, name: &str) -> (r: Option<&V>)
        ensures
            match var_lookup(self.vars(), name@) {
                Some(v) => r matches Some(x) && *x == v,
                None => r is None,
            },
    {
        match self.find_var(name) {
            Some(i) => Some(&self.var_vec[i].value),
            None => None,
        }
    }

    /// Sets the value of `position()` and gives back the one before.
    pub fn set_position(&mut self, position: usize) -> (old_position: usize)
        ensures
            old_position == old(self).position_v(),
            final(self).position_v() == position,
            final(self).last_v() == old(self).last_v(),
            final(self).vars() == old(self).vars(),
    {
        let old_position = self.position;
        self.position = position;
        old_position
    }

    /// Sets the value of `last()` and gives back the one before.
    pub fn set_last(&mut self, last: usize) -> (old_last: usize)
        ensures
            old_last == old(self).last_v(),
            final(self).last_v() == last,
            final(self).position_v() == old(self).position_v(),
            final(self).vars() == old(self).vars(),
    {
        let old_last = self.last;
        self.last = last;
        old_last
    }

    /// The value of `position()`.
    pub fn get_position(&self) -> (p: usize)
        ensures
            p == self.position_v(),
    {
        self.position
    }

    /// The value of `last()`.
    pub fn get_last(&self) -> (l: usize)
        ensures
            l == self.last_v(),
    {
        self.last
    }
}

/// A new environment: no variables, and `position()` and `last()` zero.
pub fn new_eval_env<V>() -> (env: EvalEnv<V>)
    ensures
        env.vars() == Seq::<(Seq<char>, V)>::empty(),
        env.position_v() == 0,
        env.last_v() == 0,
{
    let env = EvalEnv { position: 0, last: 0, var_vec: Vec::new() };
    assert(env.vars() =~= Seq::<(Seq<char>, V)>::empty());
    env
}

/// A variable just bound is found with the value it was bound to.
pub proof fn law_get_after_set<V>(vars: Seq<(Seq<char>, V)>, name: Seq<char>, value: V)
    ensures
        var_lookup(seq![(name, value)] + vars, name) == Some(value),
{
    assert((seq![(name, value)] + vars)[0] == (name, value));
}

/// Binding a variable leaves the bindings of every other name as they were.
pub proof fn law_set_keeps_others<V>(vars: Seq<(Seq<char>, V)>, name: Seq<char>, other: Seq<char>, value: V)
    requires
        name != other,
    ensures
        var_lookup(seq![(name, value)] + vars, other) == var_lookup(vars, other),
{
    let s = seq![(name, value)] + vars;
    lemma_var_index_from(s, other, 0);
    lemma_var_index_from(vars, other, 0);
    lemma_var_index_from(s, other, 1);
    lemma_shifted_index(vars, (name, value), other, 0);
}

proof fn lemma_shifted_index<V>(vars: Seq<(Seq<char>, V)>, first: (Seq<char>, V), name: Seq<char>, i: int)
    requires
        0 <= i,
        first.0 != name,
    ensures
        var_index_from(seq![first] + vars, name, i + 1) == match var_index_from(vars, name, i) {
            Some(k) => Some(k + 1),
            None => None::<int>,
        },
        var_index_from(seq![first] + vars, name, 0) == var_index_from(seq![first] + vars, name, 1),
    decreases vars.len() - i,
{
    let s = seq![first] + vars;
    assert(s[0] == first);
    if i < vars.len() {
        assert(s[i + 1] == vars[i]);
        if vars[i].0 != name {
            lemma_shifted_index(vars, first, name, i + 1);
        }
    }
}

/// Removing a variable just bound gives back the table as it was before.
pub proof fn law_remove_undoes_set<V>(vars: Seq<(Seq<char>, V)>, name: Seq<char>, value: V)
    ensures
        var_removed(seq![(name, value)] + vars, name) == vars,
{
    let s = seq![(name, value)] + vars;
    assert(s[0] == (name, value));
    assert(s.remove(0) =~= vars);
}

/// Whether a sequence of `len` items matches the occurrence indicator:
/// `?` at most one item, `*` any number, `+` at least one, and no
/// indicator exactly one.
pub open spec fn occurrence_matches(len: int, indicator: Seq<char>) -> Option<bool> {
    if indicator == "?"@ {
        Some(len <= 1)
    } else if indicator == "*"@ {
        Some(true)
    } else if indicator == "+"@ {
        Some(1 <= len)
    } else if indicator == ""@ {
        Some(len == 1)
    } else {
        None
    }
}

/// Whether a sequence of `len` items matches the occurrence indicator; an
/// indicator other than `?`, `*`, `+` or none is an error that the parser
/// never lets through.
pub fn match_occurence(len: usize, indicator: &str) -> (r: Result<bool, XPathError>)
    ensures
        match occurrence_matches(len as int, indicator@) {
            Some(b) => r matches Ok(x) && x == b,
            None => r matches Err(e) && e.kind == XPathErrorKind::CantOccur,
        },
{
    if str_eq(indicator, "?") {
        Ok(len <= 1)
    } else if str_eq(indicator, "*") {
        Ok(true)
    } else if str_eq(indicator, "+") {
        Ok(1 <= len)
    } else if str_eq(indicator, "") {
        Ok(len == 1)
    } else {
        Err(new_error(XPathErrorKind::CantOccur, "match_occurence: bad indicator."))
    }
}

} // verus!
