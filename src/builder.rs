use vstd::prelude::*;

use crate::equation::Equation;
use crate::error::CalcError;
use crate::literal::{literal_of, parse_literal};
use crate::operator::{is_operator, is_operator_char, op_of, operator_from_char};

verus! {

/// `s` is wrapped in one outer pair of parentheses: its first character is `(`
/// and its last is `)`. Whether the two match each other is not asked.
pub open spec fn is_wrapped(s: Seq<char>) -> bool {
    s.len() >= 2 && s[0] == '(' && s.last() == ')'
}

/// `s` with one outer layer of parentheses removed, where it has one.
pub open spec fn strip(s: Seq<char>) -> Seq<char> {
    if is_wrapped(s) {
        s.subrange(1, s.len() - 1)
    } else {
        s
    }
}

/// Some `)` stands in `s` after position `i`.
pub open spec fn has_close_after(s: Seq<char>, i: int) -> bool {
    exists|k: int| i < k < s.len() && s[k] == ')'
}

/// The first top-level operator of `s` at or after position `i`.
///
/// Outside a group (`in_group` false), an operator glyph is the split point; a
/// `(` opens a group when some `)` follows it, and the group then runs to the
/// first `)` after it, flat, without counting nested parentheses. A `(` with
/// no `)` after it is passed over like any other character.
pub open spec fn split_from(s: Seq<char>, i: int, in_group: bool) -> Option<int>
    decreases s.len() - i,
{
    if 0 <= i < s.len() {
        if in_group {
            split_from(s, i + 1, s[i] != ')')
        } else if is_operator_char(s[i]) {
            Some(i)
        } else if s[i] == '(' && has_close_after(s, i) {
            split_from(s, i + 1, true)
        } else {
            split_from(s, i + 1, false)
        }
    } else {
        None
    }
}

/// The position at which `s` splits into two operands, if it has one.
pub open spec fn split_point(s: Seq<char>) -> Option<int> {
    split_from(s, 0, false)
}

/// The tree that the builder makes of `s`, or `None` where some literal it
/// reaches is malformed.
///
/// One outer pair of parentheses is stripped first. The rest splits at its
/// first top-level operator, both sides built in turn; with no such operator
/// it is a literal.
pub open spec fn parse_tree(s: Seq<char>) -> Option<Equation>
    decreases s.len(),
{
    let t = strip(s);
    match split_point(t) {
        Some(k) => if 0 <= k < t.len() {
            match (parse_tree(t.subrange(0, k)), parse_tree(t.subrange(k + 1, t.len() as int))) {
                (Some(l), Some(r)) => Some(
                    Equation::Expression { op: op_of(t[k]), left: Box::new(l), right: Box::new(r) },
                ),
                _ => None,
            }
        } else {
            None
        },
        None => match literal_of(t) {
            Some(v) => Some(Equation::Value(v)),
            None => None,
        },
    }
}

/// Inside a group that opened before `i`, scanning goes on after the first `)`
/// at or after `i`, out of the group.
pub proof fn lemma_skip_group(s: Seq<char>, i: int, j: int)
    requires
        0 <= i <= j < s.len(),
        s[j] == ')',
        forall|k: int| i <= k < j ==> s[k] != ')',
    ensures
        split_from(s, i, true) == split_from(s, j + 1, false),
    decreases j - i,
{
    if i < j {
        lemma_skip_group(s, i + 1, j);
    }
}

/// A copy of `v[lo..hi]`.
fn copy_range(v: &Vec<char>, lo: usize, hi: usize) -> (r: Vec<char>)
    requires
        lo <= hi <= v.len(),
    ensures
        r@ == v@.subrange(lo as int, hi as int),
{
    let mut r: Vec<char> = Vec::new();
    let mut i: usize = lo;
    while i < hi
        invariant
            lo <= i <= hi <= v.len(),
            r@ == v@.subrange(lo as int, i as int),
        decreases hi - i,
    {
        r.push(v[i]);
        assert(r@ =~= v@.subrange(lo as int, i as int + 1));
        i = i + 1;
    }
    r
}

/// The position of the first `)` after position `i`, if any.
fn find_close(s: &Vec<char>, i: usize) -> (r: Option<usize>)
    requires
        i < s.len(),
    ensures
        r matches Some(j) ==> i < j < s.len() && s@[j as int] == ')' && forall|k: int|
            i < k < j ==> s@[k] != ')',
        r is None ==> !has_close_after(s@, i as int),
{
    let mut j: usize = i + 1;
    while j < s.len()
        invariant
            i < j <= s.len(),
            forall|k: int| i < k < j ==> s@[k] != ')',
        decreases s.len() - j,
    {
        if s[j] == ')' {
            return Some(j);
        }
        j = j + 1;
    }
    None
}

/// The first top-level operator of `s`, scanning left to right.
pub fn find_split(s: &Vec<char>) -> (r: Option<usize>)
    ensures
        r matches Some(k) ==> k < s.len() && is_operator_char(s@[k as int]),
        split_point(s@) == (match r {
            Some(k) => Some(k as int),
            None => None::<int>,
        }),
{
    let n = s.len();
    let mut i: usize = 0;
    while i < n
        invariant
            n == s.len(),
            0 <= i <= n,
            split_from(s@, i as int, false) == split_point(s@),
        decreases n - i,
    {
        if is_operator(s[i]) {
            return Some(i);
        }
        if s[i] == '(' {
            match find_close(s, i) {
                Some(j) => {
                    proof {
                        lemma_skip_group(s@, i as int + 1, j as int);
                    }
                    i = j + 1;
                },
                None => {
                    i = i + 1;
                },
            }
        } else {
            i = i + 1;
        }
    }
    None
}

/// Builds the expression tree of `problem`.
///
/// One outer layer of parentheses is stripped where the first character is
/// `(` and the last is `)`. The rest is split at its first operator outside a
/// parenthesised group, and both sides are built in turn; a sequence with no
/// such operator is read as a literal. A group runs from `(` to the first `)`
/// after it, so nested parentheses are not matched by depth.
///
/// The result is the tree `parse_tree` gives, and `MalformedExpression` where
/// that is `None`.
pub fn build(problem: Vec<char>) -> (r: Result<Equation, CalcError>)
    ensures
        match r {
            Ok(e) => parse_tree(problem@) == Some(e),
            Err(x) => parse_tree(problem@) is None && x == CalcError::MalformedExpression,
        },
    decreases problem@.len(),
{
    let ghost s = problem@;
    let n = problem.len();
    let t = if n >= 2 && problem[0] == '(' && problem[n - 1] == ')' {
        copy_range(&problem, 1, n - 1)
    } else {
        problem
    };
    assert(t@ == strip(s));
    match find_split(&t) {
        Some(k) => {
            let left = match build(copy_range(&t, 0, k)) {
                Ok(e) => e,
                Err(x) => return Err(x),
            };
            let right = match build(copy_range(&t, k + 1, t.len())) {
                Ok(e) => e,
                Err(x) => return Err(x),
            };
            Ok(Equation::Expression {
                op: operator_from_char(&t[k]),
                left: Box::new(left),
                right: Box::new(right),
            })
        },
        None => match parse_literal(&t) {
            Some(v) => Ok(Equation::Value(v)),
            None => Err(CalcError::MalformedExpression),
        },
    }
}

} // verus!
