use vstd::prelude::*;

use crate::builder::{has_close_after, is_wrapped, lemma_skip_group, parse_tree, split_from, split_point, strip};
use crate::equation::Equation;
use crate::error::CalcError;
use crate::evaluate::{all_supported, outcome};
use crate::literal::{
    all_digits, digits_value, is_digit, is_literal, lemma_digits_value_nonneg, literal_of,
};
use crate::operator::{is_operator_char, op_of};

verus! {

/// An operand with no top-level operator of its own: a run of digits, or a
/// group `(...)` in which no other `)` stands.
pub open spec fn is_atom(a: Seq<char>) -> bool {
    &&& a.len() > 0
    &&& {
        ||| all_digits(a)
        ||| a[0] == '(' && a.last() == ')' && forall|k: int| 0 < k < a.len() - 1 ==> a[k] != ')'
    }
}

/// Scanning outside a group passes over characters that are neither operator
/// glyphs nor `(`.
proof fn lemma_scan_plain(s: Seq<char>, i: int, j: int)
    requires
        0 <= i <= j <= s.len(),
        forall|k: int| i <= k < j ==> !is_operator_char(#[trigger] s[k]) && s[k] != '(',
    ensures
        split_from(s, i, false) == split_from(s, j, false),
    decreases j - i,
{
    if i < j {
        lemma_scan_plain(s, i + 1, j);
    }
}

/// A literal builds to a single leaf holding its value, and evaluates to that
/// value.
pub proof fn lemma_literal_round_trip(s: Seq<char>)
    requires
        is_literal(s),
    ensures
        parse_tree(s) == Some(Equation::Value(digits_value(s) as i32)),
        outcome(s) == Ok::<i32, CalcError>(digits_value(s) as i32),
        (digits_value(s) as i32) as int == digits_value(s),
{
    assert(is_digit(s[0]));
    assert(strip(s) == s);
    lemma_scan_plain(s, 0, s.len() as int);
    assert(split_point(s) is None);
    assert(literal_of(s) == Some(digits_value(s) as i32));
    lemma_digits_value_nonneg(s);
    assert(all_supported(s));
}

/// An expression `A c B`, whose left operand `A` has no top-level operator of
/// its own, splits at `c`: its tree is the operator of `c` over the trees of
/// `A` and `B`, and its value is that operator applied to theirs. So a chain
/// of operators nests to the right (`10-3-2` is `10-(3-2)`), with no
/// precedence. Where `A` opens with `(` and `B` closes with `)` the outer pair
/// would be stripped first, and that case is left out.
pub proof fn lemma_split_at_first_operator(a: Seq<char>, c: char, b: Seq<char>)
    requires
        is_atom(a),
        is_operator_char(c),
        parse_tree(a) is Some,
        parse_tree(b) is Some,
        !is_wrapped(a + seq![c] + b),
    ensures
        parse_tree(a + seq![c] + b) == Some(
            Equation::Expression {
                op: op_of(c),
                left: Box::new(parse_tree(a).unwrap()),
                right: Box::new(parse_tree(b).unwrap()),
            },
        ),
        parse_tree(a + seq![c] + b).unwrap().value() == op_of(c).apply(
            parse_tree(a).unwrap().value(),
            parse_tree(b).unwrap().value(),
        ),
{
    let s = a + seq![c] + b;
    let n = a.len() as int;
    assert(strip(s) == s);
    assert(s[n] == c);
    if all_digits(a) {
        assert forall|k: int| 0 <= k < n implies !is_operator_char(#[trigger] s[k]) && s[k]
            != '(' by {
            assert(s[k] == a[k]);
            assert(is_digit(a[k]));
        }
        lemma_scan_plain(s, 0, n);
    } else {
        assert(s[0] == '(');
        assert(s[n - 1] == ')');
        assert(has_close_after(s, 0));
        assert forall|k: int| 1 <= k < n - 1 implies s[k] != ')' by {
            assert(s[k] == a[k]);
        }
        lemma_skip_group(s, 1, n - 1);
    }
    assert(split_point(s) == Some(n));
    assert(s.subrange(0, n) =~= a);
    assert(s.subrange(n + 1, s.len() as int) =~= b);
}

/// Evaluation is a function of the input alone: equal inputs give equal
/// outcomes, however often they are evaluated.
pub proof fn lemma_outcome_deterministic(s1: Seq<char>, s2: Seq<char>)
    requires
        s1 == s2,
    ensures
        outcome(s1) == outcome(s2),
        parse_tree(s1) == parse_tree(s2),
{
}

/// Wrapping an expression that is not itself wrapped in one pair of
/// parentheses leaves its tree unchanged: the builder strips the pair.
pub proof fn lemma_strip_outer_parens(t: Seq<char>)
    requires
        !is_wrapped(t),
    ensures
        parse_tree(seq!['('] + t + seq![')']) == parse_tree(t),
{
    let s = seq!['('] + t + seq![')'];
    assert(is_wrapped(s));
    assert(strip(s) =~= t);
    assert(strip(t) == t);
}

} // verus!
