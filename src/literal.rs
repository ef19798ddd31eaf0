use vstd::prelude::*;

verus! {

/// `c` is one of the decimal digits `0` to `9`.
pub open spec fn is_digit(c: char) -> bool {
    '0' as u32 <= c as u32 <= '9' as u32
}

/// The value of a decimal digit.
pub open spec fn digit_value(c: char) -> int {
    c as u32 - '0' as u32
}

/// Every character of `s` is a decimal digit.
pub open spec fn all_digits(s: Seq<char>) -> bool {
    forall|i: int| 0 <= i < s.len() ==> is_digit(#[trigger] s[i])
}

/// The number that a sequence of decimal digits spells, most significant first.
pub open spec fn digits_value(s: Seq<char>) -> int
    decreases s.len(),
{
    if s.len() == 0 {
        0
    } else {
        digits_value(s.drop_last()) * 10 + digit_value(s.last())
    }
}

/// `s` is a base-10 literal: a non-empty run of digits whose value fits in `i32`.
pub open spec fn is_literal(s: Seq<char>) -> bool {
    &&& s.len() > 0
    &&& all_digits(s)
    &&& digits_value(s) <= i32::MAX
}

/// What reading `s` as an `i32` literal gives.
pub open spec fn literal_of(s: Seq<char>) -> Option<i32> {
    if is_literal(s) {
        Some(digits_value(s) as i32)
    } else {
        None
    }
}

/// The value of a digit sequence is never negative.
pub proof fn lemma_digits_value_nonneg(s: Seq<char>)
    requires
        all_digits(s),
    ensures
        digits_value(s) >= 0,
    decreases s.len(),
{
    if s.len() > 0 {
        assert(all_digits(s.drop_last()));
        lemma_digits_value_nonneg(s.drop_last());
    }
}

/// A prefix of a digit sequence spells no larger a number than the whole.
pub proof fn lemma_prefix_value_le(s: Seq<char>, i: int)
    requires
        all_digits(s),
        0 <= i <= s.len(),
    ensures
        digits_value(s.subrange(0, i)) <= digits_value(s),
    decreases s.len(),
{
    if i == s.len() {
        assert(s.subrange(0, i) =~= s);
    } else {
        let t = s.drop_last();
        assert(all_digits(t));
        assert(t.subrange(0, i) =~= s.subrange(0, i));
        lemma_prefix_value_le(t, i);
        lemma_digits_value_nonneg(t);
    }
}

/// Reads `s` as a base-10 literal without sign; `None` where it is empty,
/// holds a character that is not a digit, or exceeds `i32::MAX`.
pub fn parse_literal(s: &Vec<char>) -> (r: Option<i32>)
    ensures
        r == literal_of(s@),
{
    let n = s.len();
    if n == 0 {
        return None;
    }
    let mut acc: i64 = 0;
    let mut i: usize = 0;
    while i < n
        invariant
            n == s.len(),
            0 <= i <= n,
            all_digits(s@.subrange(0, i as int)),
            acc as int == digits_value(s@.subrange(0, i as int)),
            0 <= acc <= i32::MAX,
        decreases n - i,
    {
        let u: u32 = s[i] as u32;
        if u < '0' as u32 || u > '9' as u32 {
            assert(!is_digit(s@[i as int]));
            return None;
        }
        let next = acc * 10 + (u - '0' as u32) as i64;
        let ghost p = s@.subrange(0, i as int + 1);
        assert(p.drop_last() =~= s@.subrange(0, i as int));
        assert(all_digits(p));
        if next > i32::MAX as i64 {
            proof {
                if all_digits(s@) {
                    lemma_prefix_value_le(s@, i as int + 1);
                }
            }
            return None;
        }
        acc = next;
        i = i + 1;
    }
    assert(s@.subrange(0, n as int) =~= s@);
    Some(acc as i32)
}

} // verus!
