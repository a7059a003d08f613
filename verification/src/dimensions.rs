//! Parsing of image dimension strings of the form `"400x600"`.

use vstd::prelude::*;
use vstd::string::StrSliceExecFns;

verus! {

/// `c` is a decimal digit.
pub open spec fn is_digit(c: char) -> bool {
    '0' <= c <= '9'
}

/// Numeric value of a digit.
pub open spec fn digit_value(c: char) -> int {
    c as int - '0' as int
}

/// Every character of `s` is a decimal digit.
pub open spec fn all_digits(s: Seq<char>) -> bool {
    forall|i: int| 0 <= i < s.len() ==> is_digit(#[trigger] s[i])
}

/// Numeric value of a digit string, most significant digit first.
pub open spec fn digits_value(s: Seq<char>) -> int
    decreases s.len(),
{
    if s.len() == 0 {
        0
    } else {
        10 * digits_value(s.drop_last()) + digit_value(s.last())
    }
}

/// The digits of `s` after an optional leading sign.
pub open spec fn magnitude_part(s: Seq<char>) -> Seq<char> {
    if s.len() > 0 && (s[0] == '+' || s[0] == '-') {
        s.subrange(1, s.len() as int)
    } else {
        s
    }
}

/// The sign `s` denotes: -1 under a leading minus, 1 otherwise.
pub open spec fn sign_part(s: Seq<char>) -> int {
    if s.len() > 0 && s[0] == '-' {
        -1
    } else {
        1
    }
}

/// `s` is a decimal integer literal that fits in `i32`: an optional sign
/// followed by one or more digits, with a value in `i32`'s range.
pub open spec fn is_i32_literal(s: Seq<char>) -> bool {
    let m = magnitude_part(s);
    m.len() > 0 && all_digits(m) && i32::MIN <= sign_part(s) * digits_value(m) <= i32::MAX
}

/// The value of an `i32` literal.
pub open spec fn i32_literal_value(s: Seq<char>) -> int {
    sign_part(s) * digits_value(magnitude_part(s))
}

/// Index of the first `'x'` in `s`, or `s.len()` if there is none.
pub open spec fn separator_index(s: Seq<char>) -> int
    decreases s.len(),
{
    if s.len() == 0 {
        0
    } else if s[0] == 'x' {
        0
    } else {
        1 + separator_index(s.drop_first())
    }
}

/// What parsing a dimension string yields: the text left and right of the
/// first `'x'` must each be an `i32` literal, and the pair of their values is
/// returned; anything else is rejected.
pub open spec fn dimensions_spec(s: Seq<char>) -> Option<(int, int)> {
    let i = separator_index(s);
    if i < s.len() {
        let left = s.subrange(0, i);
        let right = s.subrange(i + 1, s.len() as int);
        if is_i32_literal(left) && is_i32_literal(right) {
            Some((i32_literal_value(left), i32_literal_value(right)))
        } else {
            None
        }
    } else {
        None
    }
}

proof fn lemma_separator_index_bounds(s: Seq<char>)
    ensures
        0 <= separator_index(s) <= s.len(),
        separator_index(s) < s.len() ==> s[separator_index(s)] == 'x',
        forall|j: int| 0 <= j < separator_index(s) ==> s[j] != 'x',
    decreases s.len(),
{
    if s.len() > 0 && s[0] != 'x' {
        lemma_separator_index_bounds(s.drop_first());
        assert forall|j: int| 0 <= j < separator_index(s) implies s[j] != 'x' by {
            if j > 0 {
                assert(s.drop_first()[j - 1] == s[j]);
            }
        }
    }
}

/// The first index holding `'x'` is the separator index.
proof fn lemma_separator_index_unique(s: Seq<char>, i: int)
    requires
        0 <= i < s.len(),
        s[i] == 'x',
        forall|j: int| 0 <= j < i ==> s[j] != 'x',
    ensures
        separator_index(s) == i,
{
    lemma_separator_index_bounds(s);
    let k = separator_index(s);
    if k < i {
        assert(s[k] != 'x');
    }
    if k > i {
        assert(s[i] != 'x');
    }
}

/// A digit string has a non-negative value.
proof fn lemma_digits_value_nonneg(s: Seq<char>)
    requires
        all_digits(s),
    ensures
        digits_value(s) >= 0,
    decreases s.len(),
{
    if s.len() > 0 {
        lemma_digits_value_nonneg(s.drop_last());
    }
}

/// Extending a digit string on the right cannot lower its value.
proof fn lemma_digits_value_prefix_le(s: Seq<char>, k: int)
    requires
        all_digits(s),
        0 <= k <= s.len(),
    ensures
        digits_value(s.subrange(0, k)) <= digits_value(s),
    decreases s.len() - k,
{
    if k == s.len() {
        assert(s.subrange(0, k) =~= s);
    } else {
        let pk = s.subrange(0, k);
        let pk1 = s.subrange(0, k + 1);
        assert(pk1.drop_last() =~= pk);
        assert(pk1.last() == s[k]);
        lemma_digits_value_nonneg(pk);
        lemma_digits_value_prefix_le(s, k + 1);
    }
}

/// Parse `s[from..to]` (in characters) as an `i32`, accepting exactly an
/// optional sign followed by one or more digits whose value fits in `i32`.
fn parse_i32_segment(s: &str, from: usize, to: usize) -> (r: Option<i32>)
    requires
        from <= to <= s@.len(),
    ensures
        ({
            let seg = s@.subrange(from as int, to as int);
            match r {
                Some(v) => is_i32_literal(seg) && v == i32_literal_value(seg),
                None => !is_i32_literal(seg),
            }
        }),
{
    let ghost seg = s@.subrange(from as int, to as int);
    if from == to {
        return None;
    }
    let first = s.get_char(from);
    assert(first == seg[0]);
    let negative = first == '-';
    let signed = negative || first == '+';
    let start = if signed { from + 1 } else { from };
    let ghost m = magnitude_part(seg);
    proof {
        assert(m =~= s@.subrange(start as int, to as int));
    }
    if start == to {
        return None;
    }
    let mut acc: u64 = 0;
    let mut k = start;
    while k < to
        invariant
            from <= start <= k <= to <= s@.len(),
            start < to,
            seg == s@.subrange(from as int, to as int),
            m == magnitude_part(seg),
            m == s@.subrange(start as int, to as int),
            acc == digits_value(m.subrange(0, k - start)),
            acc <= 0x8000_0000,
            all_digits(m.subrange(0, k - start)),
        decreases to - k,
    {
        let c = s.get_char(k);
        assert(m[k - start] == c);
        let cu = c as u32;
        if cu < '0' as u32 || cu > '9' as u32 {
            assert(!is_digit(m[k - start]));
            return None;
        }
        let d = cu - '0' as u32;
        assert(is_digit(c) && d == digit_value(c));
        acc = acc * 10 + (d as u64);
        proof {
            let pk = m.subrange(0, k - start);
            let pk1 = m.subrange(0, k + 1 - start);
            assert(pk1.drop_last() =~= pk);
            assert(pk1.last() == m[k - start]);
        }
        if acc > 0x8000_0000 {
            proof {
                if all_digits(m) {
                    lemma_digits_value_prefix_le(m, k + 1 - start);
                }
            }
            return None;
        }
        k += 1;
    }
    proof {
        assert(m.subrange(0, to - start) =~= m);
    }
    if negative {
        if acc == 0x8000_0000 {
            Some(i32::MIN)
        } else {
            let v = acc as i32;
            Some(-v)
        }
    } else {
        if acc > 0x7FFF_FFFF {
            return None;
        }
        Some(acc as i32)
    }
}

/// Position of the first `'x'` in `s`, or its length if there is none.
fn separator_position(s: &str) -> (r: usize)
    ensures
        r == separator_index(s@),
{
    let n = s.unicode_len();
    let mut i: usize = 0;
    while i < n
        invariant
            n == s@.len(),
            i <= n,
            forall|j: int| 0 <= j < i ==> s@[j] != 'x',
        decreases n - i,
    {
        if s.get_char(i) == 'x' {
            proof {
                lemma_separator_index_unique(s@, i as int);
            }
            return i;
        }
        i += 1;
    }
    proof {
        lemma_separator_index_bounds(s@);
        if separator_index(s@) < s@.len() {
            assert(s@[separator_index(s@)] != 'x');
        }
    }
    n
}

/// Parse `s` as a dimension pair such as `"400x600"`: the text on each side
/// of the first `'x'` must be a decimal `i32` (an optional sign and one or
/// more digits, in range); the pair of values is returned, and any other
/// input yields `None`.
pub fn parse_dimensions(s: &str) -> (r: Option<(i32, i32)>)
    ensures
        match r {
            Some(dims) => dimensions_spec(s@) == Some((dims.0 as int, dims.1 as int)),
            None => dimensions_spec(s@) is None,
        },
{
    let n = s.unicode_len();
    let i = separator_position(s);
    if i >= n {
        return None;
    }
    let left = parse_i32_segment(s, 0, i);
    let right = parse_i32_segment(s, i + 1, n);
    match (left, right) {
        (Some(w), Some(h)) => Some((w, h)),
        _ => None,
    }
}

} // verus!

