//! Numeric text as it appears in the source files: integer literals and
//! plain decimal literals.
use vstd::prelude::*;

verus! {

pub open spec fn is_digit(c: char) -> bool {
    '0' <= c && c <= '9'
}

pub open spec fn is_sign(c: char) -> bool {
    c == '-' || c == '+'
}

pub open spec fn digit_value(c: char) -> int {
    c as int - '0' as int
}

pub open spec fn all_digits(s: Seq<char>) -> bool {
    forall|i: int| 0 <= i < s.len() ==> is_digit(#[trigger] s[i])
}

/// The value of a run of decimal digits, most significant first.
pub open spec fn digits_value(s: Seq<char>) -> int
    decreases s.len(),
{
    if s.len() == 0 {
        0
    } else {
        10 * digits_value(s.drop_last()) + digit_value(s.last())
    }
}

/// The integer that an integer literal denotes: an optional `+` or `-`,
/// then one or more ASCII digits, nothing else.
pub open spec fn integer_text_value(s: Seq<char>) -> Option<int> {
    if s.len() > 0 && is_sign(s[0]) {
        let rest = s.skip(1);
        if rest.len() > 0 && all_digits(rest) {
            Some(if s[0] == '-' { -digits_value(rest) } else { digits_value(rest) })
        } else {
            None
        }
    } else if s.len() > 0 && all_digits(s) {
        Some(digits_value(s))
    } else {
        None
    }
}

/// The `i64` that a text denotes, if it is an integer literal in range.
pub open spec fn i64_of_text(s: Seq<char>) -> Option<i64> {
    match integer_text_value(s) {
        Some(v) => if i64::MIN <= v <= i64::MAX {
            Some(v as i64)
        } else {
            None
        },
        None => None,
    }
}

/// The `i32` that a text denotes, if it is an integer literal in range.
pub open spec fn i32_of_text(s: Seq<char>) -> Option<i32> {
    match integer_text_value(s) {
        Some(v) => if i32::MIN <= v <= i32::MAX {
            Some(v as i32)
        } else {
            None
        },
        None => None,
    }
}

/// Digits with at most one decimal point among them, and at least one digit.
pub open spec fn unsigned_decimal_text(m: Seq<char>) -> bool {
    ||| m.len() > 0 && all_digits(m)
    ||| exists|p: int|
        0 <= p < m.len() && m.len() >= 2 && #[trigger] m[p] == '.' && all_digits(m.take(p))
            && all_digits(m.skip(p + 1))
}

pub open spec fn is_exponent_mark(c: char) -> bool {
    c == 'e' || c == 'E'
}

/// `body` splits at `p` into a mantissa and an exponent.
pub open spec fn exponent_split(body: Seq<char>, p: int) -> bool {
    &&& 0 <= p < body.len()
    &&& is_exponent_mark(body[p])
    &&& unsigned_decimal_text(body.take(p))
    &&& integer_text_value(body.skip(p + 1)) is Some
}

/// A decimal literal: an optional sign, digits with at most one decimal
/// point, then optionally an exponent, that is `e` or `E` and an integer
/// literal (`7.5`, `-0.25`, `3`, `.5`, `4.`, `1e-06`, `2.5E+3`).
pub open spec fn decimal_text(s: Seq<char>) -> bool {
    if s.len() > 0 && is_sign(s[0]) {
        unsigned_decimal_with_exponent(s.skip(1))
    } else {
        unsigned_decimal_with_exponent(s)
    }
}

/// An unsigned decimal literal, with or without an exponent.
pub open spec fn unsigned_decimal_with_exponent(body: Seq<char>) -> bool {
    ||| unsigned_decimal_text(body)
    ||| exists|p: int| #[trigger] exponent_split(body, p)
}

proof fn lemma_digits_value_nonneg(s: Seq<char>)
    requires
        all_digits(s),
    ensures
        digits_value(s) >= 0,
    decreases s.len(),
{
    if s.len() > 0 {
        assert(all_digits(s.drop_last()));
        lemma_digits_value_nonneg(s.drop_last());
        assert(is_digit(s[s.len() - 1]));
    }
}

/// A run of digits is worth at least as much as any of its prefixes.
proof fn lemma_digits_value_prefix(s: Seq<char>, k: int)
    requires
        all_digits(s),
        0 <= k <= s.len(),
    ensures
        digits_value(s) >= digits_value(s.take(k)),
    decreases s.len(),
{
    if k < s.len() {
        let t = s.drop_last();
        assert(all_digits(t));
        lemma_digits_value_prefix(t, k);
        assert(t.take(k) =~= s.take(k));
        lemma_digits_value_nonneg(t);
        assert(is_digit(s[s.len() - 1]));
    } else {
        assert(s.take(k) =~= s);
    }
}

/// Reads an integer literal, as `str::parse::<i64>` does.
pub fn parse_i64(s: &str) -> (r: Option<i64>)
    ensures
        r == i64_of_text(s@),
{
    let n = s.unicode_len();
    if n == 0 {
        return None;
    }
    let first = s.get_char(0);
    let negative = first == '-';
    let start: usize = if first == '-' || first == '+' { 1 } else { 0 };
    let ghost body = s@.skip(start as int);
    if start == n {
        return None;
    }
    let mut magnitude: u64 = 0;
    let mut i: usize = start;
    while i < n
        invariant
            n == s@.len(),
            start <= i <= n,
            start == 0 || start == 1,
            start == 1 <==> is_sign(s@[0]),
            negative <==> s@[0] == '-',
            body == s@.skip(start as int),
            all_digits(s@.subrange(start as int, i as int)),
            magnitude == digits_value(s@.subrange(start as int, i as int)),
            magnitude <= 0x8000_0000_0000_0000u64,
        decreases n - i,
    {
        let c = s.get_char(i);
        let prefix = Ghost(s@.subrange(start as int, i as int));
        let next = Ghost(s@.subrange(start as int, i as int + 1));
        assert(next@.drop_last() =~= prefix@);
        assert(next@.last() == c);
        if !('0' <= c && c <= '9') {
            assert(body[i - start] == c);
            assert(!all_digits(body));
            return None;
        }
        let d = (c as u32 - '0' as u32) as u64;
        assert(all_digits(next@));
        if magnitude > 922_337_203_685_477_580u64 || (magnitude == 922_337_203_685_477_580u64
            && d > 8) {
            proof {
                assert(digits_value(next@) == 10 * digits_value(prefix@) + digit_value(c));
                assert(digits_value(next@) > 0x8000_0000_0000_0000);
                if start == 0 {
                    assert(body =~= s@);
                }
                if all_digits(body) {
                    lemma_digits_value_prefix(body, i - start + 1);
                    assert(body.take(i - start + 1) =~= next@);
                }
            }
            return None;
        }
        magnitude = magnitude * 10 + d;
        i = i + 1;
    }
    assert(s@.subrange(start as int, n as int) =~= body);
    if start == 0 {
        assert(body =~= s@);
    }
    if negative {
        if magnitude == 0x8000_0000_0000_0000u64 {
            Some(i64::MIN)
        } else {
            Some(-(magnitude as i64))
        }
    } else if magnitude > 0x7fff_ffff_ffff_ffffu64 {
        None
    } else {
        Some(magnitude as i64)
    }
}

/// Reads an integer literal, as `str::parse::<i32>` does.
pub fn parse_i32(s: &str) -> (r: Option<i32>)
    ensures
        r == i32_of_text(s@),
{
    match parse_i64(s) {
        Some(v) => if -0x8000_0000 <= v && v <= 0x7fff_ffff {
            Some(v as i32)
        } else {
            None
        },
        None => {
            proof {
                // an in-range i32 would also be an in-range i64
                if let Some(v) = integer_text_value(s@) {
                    assert(!(i64::MIN <= v <= i64::MAX));
                }
            }
            None
        },
    }
}

/// When a text holds a character that is neither a digit nor a decimal
/// point, or two decimal points, it is no unsigned decimal literal.
proof fn lemma_not_unsigned_decimal(m: Seq<char>, j: int, q: int)
    requires
        0 <= j < m.len(),
        0 <= q < m.len(),
        !is_digit(m[j]),
        m[j] != '.' || (q != j && m[q] == '.'),
    ensures
        !unsigned_decimal_text(m),
{
    assert(!all_digits(m));
    assert forall|p: int|
        0 <= p < m.len() && m.len() >= 2 && #[trigger] m[p] == '.' implies !(all_digits(m.take(p))
            && all_digits(m.skip(p + 1))) by {
        let other = if j != p {
            j
        } else {
            q
        };
        assert(!is_digit(m[other]));
        if other < p {
            assert(m.take(p)[other] == m[other]);
        } else {
            assert(m.skip(p + 1)[other - p - 1] == m[other]);
        }
    }
}

/// Whether the characters of `s` from `lo` to `hi` are an unsigned decimal
/// literal.
fn unsigned_decimal_in(s: &str, lo: usize, hi: usize) -> (r: bool)
    requires
        lo <= hi <= s@.len(),
    ensures
        r == unsigned_decimal_text(s@.subrange(lo as int, hi as int)),
{
    let ghost m = s@.subrange(lo as int, hi as int);
    if lo == hi {
        return false;
    }
    let mut dot: Option<usize> = None;
    let mut i: usize = lo;
    while i < hi
        invariant
            lo <= i <= hi <= s@.len(),
            m == s@.subrange(lo as int, hi as int),
            match dot {
                Some(q) => lo <= q < i && s@[q as int] == '.' && forall|k: int|
                    lo <= k < i && k != q ==> is_digit(#[trigger] s@[k]),
                None => forall|k: int| lo <= k < i ==> is_digit(#[trigger] s@[k]),
            },
        decreases hi - i,
    {
        let c = s.get_char(i);
        if c == '.' {
            if let Some(q) = dot {
                proof {
                    assert(m[i - lo] == '.' && m[q - lo] == '.');
                    lemma_not_unsigned_decimal(m, i - lo, q - lo);
                }
                return false;
            }
            dot = Some(i);
        } else if !('0' <= c && c <= '9') {
            proof {
                assert(m[i - lo] == c);
                lemma_not_unsigned_decimal(m, i - lo, i - lo);
            }
            return false;
        }
        i = i + 1;
    }
    match dot {
        None => {
            assert(all_digits(m));
            true
        },
        Some(q) => {
            let ghost p = (q - lo) as int;
            assert(m[p] == '.');
            if hi - lo < 2 {
                assert(!all_digits(m));
                return false;
            }
            assert(all_digits(m.take(p)));
            assert(all_digits(m.skip(p + 1)));
            true
        },
    }
}

/// Whether the characters of `s` from `lo` to `hi` are an integer literal,
/// whatever its size.
fn integer_literal_in(s: &str, lo: usize, hi: usize) -> (r: bool)
    requires
        lo <= hi <= s@.len(),
    ensures
        r == (integer_text_value(s@.subrange(lo as int, hi as int)) is Some),
{
    let ghost x = s@.subrange(lo as int, hi as int);
    if lo == hi {
        return false;
    }
    let first = s.get_char(lo);
    let start: usize = if first == '-' || first == '+' { lo + 1 } else { lo };
    assert(x[0] == first);
    assert(s@.subrange(start as int, hi as int) =~= if start == lo {
        x
    } else {
        x.skip(1)
    });
    if start == hi {
        return false;
    }
    let mut i: usize = start;
    while i < hi
        invariant
            lo <= start <= i <= hi <= s@.len(),
            start == lo || start == lo + 1,
            x == s@.subrange(lo as int, hi as int),
            x.len() > 0,
            start == lo + 1 <==> is_sign(x[0]),
            s@.subrange(start as int, hi as int) == if start == lo {
                x
            } else {
                x.skip(1)
            },
            forall|k: int| start <= k < i ==> is_digit(#[trigger] s@[k]),
        decreases hi - i,
    {
        let c = s.get_char(i);
        if !('0' <= c && c <= '9') {
            assert(s@.subrange(start as int, hi as int)[i - start] == c);
            assert(!all_digits(s@.subrange(start as int, hi as int)));
            return false;
        }
        i = i + 1;
    }
    assert(all_digits(s@.subrange(start as int, hi as int)));
    true
}

proof fn lemma_unsigned_decimal_chars(m: Seq<char>, i: int)
    requires
        unsigned_decimal_text(m),
        0 <= i < m.len(),
    ensures
        is_digit(m[i]) || m[i] == '.',
{
    if !all_digits(m) {
        let p = choose|p: int|
            0 <= p < m.len() && m.len() >= 2 && #[trigger] m[p] == '.' && all_digits(m.take(p))
                && all_digits(m.skip(p + 1));
        if i < p {
            assert(m.take(p)[i] == m[i]);
        } else if i > p {
            assert(m.skip(p + 1)[i - p - 1] == m[i]);
        }
    }
}

/// A text splits into mantissa and exponent at its first exponent mark, or
/// not at all.
proof fn lemma_first_exponent(body: Seq<char>, e: int)
    requires
        0 <= e < body.len(),
        is_exponent_mark(body[e]),
        forall|q: int| 0 <= q < e ==> !is_exponent_mark(#[trigger] body[q]),
    ensures
        unsigned_decimal_with_exponent(body) == exponent_split(body, e),
{
    if unsigned_decimal_text(body) {
        lemma_unsigned_decimal_chars(body, e);
    }
    assert forall|p: int| #[trigger] exponent_split(body, p) implies p == e by {
        if p > e {
            assert(body.take(p)[e] == body[e]);
            lemma_unsigned_decimal_chars(body.take(p), e);
        }
    }
}

/// Tells whether a text is a decimal literal.
pub fn is_decimal_text(s: &str) -> (r: bool)
    ensures
        r == decimal_text(s@),
{
    let n = s.unicode_len();
    let start: usize = if n > 0 && (s.get_char(0) == '-' || s.get_char(0) == '+') {
        1
    } else {
        0
    };
    let ghost body = if s@.len() > 0 && is_sign(s@[0]) {
        s@.skip(1)
    } else {
        s@
    };
    assert(body =~= s@.subrange(start as int, n as int));
    let mut p: usize = start;
    let mut found = false;
    while p < n && !found
        invariant
            start <= p <= n,
            n == s@.len(),
            found ==> p < n && is_exponent_mark(s@[p as int]),
            body == s@.subrange(start as int, n as int),
            decimal_text(s@) == unsigned_decimal_with_exponent(body),
            forall|k: int| start <= k < p ==> !is_exponent_mark(#[trigger] s@[k]),
        decreases n - p + if found {
            0int
        } else {
            1int
        },
    {
        let c = s.get_char(p);
        if c == 'e' || c == 'E' {
            found = true;
        } else {
            p = p + 1;
        }
    }
    let mantissa = unsigned_decimal_in(s, start, p);
    if !found {
        proof {
            assert forall|q: int| 0 <= q < body.len() implies !is_exponent_mark(#[trigger] body[q]) by {
                assert(body[q] == s@[start + q]);
            }
        }
        return mantissa;
    }
    let exponent = integer_literal_in(s, p + 1, n);
    proof {
        let e = (p - start) as int;
        assert(body.take(e) =~= s@.subrange(start as int, p as int));
        assert(body.skip(e + 1) =~= s@.subrange(p + 1, n as int));
        assert forall|q: int| 0 <= q < e implies !is_exponent_mark(#[trigger] body[q]) by {
            assert(body[q] == s@[start + q]);
        }
        assert(body[e] == s@[p as int]);
        lemma_first_exponent(body, e);
    }
    mantissa && exponent
}

} // verus!
