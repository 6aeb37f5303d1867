//! String helpers: prefix tests, character counting and decimal-number
//! syntax, with spec-level definitions over character sequences.

use vstd::prelude::*;

verus! {

/// `p` is a prefix of `s`.
pub open spec fn starts_with(s: Seq<char>, p: Seq<char>) -> bool {
    p.len() <= s.len() && s.subrange(0, p.len() as int) == p
}

/// Number of occurrences of `c` in `s`.
pub open spec fn count_char(s: Seq<char>, c: char) -> nat
    decreases s.len(),
{
    if s.len() == 0 {
        0
    } else {
        count_char(s.drop_last(), c) + if s.last() == c {
            1nat
        } else {
            0nat
        }
    }
}

/// Counting distributes over concatenation.
pub proof fn lemma_count_char_concat(a: Seq<char>, b: Seq<char>, c: char)
    ensures
        count_char(a + b, c) == count_char(a, c) + count_char(b, c),
    decreases b.len(),
{
    if b.len() == 0 {
        assert(a + b =~= a);
    } else {
        lemma_count_char_concat(a, b.drop_last(), c);
        assert((a + b).drop_last() =~= a + b.drop_last());
        assert((a + b).last() == b.last());
    }
}

/// A sequence that contains `c` somewhere counts at least one occurrence.
pub proof fn lemma_count_char_positive(s: Seq<char>, c: char, i: int)
    requires
        0 <= i < s.len(),
        s[i] == c,
    ensures
        count_char(s, c) >= 1,
    decreases s.len(),
{
    if i == s.len() - 1 {
    } else {
        lemma_count_char_positive(s.drop_last(), c, i);
    }
}

/// A prefix survives appending at the end.
pub proof fn lemma_starts_with_append(s: Seq<char>, p: Seq<char>, t: Seq<char>)
    requires
        starts_with(s, p),
    ensures
        starts_with(s + t, p),
{
    assert((s + t).subrange(0, p.len() as int) =~= s.subrange(0, p.len() as int));
}

/// A concatenation starts with its left operand.
pub proof fn lemma_concat_starts_with(p: Seq<char>, t: Seq<char>)
    ensures
        starts_with(p + t, p),
{
    assert((p + t).subrange(0, p.len() as int) =~= p);
}

/// Whether `s` begins with the characters of `p`.
pub fn str_starts_with(s: &str, p: &str) -> (r: bool)
    ensures
        r == starts_with(s@, p@),
{
    let n: usize = s.unicode_len();
    let m: usize = p.unicode_len();
    if m > n {
        return false;
    }
    let mut i: usize = 0;
    while i < m
        invariant
            i <= m <= n,
            n == s@.len(),
            m == p@.len(),
            forall|j: int| 0 <= j < i ==> s@[j] == p@[j],
        decreases m - i,
    {
        if s.get_char(i) != p.get_char(i) {
            assert(s@.subrange(0, m as int)[i as int] != p@[i as int]);
            return false;
        }
        i = i + 1;
    }
    assert(s@.subrange(0, m as int) =~= p@);
    true
}

/// Number of occurrences of `c` among the characters of `s`.
pub fn str_count_char(s: &str, c: char) -> (r: usize)
    ensures
        r == count_char(s@, c),
{
    let n: usize = s.unicode_len();
    let mut i: usize = 0;
    let mut r: usize = 0;
    while i < n
        invariant
            i <= n,
            n == s@.len(),
            r <= i,
            r == count_char(s@.subrange(0, i as int), c),
        decreases n - i,
    {
        let ch = s.get_char(i);
        proof {
            assert(s@.subrange(0, i + 1 as int).drop_last() =~= s@.subrange(0, i as int));
            assert(s@.subrange(0, i + 1 as int).last() == s@[i as int]);
        }
        if ch == c {
            r = r + 1;
        }
        i = i + 1;
    }
    proof {
        assert(s@.subrange(0, n as int) =~= s@);
    }
    r
}

/// `c` is one of the ten decimal digits.
pub open spec fn is_digit(c: char) -> bool {
    48 <= c as u32 <= 57
}

/// Every character of `s` is a decimal digit.
pub open spec fn digits_only(s: Seq<char>) -> bool {
    forall|i: int| 0 <= i < s.len() ==> is_digit(#[trigger] s[i])
}

/// `s` is an unsigned decimal number: digits, optionally followed by a
/// point and more digits, with at least one digit on each side of the point.
pub open spec fn is_unsigned_decimal(s: Seq<char>) -> bool {
    ||| (s.len() >= 1 && digits_only(s))
    ||| (exists|k: int|
        1 <= k <= s.len() - 2 && #[trigger] s[k] == '.' && digits_only(s.subrange(0, k))
            && digits_only(s.subrange(k + 1, s.len() as int)))
}

/// `s` is a decimal number with an optional leading minus sign.
pub open spec fn is_decimal(s: Seq<char>) -> bool {
    if s.len() >= 1 && s[0] == '-' {
        is_unsigned_decimal(s.subrange(1, s.len() as int))
    } else {
        is_unsigned_decimal(s)
    }
}

/// Index of the first occurrence of `c` in `s`, if any.
fn find_first(s: &str, c: char) -> (r: Option<usize>)
    ensures
        r matches Some(k) ==> k < s@.len() && s@[k as int] == c && (forall|j: int|
            0 <= j < k ==> s@[j] != c),
        r is None ==> (forall|j: int| 0 <= j < s@.len() ==> s@[j] != c),
{
    let n: usize = s.unicode_len();
    let mut i: usize = 0;
    while i < n
        invariant
            i <= n,
            n == s@.len(),
            forall|j: int| 0 <= j < i ==> s@[j] != c,
        decreases n - i,
    {
        if s.get_char(i) == c {
            return Some(i);
        }
        i = i + 1;
    }
    None
}

/// Whether every character of `s` in `[from, to)` is a decimal digit.
fn range_digits_only(s: &str, from: usize, to: usize) -> (r: bool)
    requires
        from <= to <= s@.len(),
    ensures
        r == digits_only(s@.subrange(from as int, to as int)),
{
    let mut i: usize = from;
    while i < to
        invariant
            from <= i <= to <= s@.len(),
            forall|j: int| from <= j < i ==> is_digit(#[trigger] s@[j]),
        decreases to - i,
    {
        let ch = s.get_char(i);
        let code: u32 = ch as u32;
        if code < 48 || code > 57 {
            assert(s@.subrange(from as int, to as int)[i - from] == s@[i as int]);
            return false;
        }
        i = i + 1;
    }
    assert(forall|j: int|
        0 <= j < to - from ==> is_digit(#[trigger] s@.subrange(from as int, to as int)[j]));
    true
}

/// Whether `s` is written as a decimal number, optionally signed:
/// digits with at most one point and a digit on each side of it.
pub fn str_is_decimal(s: &str) -> (r: bool)
    ensures
        r == is_decimal(s@),
{
    let n: usize = s.unicode_len();
    if n == 0 {
        return false;
    }
    let start: usize = if s.get_char(0) == '-' {
        1
    } else {
        0
    };
    let body = s.substring_char(start, n);
    assert(body@ =~= s@.subrange(start as int, n as int));
    proof {
        if start == 0 {
            assert(body@ =~= s@);
        }
    }
    unsigned_decimal_exec(body)
}

/// Whether `s` is an unsigned decimal number.
fn unsigned_decimal_exec(s: &str) -> (r: bool)
    ensures
        r == is_unsigned_decimal(s@),
{
    let n: usize = s.unicode_len();
    match find_first(s, '.') {
        Option::None => {
            if n == 0 {
                return false;
            }
            let all = range_digits_only(s, 0, n);
            proof {
                assert(s@.subrange(0, n as int) =~= s@);
                if !all {
                    // With no point anywhere, the pointed form is impossible.
                    assert(forall|k: int| 0 <= k < s@.len() ==> s@[k] != '.');
                }
            }
            all
        },
        Option::Some(k) => {
            proof {
                // Any valid point position must be the first occurrence.
                assert forall|k2: int|
                    1 <= k2 <= s@.len() - 2 && #[trigger] s@[k2] == '.' && digits_only(
                        s@.subrange(0, k2),
                    ) && digits_only(s@.subrange(k2 + 1, s@.len() as int)) implies k2 == k by {
                    if k2 != k {
                        assert(k < k2);
                        assert(s@.subrange(0, k2)[k as int] == s@[k as int]);
                        assert(is_digit(s@[k as int]));
                    }
                }
                // A whole-string digit run is impossible: position k holds the point.
                assert(!is_digit(s@[k as int]));
            }
            if k < 1 {
                return false;
            }
            if k > n - 2 {
                return false;
            }
            let left = range_digits_only(s, 0, k);
            if !left {
                return false;
            }
            let right = range_digits_only(s, k + 1, n);
            right
        },
    }
}

} // verus!
