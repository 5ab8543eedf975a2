use vstd::prelude::*;
use vstd::string::*;

verus! {

/// Unicode's White_Space property, which `char::is_whitespace` tests.
pub open spec fn spec_is_whitespace(c: char) -> bool {
    ||| 0x09 <= (c as u32) <= 0x0D
    ||| c as u32 == 0x20
    ||| c as u32 == 0x85
    ||| c as u32 == 0xA0
    ||| c as u32 == 0x1680
    ||| 0x2000 <= (c as u32) <= 0x200A
    ||| c as u32 == 0x2028
    ||| c as u32 == 0x2029
    ||| c as u32 == 0x202F
    ||| c as u32 == 0x205F
    ||| c as u32 == 0x3000
}

/// Whether `c` is a Unicode white space character.
pub fn is_whitespace(c: char) -> (b: bool)
    ensures
        b == spec_is_whitespace(c),
{
    let v = c as u32;
    (0x09 <= v && v <= 0x0D) || v == 0x20 || v == 0x85 || v == 0xA0 || v == 0x1680 || (0x2000
        <= v && v <= 0x200A) || v == 0x2028 || v == 0x2029 || v == 0x202F || v == 0x205F || v
        == 0x3000
}

/// The index of the first character at or after `i` that is not white space
/// (or the length, if there is none).
pub open spec fn first_non_whitespace(s: Seq<char>, i: int) -> int
    decreases s.len() - i,
{
    if 0 <= i < s.len() && spec_is_whitespace(s[i]) {
        first_non_whitespace(s, i + 1)
    } else {
        i
    }
}

/// The end of `s` once the white space before index `j`, down to `lo`, is cut off.
pub open spec fn end_without_whitespace(s: Seq<char>, j: int, lo: int) -> int
    decreases j - lo,
{
    if lo < j <= s.len() && spec_is_whitespace(s[j - 1]) {
        end_without_whitespace(s, j - 1, lo)
    } else {
        j
    }
}

/// `s` without leading and trailing white space, as `str::trim` gives it.
pub open spec fn spec_trim(s: Seq<char>) -> Seq<char> {
    let start = first_non_whitespace(s, 0);
    s.subrange(start, end_without_whitespace(s, s.len() as int, start))
}

proof fn lemma_first_non_whitespace_bounds(s: Seq<char>, i: int)
    requires
        0 <= i <= s.len(),
    ensures
        i <= first_non_whitespace(s, i) <= s.len(),
    decreases s.len() - i,
{
    if i < s.len() && spec_is_whitespace(s[i]) {
        lemma_first_non_whitespace_bounds(s, i + 1);
    }
}

proof fn lemma_end_without_whitespace_bounds(s: Seq<char>, j: int, lo: int)
    requires
        0 <= lo <= j <= s.len(),
    ensures
        lo <= end_without_whitespace(s, j, lo) <= j,
    decreases j - lo,
{
    if lo < j && spec_is_whitespace(s[j - 1]) {
        lemma_end_without_whitespace_bounds(s, j - 1, lo);
    }
}

/// Returns `s` with leading and trailing white space removed.
pub fn trim(s: &str) -> (r: String)
    ensures
        r@ == spec_trim(s@),
{
    let n = s.unicode_len();
    let mut start: usize = 0;
    while start < n && is_whitespace(s.get_char(start))
        invariant
            n == s@.len(),
            start <= n,
            first_non_whitespace(s@, start as int) == first_non_whitespace(s@, 0),
        decreases n - start,
    {
        start = start + 1;
    }
    let mut end: usize = n;
    while end > start && is_whitespace(s.get_char(end - 1))
        invariant
            n == s@.len(),
            start <= end <= n,
            start == first_non_whitespace(s@, 0),
            end_without_whitespace(s@, end as int, start as int) == end_without_whitespace(
                s@,
                n as int,
                start as int,
            ),
        decreases end - start,
    {
        end = end - 1;
    }
    String::from_str(s.substring_char(start, end))
}

/// The value of a non-empty run of decimal digits.
pub open spec fn decimal_value(digits: Seq<char>) -> int
    decreases digits.len(),
{
    if digits.len() == 0 {
        0
    } else {
        decimal_value(digits.drop_last()) * 10 + (digits.last() as int - '0' as int)
    }
}

pub open spec fn spec_is_digit(c: char) -> bool {
    '0' <= c <= '9'
}

pub open spec fn all_digits(s: Seq<char>) -> bool {
    forall|i: int| 0 <= i < s.len() ==> spec_is_digit(#[trigger] s[i])
}

/// What `str::parse::<i32>` gives: an optional sign, then one or more
/// decimal digits whose value fits in an `i32`.
pub open spec fn spec_parse_i32(s: Seq<char>) -> Option<i32> {
    let negative = s.len() > 0 && s[0] == '-';
    let signed = s.len() > 0 && (s[0] == '-' || s[0] == '+');
    let digits = if signed {
        s.drop_first()
    } else {
        s
    };
    let value = if negative {
        -decimal_value(digits)
    } else {
        decimal_value(digits)
    };
    if digits.len() == 0 || !all_digits(digits) || value < i32::MIN || value > i32::MAX {
        None
    } else {
        Some(value as i32)
    }
}

proof fn lemma_decimal_value_nonneg(digits: Seq<char>)
    requires
        all_digits(digits),
    ensures
        decimal_value(digits) >= 0,
    decreases digits.len(),
{
    if digits.len() > 0 {
        assert(all_digits(digits.drop_last())) by {
            assert forall|i: int| 0 <= i < digits.drop_last().len() implies spec_is_digit(
                #[trigger] digits.drop_last()[i],
            ) by {
                assert(digits.drop_last()[i] == digits[i]);
            }
        }
        lemma_decimal_value_nonneg(digits.drop_last());
        assert(spec_is_digit(digits[digits.len() - 1]));
    }
}

/// Parses a decimal `i32` the way `str::parse::<i32>` does.
pub fn parse_i32(s: &str) -> (r: Option<i32>)
    ensures
        r == spec_parse_i32(s@),
{
    let n = s.unicode_len();
    let mut negative = false;
    let mut start: usize = 0;
    if n > 0 {
        let c0 = s.get_char(0);
        if c0 == '-' {
            negative = true;
            start = 1;
        } else if c0 == '+' {
            start = 1;
        }
    }
    let ghost digits = if start == 1 {
        s@.drop_first()
    } else {
        s@
    };
    assert(digits =~= s@.subrange(start as int, n as int));
    assert(digits == (if s@.len() > 0 && (s@[0] == '-' || s@[0] == '+') {
        s@.drop_first()
    } else {
        s@
    }));
    assert(negative == (s@.len() > 0 && s@[0] == '-'));
    if start == n {
        return None;
    }
    let mut acc: u64 = 0;
    let mut overflow = false;
    let mut i: usize = start;
    while i < n
        invariant
            n == s@.len(),
            start <= i <= n,
            digits =~= s@.subrange(start as int, n as int),
            digits == (if s@.len() > 0 && (s@[0] == '-' || s@[0] == '+') {
                s@.drop_first()
            } else {
                s@
            }),
            all_digits(s@.subrange(start as int, i as int)),
            !overflow ==> acc == decimal_value(s@.subrange(start as int, i as int)),
            !overflow ==> acc <= 0x8000_0000,
            overflow ==> decimal_value(s@.subrange(start as int, i as int)) > 0x8000_0000,
        decreases n - i,
    {
        let c = s.get_char(i);
        let ghost prefix = s@.subrange(start as int, i as int);
        let ghost next = s@.subrange(start as int, i + 1);
        assert(next.drop_last() =~= prefix);
        assert(next.last() == c);
        if !('0' <= c && c <= '9') {
            assert(digits[i - start] == c);
            assert(!spec_is_digit(digits[i - start]));
            assert(!all_digits(digits));
            return None;
        }
        assert(all_digits(next)) by {
            assert forall|k: int| 0 <= k < next.len() implies spec_is_digit(#[trigger] next[k]) by {
                if k < prefix.len() {
                    assert(next[k] == prefix[k]);
                }
            }
        }
        let d = (c as u32 - '0' as u32) as u64;
        if !overflow {
            if acc * 10 + d > 0x8000_0000 {
                overflow = true;
            } else {
                acc = acc * 10 + d;
            }
        } else {
            proof {
                lemma_decimal_value_nonneg(prefix);
            }
        }
        i = i + 1;
    }
    assert(s@.subrange(start as int, n as int) =~= digits);
    if overflow {
        None
    } else if negative {
        let v: i64 = -(acc as i64);
        Some(v as i32)
    } else if acc > 0x7fff_ffff {
        None
    } else {
        Some(acc as i32)
    }
}

proof fn lemma_first_non_whitespace_skips(s: Seq<char>, i: int)
    requires
        0 <= i <= s.len(),
    ensures
        i <= first_non_whitespace(s, i) <= s.len(),
        forall|k: int| i <= k < first_non_whitespace(s, i) ==> spec_is_whitespace(#[trigger] s[k]),
        first_non_whitespace(s, i) < s.len() ==> !spec_is_whitespace(s[first_non_whitespace(s, i)]),
    decreases s.len() - i,
{
    if i < s.len() && spec_is_whitespace(s[i]) {
        lemma_first_non_whitespace_skips(s, i + 1);
    }
}

proof fn lemma_end_without_whitespace_skips(s: Seq<char>, j: int, lo: int)
    requires
        0 <= lo <= j <= s.len(),
    ensures
        lo <= end_without_whitespace(s, j, lo) <= j,
        forall|k: int| end_without_whitespace(s, j, lo) <= k < j ==> spec_is_whitespace(#[trigger] s[k]),
        end_without_whitespace(s, j, lo) > lo ==> !spec_is_whitespace(s[end_without_whitespace(s, j, lo) - 1]),
    decreases j - lo,
{
    if lo < j && spec_is_whitespace(s[j - 1]) {
        lemma_end_without_whitespace_skips(s, j - 1, lo);
    }
}

/// Trimming keeps a contiguous part of the text: everything cut off before
/// and after it is white space, and what is kept neither starts nor ends
/// with white space.
pub proof fn lemma_trim_cuts_only_white_space(s: Seq<char>)
    ensures
        exists|i: int, j: int|
            0 <= i <= j <= s.len() && spec_trim(s) == s.subrange(i, j) && (forall|k: int|
                0 <= k < i ==> spec_is_whitespace(#[trigger] s[k])) && (forall|k: int|
                j <= k < s.len() ==> spec_is_whitespace(#[trigger] s[k])) && (i < j ==> !spec_is_whitespace(
                s[i],
            ) && !spec_is_whitespace(s[j - 1])),
{
    let i = first_non_whitespace(s, 0);
    lemma_first_non_whitespace_skips(s, 0);
    let j = end_without_whitespace(s, s.len() as int, i);
    lemma_end_without_whitespace_skips(s, s.len() as int, i);
    assert(spec_trim(s) == s.subrange(i, j));
}

/// A minus sign in front of digits parses to the negated number (where that
/// fits), and a plus sign changes nothing.
pub proof fn lemma_parse_sign(digits: Seq<char>)
    requires
        digits.len() > 0,
        all_digits(digits),
    ensures
        spec_parse_i32(seq!['+'] + digits) == spec_parse_i32(digits),
        decimal_value(digits) <= 0x8000_0000 ==> spec_parse_i32(seq!['-'] + digits) == Some(
            (-decimal_value(digits)) as i32,
        ),
        decimal_value(digits) > 0x8000_0000 ==> spec_parse_i32(seq!['-'] + digits) is None,
        spec_parse_i32(digits) matches Some(v) ==> v == decimal_value(digits),
{
    assert((seq!['+'] + digits).drop_first() =~= digits);
    assert((seq!['-'] + digits).drop_first() =~= digits);
    assert(!spec_is_digit(digits[0]) ==> false);
    assert(digits[0] != '-' && digits[0] != '+');
    lemma_decimal_value_nonneg(digits);
}

/// One more digit at the end multiplies the number by ten and adds the digit.
pub proof fn lemma_parse_next_digit(digits: Seq<char>, c: char)
    requires
        digits.len() > 0,
        all_digits(digits),
        '0' <= c <= '9',
        decimal_value(digits) * 10 + (c as int - '0' as int) <= i32::MAX,
    ensures
        spec_parse_i32(digits + seq![c]) == Some(
            (decimal_value(digits) * 10 + (c as int - '0' as int)) as i32,
        ),
{
    let d = digits + seq![c];
    assert(d.drop_last() =~= digits);
    assert(d.last() == c);
    assert(all_digits(d)) by {
        assert forall|k: int| 0 <= k < d.len() implies spec_is_digit(#[trigger] d[k]) by {
            if k < digits.len() {
                assert(d[k] == digits[k]);
            }
        }
    }
    assert(d[0] == digits[0]);
    assert(spec_is_digit(digits[0]));
    lemma_decimal_value_nonneg(digits);
}

} // verus!
