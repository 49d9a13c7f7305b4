//! Decimal integers as text: reading a signed 64-bit integer and writing one.

use crate::text::{has_whitespace, is_whitespace, lemma_trimmed_without_whitespace, trimmed};
use vstd::prelude::*;

verus! {

/// Whether `c` is one of the ten ASCII decimal digits.
pub open spec fn is_digit(c: char) -> bool {
    0x30 <= c as u32 <= 0x39
}

/// The number a decimal digit stands for.
pub open spec fn digit_value(c: char) -> int {
    c as u32 - 0x30
}

/// The decimal digit that stands for `d`, for `0 <= d < 10`.
pub open spec fn digit_char(d: int) -> char {
    (d + 0x30) as char
}

/// Whether every character of `s` is a decimal digit.
pub open spec fn all_digits(s: Seq<char>) -> bool {
    forall|i: int| 0 <= i < s.len() ==> is_digit(#[trigger] s[i])
}

/// The number that a run of decimal digits denotes, most significant digit
/// first. Leading zeros are allowed; the empty run denotes zero.
pub open spec fn digits_value(s: Seq<char>) -> int
    decreases s.len(),
{
    if s.len() == 0 {
        0
    } else {
        10 * digits_value(s.drop_last()) + digit_value(s.last())
    }
}

/// Whether `s` starts with a plus or a minus sign.
pub open spec fn has_sign(s: Seq<char>) -> bool {
    s.len() > 0 && (s[0] == '-' || s[0] == '+')
}

/// The integer that `s` denotes: an optional sign followed by one or more
/// decimal digits, and nothing else. `None` for any other text.
pub open spec fn integer_value(s: Seq<char>) -> Option<int> {
    let digits = if has_sign(s) {
        s.drop_first()
    } else {
        s
    };
    if digits.len() > 0 && all_digits(digits) {
        if has_sign(s) && s[0] == '-' {
            Some(-digits_value(digits))
        } else {
            Some(digits_value(digits))
        }
    } else {
        None
    }
}

/// The signed 64-bit integer that `s` denotes, if it denotes an integer and
/// that integer fits.
pub open spec fn parse_i64_spec(s: Seq<char>) -> Option<i64> {
    match integer_value(s) {
        Some(v) => if i64::MIN <= v <= i64::MAX {
            Some(v as i64)
        } else {
            None
        },
        None => None,
    }
}

/// The decimal digits of `n`, most significant first, without leading zeros.
pub open spec fn decimal_digits(n: nat) -> Seq<char>
    decreases n,
{
    if n < 10 {
        seq![digit_char(n as int)]
    } else {
        decimal_digits(n / 10).push(digit_char((n % 10) as int))
    }
}

/// The canonical decimal text of `n`: a minus sign if `n` is negative, then
/// the digits of its magnitude.
pub open spec fn decimal(n: int) -> Seq<char> {
    if n < 0 {
        seq!['-'] + decimal_digits((-n) as nat)
    } else {
        decimal_digits(n as nat)
    }
}

/// A run of digits denotes a number that is not negative.
pub proof fn lemma_digits_value_nonnegative(s: Seq<char>)
    requires
        all_digits(s),
    ensures
        0 <= digits_value(s),
    decreases s.len(),
{
    if s.len() > 0 {
        let init = s.drop_last();
        assert forall|i: int| 0 <= i < init.len() implies is_digit(#[trigger] init[i]) by {
            assert(init[i] == s[i]);
        }
        lemma_digits_value_nonnegative(init);
        assert(is_digit(s[s.len() - 1]));
    }
}

/// A run of digits denotes at least what any of its prefixes denotes.
pub proof fn lemma_digits_value_prefix(s: Seq<char>, k: int)
    requires
        all_digits(s),
        0 <= k <= s.len(),
    ensures
        0 <= digits_value(s.subrange(0, k)) <= digits_value(s),
    decreases s.len() - k,
{
    if k == s.len() {
        assert(s.subrange(0, k) =~= s);
        lemma_digits_value_nonnegative(s);
    } else {
        let init = s.drop_last();
        assert forall|i: int| 0 <= i < init.len() implies is_digit(#[trigger] init[i]) by {
            assert(init[i] == s[i]);
        }
        lemma_digits_value_prefix(init, k);
        assert(init.subrange(0, k) =~= s.subrange(0, k));
        lemma_digits_value_nonnegative(init);
        assert(is_digit(s[s.len() - 1]));
    }
}

/// The digits written for `n` are digits, at least one, and denote `n`.
pub proof fn lemma_decimal_digits_value(n: nat)
    ensures
        decimal_digits(n).len() > 0,
        all_digits(decimal_digits(n)),
        digits_value(decimal_digits(n)) == n,
    decreases n,
{
    if n < 10 {
        let s = decimal_digits(n);
        assert(s.drop_last() =~= Seq::<char>::empty());
        assert(digits_value(s.drop_last()) == 0);
    } else {
        let init = decimal_digits(n / 10);
        let s = init.push(digit_char((n % 10) as int));
        lemma_decimal_digits_value(n / 10);
        assert(s.drop_last() =~= init);
        assert forall|i: int| 0 <= i < s.len() implies is_digit(#[trigger] s[i]) by {
            if i < init.len() {
                assert(s[i] == init[i]);
            }
        }
    }
}

/// Reading back the canonical text of an integer gives that integer.
pub proof fn lemma_integer_value_of_decimal(n: int)
    ensures
        integer_value(decimal(n)) == Some(n),
{
    if n < 0 {
        let digits = decimal_digits((-n) as nat);
        lemma_decimal_digits_value((-n) as nat);
        let s = seq!['-'] + digits;
        assert(s[0] == '-');
        assert(s.drop_first() =~= digits);
    } else {
        let s = decimal_digits(n as nat);
        lemma_decimal_digits_value(n as nat);
        assert(is_digit(s[0]));
    }
}

/// Reading back the canonical text of a signed 64-bit integer gives that
/// integer.
pub proof fn lemma_parse_of_decimal(n: i64)
    ensures
        parse_i64_spec(decimal(n as int)) == Some(n),
{
    lemma_integer_value_of_decimal(n as int);
}

/// The canonical text of an integer holds digits and at most a leading
/// minus sign: its last character is a digit.
pub proof fn lemma_decimal_shape(n: int)
    ensures
        decimal(n).len() > 0,
        is_digit(decimal(n).last()),
        forall|i: int| 0 <= i < decimal(n).len() ==> is_digit(#[trigger] decimal(n)[i]) || (i == 0 && decimal(n)[i] == '-'),
{
    if n < 0 {
        lemma_decimal_digits_value((-n) as nat);
        let digits = decimal_digits((-n) as nat);
        let s = seq!['-'] + digits;
        assert(s.last() == digits.last());
        assert forall|i: int| 0 <= i < s.len() implies is_digit(#[trigger] s[i]) || (i == 0 && s[i] == '-') by {
            if i > 0 {
                assert(s[i] == digits[i - 1]);
            }
        }
    } else {
        lemma_decimal_digits_value(n as nat);
    }
}

/// The canonical text of an integer holds no whitespace, so trimming leaves
/// it as it is.
pub proof fn lemma_decimal_is_trimmed(n: int)
    ensures
        !has_whitespace(decimal(n)),
        trimmed(decimal(n)) == decimal(n),
{
    lemma_decimal_shape(n);
    let s = decimal(n);
    assert forall|i: int| 0 <= i < s.len() implies !is_whitespace(#[trigger] s[i]) by {
        assert(is_digit(s[i]) || s[i] == '-');
    }
    lemma_trimmed_without_whitespace(s);
}

/// The text of one decimal digit.
fn digit_text(d: u64) -> (text: &'static str)
    requires
        d < 10,
    ensures
        text@ == seq![digit_char(d as int)],
{
    proof {
        reveal_strlit("0");
        reveal_strlit("1");
        reveal_strlit("2");
        reveal_strlit("3");
        reveal_strlit("4");
        reveal_strlit("5");
        reveal_strlit("6");
        reveal_strlit("7");
        reveal_strlit("8");
        reveal_strlit("9");
    }
    let text = if d == 0 {
        "0"
    } else if d == 1 {
        "1"
    } else if d == 2 {
        "2"
    } else if d == 3 {
        "3"
    } else if d == 4 {
        "4"
    } else if d == 5 {
        "5"
    } else if d == 6 {
        "6"
    } else if d == 7 {
        "7"
    } else if d == 8 {
        "8"
    } else {
        "9"
    };
    assert(text@ =~= seq![digit_char(d as int)]);
    text
}

/// Appends the decimal digits of `n` to `out`.
fn push_decimal_digits(out: &mut String, n: u64)
    ensures
        final(out)@ == old(out)@ + decimal_digits(n as nat),
    decreases n,
{
    if n >= 10 {
        push_decimal_digits(out, n / 10);
    }
    out.append(digit_text(n % 10));
    proof {
        if n >= 10 {
            assert(final(out)@ =~= old(out)@ + decimal_digits(n as nat));
        } else {
            assert(final(out)@ =~= old(out)@ + decimal_digits(n as nat));
        }
    }
}

/// The canonical decimal text of `n`.
pub fn format_i64(n: i64) -> (text: String)
    ensures
        text@ == decimal(n as int),
{
    let mut text = String::new();
    if n < 0 {
        let magnitude: u64 = (-(n + 1)) as u64 + 1;
        proof {
            reveal_strlit("-");
        }
        text.append("-");
        push_decimal_digits(&mut text, magnitude);
        assert(text@ =~= decimal(n as int));
    } else {
        push_decimal_digits(&mut text, n as u64);
        assert(text@ =~= decimal(n as int));
    }
    text
}

/// Reads a signed 64-bit integer: an optional sign, then decimal digits and
/// nothing else. `None` where `s` is no such text or denotes an integer
/// outside the 64-bit range.
pub fn parse_i64(s: &str) -> (parsed: Option<i64>)
    ensures
        parsed == parse_i64_spec(s@),
{
    let mut first = true;
    let mut signed = false;
    let mut negative = false;
    let mut seen_digit = false;
    let mut magnitude: u64 = 0;
    for c in it: s.chars()
        invariant
            it.seq() == s@,
            first == (it.index() == 0),
            signed == (it.index() > 0 && has_sign(s@)),
            negative == (signed && s@[0] == '-'),
            seen_digit == (it.index() > (if signed { 1int } else { 0int })),
            all_digits(s@.subrange(if signed { 1int } else { 0int }, it.index())),
            magnitude == digits_value(s@.subrange(if signed { 1int } else { 0int }, it.index())),
            magnitude <= 0x8000_0000_0000_0000,
            first ==> !signed,
            it.index() >= (if signed { 1int } else { 0int }),
    {
        let ghost i = it.index();
        let ghost lo = if signed { 1int } else { 0int };
        let ghost digits = if has_sign(s@) { s@.drop_first() } else { s@ };
        assert(c == s@[i]);
        if first && (c == '-' || c == '+') {
            signed = true;
            negative = c == '-';
            assert(s@.subrange(1, 1) =~= Seq::<char>::empty());
        } else {
            let u: u32 = c as u32;
            if u < 0x30 || u > 0x39 {
                proof {
                    assert(digits[i - lo] == s@[i]);
                }
                return None;
            }
            let d: u64 = (u - 0x30) as u64;
            let next: u128 = magnitude as u128 * 10 + d as u128;
            proof {
                let run = s@.subrange(lo, i + 1);
                assert(run.drop_last() =~= s@.subrange(lo, i));
                assert(run.last() == c);
                assert(digits_value(run) == next);
                assert forall|j: int| 0 <= j < run.len() implies is_digit(#[trigger] run[j]) by {
                    if j < run.len() - 1 {
                        assert(run[j] == s@.subrange(lo, i)[j]);
                    }
                }
            }
            if next > 0x8000_0000_0000_0000 {
                proof {
                    if all_digits(digits) {
                        lemma_digits_value_prefix(digits, i + 1 - lo);
                        assert(digits.subrange(0, i + 1 - lo) =~= s@.subrange(lo, i + 1));
                    }
                }
                return None;
            }
            magnitude = next as u64;
            seen_digit = true;
        }
        first = false;
    }
    proof {
        let lo = if signed { 1int } else { 0int };
        let digits = if has_sign(s@) { s@.drop_first() } else { s@ };
        assert(s@.subrange(lo, s@.len() as int) =~= digits);
    }
    if !seen_digit {
        None
    } else if negative {
        if magnitude == 0x8000_0000_0000_0000 {
            Some(i64::MIN)
        } else {
            Some(-(magnitude as i64))
        }
    } else if magnitude > 0x7FFF_FFFF_FFFF_FFFF {
        None
    } else {
        Some(magnitude as i64)
    }
}

} // verus!
