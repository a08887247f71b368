//! Decimal digits: the mathematical reading of digit strings and the
//! executable conversions between integers and their renderings.

use vstd::prelude::*;
use vstd::string::*;

verus! {

/// The character that stands for the digit `d`, for `0 <= d <= 9`.
pub open spec fn digit_char(d: int) -> char {
    ((48 + d) as u8) as char
}

/// Whether `c` is one of `'0'..='9'`.
pub open spec fn is_digit(c: char) -> bool {
    48 <= c as u32 <= 57
}

/// The number that the digit `c` stands for.
pub open spec fn digit_value(c: char) -> nat {
    (c as u32 - 48) as nat
}

/// Whether every character of `s` is a decimal digit.
pub open spec fn all_digits(s: Seq<char>) -> bool {
    forall|i: int| 0 <= i < s.len() ==> is_digit(#[trigger] s[i])
}

/// The number that a string of digits denotes in base ten, most significant
/// digit first. The empty string denotes zero.
pub open spec fn digits_value(s: Seq<char>) -> nat
    decreases s.len(),
{
    if s.len() == 0 {
        0
    } else {
        digits_value(s.drop_last()) * 10 + digit_value(s.last())
    }
}

/// The shortest decimal rendering of `n`.
pub open spec fn decimal(n: nat) -> Seq<char>
    decreases n,
{
    if n < 10 {
        seq![digit_char(n as int)]
    } else {
        decimal(n / 10).push(digit_char((n % 10) as int))
    }
}

/// The `width` low-order decimal digits of `n`, most significant first. For
/// `n < 10^width` this is `n` padded with zeros on the left to `width` digits.
pub open spec fn fixed_width(n: nat, width: nat) -> Seq<char>
    decreases width,
{
    if width == 0 {
        Seq::empty()
    } else {
        fixed_width(n / 10, (width - 1) as nat).push(digit_char((n % 10) as int))
    }
}

/// Ten to the power `e`.
pub open spec fn pow10(e: nat) -> nat
    decreases e,
{
    if e == 0 {
        1
    } else {
        10 * pow10((e - 1) as nat)
    }
}

/// The digits of an unsigned decimal text: the text itself, without a
/// leading `+` where it has one.
pub open spec fn unsigned_digits(s: Seq<char>) -> Seq<char> {
    if s.len() > 0 && s[0] == '+' {
        s.skip(1)
    } else {
        s
    }
}

/// Whether `s` is the text of a `u64`: an optional `+`, then one or more
/// decimal digits whose value fits in 64 bits. Leading zeros are allowed.
pub open spec fn is_u64_text(s: Seq<char>) -> bool {
    let d = unsigned_digits(s);
    d.len() > 0 && all_digits(d) && digits_value(d) <= u64::MAX
}

/// The number that the text `s` denotes, where `is_u64_text(s)`.
pub open spec fn u64_text_value(s: Seq<char>) -> nat {
    digits_value(unsigned_digits(s))
}

/// What parsing `s` as a `u64` gives.
pub open spec fn parsed_u64(s: Seq<char>) -> Option<u64> {
    if is_u64_text(s) {
        Some(u64_text_value(s) as u64)
    } else {
        None
    }
}

/// The character of a digit is a digit, stands for that digit, and is
/// neither a dot nor a sign.
pub proof fn lemma_digit_char(d: int)
    requires
        0 <= d <= 9,
    ensures
        is_digit(digit_char(d)),
        digit_value(digit_char(d)) == d,
        digit_char(d) != '.',
        digit_char(d) != '+',
        digit_char(d) as u32 == 48 + d,
{
}

/// A prefix of a digit string denotes no more than the whole string.
pub proof fn lemma_digits_value_prefix(s: Seq<char>, k: int)
    requires
        0 <= k <= s.len(),
    ensures
        digits_value(s.take(k)) <= digits_value(s),
    decreases s.len(),
{
    if k == s.len() {
        assert(s.take(k) == s);
    } else {
        lemma_digits_value_prefix(s.drop_last(), k);
        assert(s.drop_last().take(k) == s.take(k));
    }
}

/// The shortest rendering of `n` is a non-empty string of digits that
/// denotes `n`.
pub proof fn lemma_decimal(n: nat)
    ensures
        decimal(n).len() >= 1,
        all_digits(decimal(n)),
        digits_value(decimal(n)) == n,
    decreases n,
{
    let s = decimal(n);
    if n < 10 {
        lemma_digit_char(n as int);
        assert(digits_value(s.drop_last()) == 0);
    } else {
        lemma_decimal(n / 10);
        lemma_digit_char((n % 10) as int);
        assert(s.drop_last() == decimal(n / 10));
    }
}

/// The fixed-width rendering has exactly `width` digits, and denotes `n`
/// where `n` has at most `width` digits.
pub proof fn lemma_fixed_width(n: nat, width: nat)
    ensures
        fixed_width(n, width).len() == width,
        all_digits(fixed_width(n, width)),
        n < pow10(width) ==> digits_value(fixed_width(n, width)) == n,
    decreases width,
{
    let s = fixed_width(n, width);
    if width > 0 {
        lemma_fixed_width(n / 10, (width - 1) as nat);
        lemma_digit_char((n % 10) as int);
        assert(s.drop_last() == fixed_width(n / 10, (width - 1) as nat));
    }
}

/// The one-character string of the digit `d`.
fn digit_str(d: u8) -> (s: &'static str)
    requires
        d <= 9,
    ensures
        s@ == seq![digit_char(d as int)],
{
    proof {
        reveal_strlit("0");
        reveal_strlit("1");
        reveal_strlit("2");
        reveal_strlit("3");
        reveal_strlit("4");
        reveal_strlit("5");
        reveal_strlit("6");
        reveal_strlit("7");
        reveal_strlit("8");
        reveal_strlit("9");
    }
    match d {
        0 => "0",
        1 => "1",
        2 => "2",
        3 => "3",
        4 => "4",
        5 => "5",
        6 => "6",
        7 => "7",
        8 => "8",
        _ => "9",
    }
}

/// Appends the shortest decimal rendering of `n` to `out`.
pub fn push_decimal(out: &mut String, n: u64)
    ensures
        final(out)@ == old(out)@ + decimal(n as nat),
    decreases n,
{
    if n >= 10 {
        push_decimal(out, n / 10);
    }
    out.append(digit_str((n % 10) as u8));
}

/// Appends the `width` low-order decimal digits of `n` to `out`.
pub fn push_fixed_width(out: &mut String, n: u64, width: u8)
    ensures
        final(out)@ == old(out)@ + fixed_width(n as nat, width as nat),
    decreases width,
{
    if width > 0 {
        push_fixed_width(out, n / 10, width - 1);
        out.append(digit_str((n % 10) as u8));
    }
}

/// Collects the characters of a string slice in one pass.
pub fn chars_of(s: &str) -> (v: Vec<char>)
    ensures
        v@ == s@,
{
    let mut v: Vec<char> = Vec::new();
    for c in it: s.chars()
        invariant
            v@ == it.seq().take(it.index()),
    {
        v.push(c);
    }
    v
}

/// Parses the text of a `u64`: an optional `+`, then decimal digits.
pub fn parse_u64(text: &str) -> (r: Option<u64>)
    ensures
        r == parsed_u64(text@),
{
    let chars = chars_of(text);
    let n: usize = chars.len();
    let start: usize = if n > 0 && chars[0] == '+' {
        1
    } else {
        0
    };
    if start == n {
        return None;
    }
    let ghost digits = unsigned_digits(text@);
    let mut value: u64 = 0;
    let mut i: usize = start;
    while i < n
        invariant
            start <= i <= n,
            n == chars@.len(),
            digits == unsigned_digits(text@),
            digits == chars@.skip(start as int),
            all_digits(digits.take(i - start)),
            value == digits_value(digits.take(i - start)),
        decreases n - i,
    {
        let c: char = chars[i];
        let ghost next = digits.take(i - start + 1);
        assert(next.drop_last() == digits.take(i - start));
        let code: u32 = c as u32;
        if code < 48 || code > 57 {
            assert(!is_digit(digits[i - start]));
            return None;
        }
        let d: u64 = (code - 48) as u64;
        if value > (u64::MAX - d) / 10 {
            proof {
                if all_digits(digits) {
                    lemma_digits_value_prefix(digits, i - start + 1);
                }
            }
            return None;
        }
        value = value * 10 + d;
        assert(all_digits(next));
        i += 1;
    }
    assert(digits.take(n - start) == digits);
    Some(value)
}

} // verus!
