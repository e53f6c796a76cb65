//! Integers written in base ten: rendering them and reading them back.

use vstd::prelude::*;
use vstd::string::{StrSliceExecFns, StringExecFns};
use crate::chars::chars_of;

verus! {

/// The character that stands for the digit `d`.
pub open spec fn digit_char(d: int) -> char
    recommends
        0 <= d < 10,
{
    ('0' as int + d) as char
}

/// Whether `c` is one of `0` to `9`.
pub open spec fn is_digit(c: char) -> bool {
    '0' <= c <= '9'
}

/// The number that the digit `c` stands for.
pub open spec fn digit_value(c: char) -> int
    recommends
        is_digit(c),
{
    c as int - '0' as int
}

/// The digits of `n` in base ten, most significant first, without leading
/// zeros; `0` is written with one digit.
pub open spec fn decimal(n: nat) -> Seq<char>
    decreases n,
{
    if n < 10 {
        seq![digit_char(n as int)]
    } else {
        decimal(n / 10).push(digit_char((n % 10) as int))
    }
}

/// `i` in base ten, with a minus sign in front where it is negative.
pub open spec fn signed_decimal(i: int) -> Seq<char> {
    if i < 0 {
        seq!['-'] + decimal((-i) as nat)
    } else {
        decimal(i as nat)
    }
}

/// `s` with spaces put in front until it is `width` characters long; a
/// longer `s` is left as it is.
pub open spec fn right_aligned(s: Seq<char>, width: nat) -> Seq<char> {
    if s.len() >= width {
        s
    } else {
        Seq::new((width - s.len()) as nat, |i: int| ' ') + s
    }
}

/// The number that a sequence of digits stands for, read most significant
/// first; the empty sequence stands for `0`.
pub open spec fn digits_value(s: Seq<char>) -> nat
    decreases s.len(),
{
    if s.len() == 0 {
        0
    } else {
        (digits_value(s.drop_last()) * 10 + digit_value(s.last())) as nat
    }
}

/// Whether every character of `s` is a digit.
pub open spec fn all_digits(s: Seq<char>) -> bool {
    forall|i: int| 0 <= i < s.len() ==> is_digit(#[trigger] s[i])
}

/// The character for the digit `d`.
pub fn digit_of(d: u8) -> (c: char)
    requires
        d < 10,
    ensures
        c == digit_char(d as int),
{
    (48u8 + d) as char
}

/// Appends `n` in base ten to `out`.
pub fn push_decimal(out: &mut String, n: u128)
    ensures
        final(out)@ == old(out)@ + decimal(n as nat),
    decreases n,
{
    if n >= 10 {
        push_decimal(out, n / 10);
    }
    out.push(digit_of((n % 10) as u8));
}

/// The text made of `prefix`, `n` in base ten, and `suffix`.
pub fn labelled(prefix: &str, n: u128, suffix: &str) -> (text: String)
    ensures
        text@ == prefix@ + decimal(n as nat) + suffix@,
{
    let mut text = String::from_str(prefix);
    push_decimal(&mut text, n);
    text.append(suffix);
    text
}

/// Appends `n` in base ten to `out`, with spaces in front of it where it
/// has fewer than `width` digits.
pub fn push_right_aligned(out: &mut String, n: u128, width: usize)
    ensures
        final(out)@ == old(out)@ + right_aligned(decimal(n as nat), width as nat),
{
    let mut digits = String::new();
    push_decimal(&mut digits, n);
    assert(digits@ == decimal(n as nat));
    let length = digits.as_str().unicode_len();
    let mut padded: usize = length;
    while padded < width
        invariant
            length == digits@.len(),
            length <= padded,
            padded <= width || padded == length,
            out@ == old(out)@ + Seq::new((padded - length) as nat, |i: int| ' '),
        decreases width - padded,
    {
        out.push(' ');
        padded += 1;
    }
    out.append(digits.as_str());
}

/// Appends `i` in base ten to `out`, with a minus sign where it is negative.
pub fn push_signed_decimal(out: &mut String, i: i64)
    ensures
        final(out)@ == old(out)@ + signed_decimal(i as int),
{
    if i < 0 {
        out.push('-');
        let magnitude: u128 = (-(i + 1)) as u128 + 1;
        push_decimal(out, magnitude);
    } else {
        push_decimal(out, i as u128);
    }
}

/// The text made of `prefix`, `i` in base ten with its sign, and `suffix`.
pub fn labelled_signed(prefix: &str, i: i64, suffix: &str) -> (text: String)
    ensures
        text@ == prefix@ + signed_decimal(i as int) + suffix@,
{
    let mut text = String::from_str(prefix);
    push_signed_decimal(&mut text, i);
    text.append(suffix);
    text
}

/// What the text `s` stands for as an unsigned 64-bit number: an optional
/// `+`, then at least one digit and nothing else, the value within range.
pub open spec fn parsed_u64(s: Seq<char>) -> Option<u64> {
    let body = if s.len() > 0 && s[0] == '+' {
        s.skip(1)
    } else {
        s
    };
    if body.len() > 0 && all_digits(body) && digits_value(body) <= u64::MAX {
        Some(digits_value(body) as u64)
    } else {
        None
    }
}

/// What the text `s` stands for as a signed 32-bit number: an optional `+`
/// or `-`, then at least one digit and nothing else, the value within range.
pub open spec fn parsed_i32(s: Seq<char>) -> Option<i32> {
    let negative = s.len() > 0 && s[0] == '-';
    let body = if s.len() > 0 && (s[0] == '+' || s[0] == '-') {
        s.skip(1)
    } else {
        s
    };
    let value = if negative {
        -(digits_value(body) as int)
    } else {
        digits_value(body) as int
    };
    if body.len() > 0 && all_digits(body) && i32::MIN <= value <= i32::MAX {
        Some(value as i32)
    } else {
        None
    }
}

/// A number written in base ten is made of digits, at least one, and they
/// stand for the number.
pub proof fn lemma_decimal_digits(n: nat)
    ensures
        decimal(n).len() >= 1,
        all_digits(decimal(n)),
        digits_value(decimal(n)) == n,
    decreases n,
{
    if n < 10 {
        let one = decimal(n);
        assert(one.drop_last() == Seq::<char>::empty());
        assert(digits_value(one) == digits_value(one.drop_last()) * 10 + digit_value(one.last()));
    } else {
        lemma_decimal_digits(n / 10);
        let all = decimal(n);
        assert(all.drop_last() == decimal(n / 10));
        assert(all.last() == digit_char((n % 10) as int));
    }
}

/// Reading back what was written gives the number that was written.
pub proof fn lemma_parse_decimal(n: u64)
    ensures
        parsed_u64(decimal(n as nat)) == Some(n),
{
    lemma_decimal_digits(n as nat);
    assert(is_digit(decimal(n as nat)[0]));
}

/// A prefix of a sequence of digits stands for no more than the whole.
proof fn lemma_digits_value_prefix(s: Seq<char>, k: int)
    requires
        all_digits(s),
        0 <= k <= s.len(),
    ensures
        digits_value(s.take(k)) <= digits_value(s),
    decreases s.len() - k,
{
    if k < s.len() {
        assert(is_digit(s.last()));
        lemma_digits_value_prefix(s.drop_last(), k);
        assert(s.drop_last().take(k) == s.take(k));
    } else {
        assert(s.take(k) == s);
    }
}

/// The number that the digits `v[from..]` stand for, where there is at
/// least one character, all are digits and the number fits.
fn read_digits(v: &Vec<char>, from: usize) -> (r: Option<u64>)
    requires
        from <= v.len(),
    ensures
        r == ({
            let body = v@.skip(from as int);
            if body.len() > 0 && all_digits(body) && digits_value(body) <= u64::MAX {
                Some(digits_value(body) as u64)
            } else {
                None
            }
        }),
{
    let ghost body = v@.skip(from as int);
    if from == v.len() {
        return None;
    }
    let mut acc: u64 = 0;
    let mut i: usize = from;
    while i < v.len()
        invariant
            from <= i <= v.len(),
            body == v@.skip(from as int),
            all_digits(body.take(i - from)),
            acc == digits_value(body.take(i - from)),
        decreases v.len() - i,
    {
        let c = v[i];
        let ghost next = body.take(i - from + 1);
        assert(next.drop_last() == body.take(i - from));
        assert(next.last() == c);
        if !('0' <= c && c <= '9') {
            assert(!is_digit(body[i - from]));
            return None;
        }
        let d: u64 = (c as u32 - '0' as u32) as u64;
        assert(d == digit_value(c));
        let grown = match acc.checked_mul(10) {
            Some(tens) => tens.checked_add(d),
            None => None,
        };
        match grown {
            Some(value) => {
                acc = value;
            },
            None => {
                assert(digits_value(next) > u64::MAX);
                proof {
                    if all_digits(body) {
                        lemma_digits_value_prefix(body, i - from + 1);
                    }
                }
                return None;
            },
        }
        i += 1;
    }
    assert(body.take(i - from) == body);
    Some(acc)
}

/// Reads `s` as an unsigned 64-bit number.
pub fn parse_u64(s: &str) -> (r: Option<u64>)
    ensures
        r == parsed_u64(s@),
{
    let v = chars_of(s);
    if v.len() > 0 && v[0] == '+' {
        read_digits(&v, 1)
    } else {
        let r = read_digits(&v, 0);
        assert(v@.skip(0) == v@);
        r
    }
}

/// Reads `s` as a signed 32-bit number.
pub fn parse_i32(s: &str) -> (r: Option<i32>)
    ensures
        r == parsed_i32(s@),
{
    let v = chars_of(s);
    let negative = v.len() > 0 && v[0] == '-';
    let from: usize = if v.len() > 0 && (v[0] == '+' || v[0] == '-') {
        1
    } else {
        0
    };
    assert(v@.skip(0) == v@);
    match read_digits(&v, from) {
        Some(magnitude) => {
            if negative {
                if magnitude <= 2147483648 {
                    Some((-(magnitude as i64)) as i32)
                } else {
                    None
                }
            } else if magnitude <= 2147483647 {
                Some(magnitude as i32)
            } else {
                None
            }
        },
        None => None,
    }
}

} // verus!
