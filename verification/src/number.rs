//! Integers as decimal text, both ways.

use crate::text::chars_of;
use vstd::prelude::*;
use vstd::string::StringExecFns;

verus! {

/// `c` is one of the ten decimal digits.
pub open spec fn is_digit(c: char) -> bool {
    '0' <= c <= '9'
}

/// The number that a decimal digit stands for.
pub open spec fn digit_value(c: char) -> int {
    c as int - '0' as int
}

/// The number that a run of decimal digits stands for.
pub open spec fn digits_value(s: Seq<char>) -> nat
    decreases s.len(),
{
    if s.len() == 0 {
        0
    } else {
        (digits_value(s.drop_last()) * 10 + digit_value(s.last())) as nat
    }
}

/// Every character of `s` is a decimal digit.
pub open spec fn all_digits(s: Seq<char>) -> bool {
    forall|i: int| 0 <= i < s.len() ==> is_digit(#[trigger] s[i])
}

/// The integer that `s` denotes: an optional sign, `+` or `-`, and then at
/// least one decimal digit and nothing else. Any other text denotes none.
pub open spec fn parse_int(s: Seq<char>) -> Option<int> {
    let signed = s.len() > 0 && (s[0] == '-' || s[0] == '+');
    let body = if signed {
        s.skip(1)
    } else {
        s
    };
    if body.len() == 0 || !all_digits(body) {
        None
    } else if signed && s[0] == '-' {
        Some(-(digits_value(body) as int))
    } else {
        Some(digits_value(body) as int)
    }
}

/// The 64-bit integer that `s` denotes, if it denotes an integer and that
/// integer fits.
pub open spec fn parse_i64(s: Seq<char>) -> Option<i64> {
    match parse_int(s) {
        Some(v) => if i64::MIN <= v <= i64::MAX {
            Some(v as i64)
        } else {
            None
        },
        None => None,
    }
}

/// The decimal digit for `d`, which is below ten.
pub open spec fn digit(d: nat) -> char {
    ((0x30 + d) as u8) as char
}

/// `n` in decimal digits, without leading zeros.
pub open spec fn digits(n: nat) -> Seq<char>
    decreases n,
{
    if n < 10 {
        seq![digit(n)]
    } else {
        digits(n / 10).push(digit(n % 10))
    }
}

/// `v` in decimal, with a minus sign where it is negative.
pub open spec fn decimal(v: int) -> Seq<char> {
    if v < 0 {
        seq!['-'] + digits((-v) as nat)
    } else {
        digits(v as nat)
    }
}

/// `s`, filled up on the left with zeros to a width of two.
pub open spec fn two_wide(s: Seq<char>) -> Seq<char> {
    if s.len() == 0 {
        seq!['0', '0']
    } else if s.len() == 1 {
        seq!['0'] + s
    } else {
        s
    }
}

/// The 64-bit integer that the text denotes, if there is one.
pub fn to_i64(text: &str) -> (r: Option<i64>)
    ensures
        r == parse_i64(text@),
{
    let buffer = chars_of(text);
    let n = buffer.len();
    if n == 0 {
        return None;
    }
    let negative = buffer[0] == '-';
    let start: usize = if negative || buffer[0] == '+' {
        1
    } else {
        0
    };
    let ghost body = text@.skip(start as int);
    if start == n {
        return None;
    }
    // The magnitude, as far as it has been read; it stays within 2^63.
    let limit: u128 = 0x8000_0000_0000_0000;
    let mut acc: u128 = 0;
    let mut over = false;
    for i in start..n
        invariant
            buffer@ == text@,
            0 < n == text@.len(),
            start <= n,
            negative == (text@[0] == '-'),
            start == if text@[0] == '-' || text@[0] == '+' {
                1int
            } else {
                0int
            },
            body == text@.skip(start as int),
            limit == 0x8000_0000_0000_0000u128,
            forall|j: int| 0 <= j < i - start ==> is_digit(#[trigger] body[j]),
            over ==> digits_value(body.take(i - start)) > limit,
            !over ==> acc == digits_value(body.take(i - start)) && acc <= limit,
    {
        let c = buffer[i];
        if !('0' <= c && c <= '9') {
            assert(!is_digit(body[i - start]));
            return None;
        }
        proof {
            assert(body.take(i - start + 1).drop_last() == body.take(i - start));
            assert(body.take(i - start + 1).last() == body[i - start]);
        }
        if !over {
            let d: u128 = (c as u32 - '0' as u32) as u128;
            acc = acc * 10 + d;
            if acc > limit {
                over = true;
            }
        }
    }
    proof {
        assert(body.take(n - start) == body);
        assert(all_digits(body));
        assert(text@.skip(0) == text@);
    }
    if over {
        return None;
    }
    if negative {
        if acc == limit {
            Some(i64::MIN)
        } else {
            Some(-(acc as i64))
        }
    } else if acc == limit {
        None
    } else {
        Some(acc as i64)
    }
}

/// The text of one decimal digit.
fn digit_text(d: u8) -> (t: &'static str)
    requires
        d < 10,
    ensures
        t@ == seq![digit(d as nat)],
{
    proof {
        reveal_strlit("0");
        reveal_strlit("1");
        reveal_strlit("2");
        reveal_strlit("3");
        reveal_strlit("4");
        reveal_strlit("5");
        reveal_strlit("6");
        reveal_strlit("7");
        reveal_strlit("8");
        reveal_strlit("9");
    }
    let t = match d {
        0 => "0",
        1 => "1",
        2 => "2",
        3 => "3",
        4 => "4",
        5 => "5",
        6 => "6",
        7 => "7",
        8 => "8",
        _ => "9",
    };
    assert(t@ =~= seq![digit(d as nat)]);
    t
}

/// Appends `n` in decimal digits.
pub fn push_digits(text: &mut String, n: u64)
    ensures
        final(text)@ == old(text)@ + digits(n as nat),
    decreases n,
{
    if n >= 10 {
        push_digits(text, n / 10);
    }
    text.append(digit_text((n % 10) as u8));
}

/// Appends `v` in decimal.
pub fn push_decimal(text: &mut String, v: i64)
    ensures
        final(text)@ == old(text)@ + decimal(v as int),
{
    if v < 0 {
        proof {
            reveal_strlit("-");
        }
        text.append("-");
        let magnitude: u64 = (-(v as i128)) as u64;
        push_digits(text, magnitude);
        assert(final(text)@ =~= old(text)@ + decimal(v as int));
    } else {
        push_digits(text, v as u64);
    }
}

/// Appends `v` in decimal, filled up on the left with zeros to a width of
/// two.
pub fn push_two_wide(text: &mut String, v: i64)
    ensures
        final(text)@ == old(text)@ + two_wide(decimal(v as int)),
{
    if 0 <= v && v < 10 {
        proof {
            reveal_strlit("0");
        }
        text.append("0");
        push_digits(text, v as u64);
        assert(final(text)@ =~= old(text)@ + two_wide(decimal(v as int)));
    } else {
        push_decimal(text, v);
        proof {
            lemma_decimal_len(v as int);
        }
    }
}

/// A number of two or more digits, or a negative one, is at least two
/// characters wide.
pub proof fn lemma_decimal_len(v: int)
    ensures
        decimal(v).len() >= 1,
        (v < 0 || v >= 10) ==> decimal(v).len() >= 2,
{
    if v < 0 {
        lemma_digits_len((-v) as nat);
    } else {
        lemma_digits_len(v as nat);
    }
}

/// Every number has a digit, and one from ten on has two.
pub proof fn lemma_digits_len(n: nat)
    ensures
        digits(n).len() >= 1,
        n >= 10 ==> digits(n).len() >= 2,
    decreases n,
{
    if n >= 10 {
        lemma_digits_len(n / 10);
    }
}

/// `v` in decimal.
pub fn to_decimal(v: i64) -> (text: String)
    ensures
        text@ == decimal(v as int),
{
    let mut text = String::new();
    push_decimal(&mut text, v);
    text
}

} // verus!
