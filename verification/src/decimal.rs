//! Whole numbers written in decimal: what a text means as a number, and how
//! a number is written.

use vstd::prelude::*;
use vstd::string::StringExecFns;

verus! {

/// The largest magnitude that a 32-bit signed number can have (that of the
/// smallest negative one).
const MAGNITUDE_LIMIT: i64 = 2147483648;

/// `c` is one of the ten ASCII digits.
pub open spec fn is_digit(c: char) -> bool {
    '0' <= c && c <= '9'
}

/// The number that the digit `c` stands for.
pub open spec fn digit_value(c: char) -> nat
    recommends
        is_digit(c),
{
    (c as int - '0' as int) as nat
}

/// Every character of `s` is a digit.
pub open spec fn all_digits(s: Seq<char>) -> bool {
    forall|i: int| 0 <= i < s.len() ==> is_digit(#[trigger] s[i])
}

/// The number that a run of digits stands for, the most significant first.
/// The empty run stands for zero.
pub open spec fn digits_value(s: Seq<char>) -> nat
    decreases s.len(),
{
    if s.len() == 0 {
        0
    } else {
        digits_value(s.drop_last()) * 10 + digit_value(s.last())
    }
}

/// How many characters the sign at the front of `text` takes: one if the
/// text begins with `-` or `+`, else none.
pub open spec fn sign_length(text: Seq<char>) -> int {
    if text.len() > 0 && (text[0] == '-' || text[0] == '+') {
        1
    } else {
        0
    }
}

/// The integer that `text` denotes, if it is written as a whole number: an
/// optional `-` or `+`, then one or more digits and nothing else. Leading
/// zeros are allowed; blanks, separators and an empty run of digits are not.
pub open spec fn decimal_value(text: Seq<char>) -> Option<int> {
    let digits = text.skip(sign_length(text));
    if digits.len() == 0 || !all_digits(digits) {
        None
    } else if text[0] == '-' {
        Some(-(digits_value(digits) as int))
    } else {
        Some(digits_value(digits) as int)
    }
}

/// The 32-bit number that `text` denotes: its decimal value where that lies
/// between `i32::MIN` and `i32::MAX`, and nothing otherwise.
pub open spec fn parse_spec(text: Seq<char>) -> Option<i32> {
    match decimal_value(text) {
        Some(v) => if i32::MIN <= v <= i32::MAX {
            Some(v as i32)
        } else {
            None
        },
        None => None,
    }
}

/// Appending a digit to a run multiplies its value by ten and adds the digit.
pub proof fn lemma_digits_value_push(s: Seq<char>, c: char)
    ensures
        digits_value(s.push(c)) == digits_value(s) * 10 + digit_value(c),
{
    assert(s.push(c).drop_last() =~= s);
}

/// Reads `text` as a 32-bit signed number in decimal.
///
/// Returns the number exactly when the whole text is an optional sign
/// followed by at least one digit and the value fits in 32 bits.
pub fn parse_integer(text: &str) -> (value: Option<i32>)
    ensures
        value == parse_spec(text@),
{
    let ghost digits = text@.skip(sign_length(text@));
    // Where the digits read so far begin: behind the sign, once it is read.
    let ghost mut start: int = 0;
    let mut first = true;
    let mut negative = false;
    let mut seen_digit = false;
    // Set once the digits read so far exceed every 32-bit magnitude; until
    // then `magnitude` is their value.
    let mut too_large = false;
    let mut magnitude: i64 = 0;
    for c in it: text.chars()
        invariant
            it.seq() == text@,
            digits == text@.skip(sign_length(text@)),
            first <==> it.index() == 0,
            start == if it.index() == 0 { 0 } else { sign_length(text@) },
            start <= it.index(),
            negative <==> it.index() > 0 && text@[0] == '-',
            seen_digit <==> it.index() > start,
            forall|j: int| start <= j < it.index() ==> is_digit(#[trigger] text@[j]),
            0 <= magnitude <= MAGNITUDE_LIMIT,
            !too_large ==> magnitude == digits_value(text@.subrange(start, it.index() as int)),
            too_large ==> digits_value(text@.subrange(start, it.index() as int)) > MAGNITUDE_LIMIT,
    {
        let ghost i = it.index() as int;
        if first && (c == '-' || c == '+') {
            negative = c == '-';
            proof {
                start = 1;
            }
        } else if '0' <= c && c <= '9' {
            let digit: i64 = (c as u32 - '0' as u32) as i64;
            proof {
                lemma_digits_value_push(text@.subrange(start, i), c);
                assert(text@.subrange(start, i).push(c) =~= text@.subrange(start, i + 1));
            }
            if !too_large {
                let next: i64 = magnitude * 10 + digit;
                if next > MAGNITUDE_LIMIT {
                    too_large = true;
                } else {
                    magnitude = next;
                }
            }
            seen_digit = true;
        } else {
            // `c` belongs to the digits of the text and is none.
            assert(digits[i - sign_length(text@)] == c);
            assert(!all_digits(digits));
            return None;
        }
        first = false;
    }
    assert(text@.len() > 0 ==> digits =~= text@.subrange(start, text@.len() as int));
    if !seen_digit || too_large {
        None
    } else if negative {
        Some((0 - magnitude) as i32)
    } else if magnitude < MAGNITUDE_LIMIT {
        Some(magnitude as i32)
    } else {
        None
    }
}

/// The character that writes the digit `d`.
pub open spec fn digit_char(d: nat) -> char
    recommends
        d < 10,
{
    ('0' as int + d) as char
}

/// The digits that write the natural number `n`, the most significant first,
/// without leading zeros; zero is written as a single `0`.
pub open spec fn digits_of(n: nat) -> Seq<char>
    decreases n,
{
    if n < 10 {
        seq![digit_char(n)]
    } else {
        digits_of(n / 10).push(digit_char(n % 10))
    }
}

/// The decimal writing of the integer `n`: a `-` before a negative number,
/// no sign otherwise, then the digits of its magnitude.
pub open spec fn decimal_text(n: int) -> Seq<char> {
    if n < 0 {
        seq!['-'] + digits_of((-n) as nat)
    } else {
        digits_of(n as nat)
    }
}

/// The digits of a number are digits, there is at least one of them, and
/// read back they give the number.
pub proof fn lemma_digits_of(n: nat)
    ensures
        digits_of(n).len() >= 1,
        all_digits(digits_of(n)),
        digits_value(digits_of(n)) == n,
    decreases n,
{
    if n < 10 {
        let s = seq![digit_char(n)];
        assert(digits_value(s.drop_last()) == 0);
    } else {
        lemma_digits_of(n / 10);
        lemma_digits_value_push(digits_of(n / 10), digit_char(n % 10));
    }
}

/// Writing an integer and reading the text back gives the integer.
pub proof fn lemma_decimal_round_trip(n: int)
    ensures
        decimal_value(decimal_text(n)) == Some(n),
{
    if n < 0 {
        let m = (-n) as nat;
        lemma_digits_of(m);
        let text = decimal_text(n);
        assert(text.skip(1) =~= digits_of(m));
    } else {
        let m = n as nat;
        lemma_digits_of(m);
        let text = decimal_text(n);
        assert(text.skip(0) =~= text);
    }
}

/// Every 32-bit number is read back from its decimal writing.
pub proof fn lemma_parse_of_decimal_text(n: i32)
    ensures
        parse_spec(decimal_text(n as int)) == Some(n),
{
    lemma_decimal_round_trip(n as int);
}

/// The one-character text of the digit `d`.
fn digit_text(d: u8) -> (text: &'static str)
    requires
        d < 10,
    ensures
        text@ == seq![digit_char(d as nat)],
{
    proof {
        reveal_strlit("0");
        reveal_strlit("1");
        reveal_strlit("2");
        reveal_strlit("3");
        reveal_strlit("4");
        reveal_strlit("5");
        reveal_strlit("6");
        reveal_strlit("7");
        reveal_strlit("8");
        reveal_strlit("9");
    }
    match d {
        0 => "0",
        1 => "1",
        2 => "2",
        3 => "3",
        4 => "4",
        5 => "5",
        6 => "6",
        7 => "7",
        8 => "8",
        _ => "9",
    }
}

/// Appends the digits of `magnitude` to `out`.
fn push_digits(out: &mut String, magnitude: u32)
    ensures
        final(out)@ == old(out)@ + digits_of(magnitude as nat),
    decreases magnitude,
{
    if magnitude >= 10 {
        push_digits(out, magnitude / 10);
        out.append(digit_text((magnitude % 10) as u8));
    } else {
        out.append(digit_text(magnitude as u8));
    }
}

/// Writes `n` in decimal.
pub fn render_integer(n: i32) -> (text: String)
    ensures
        text@ == decimal_text(n as int),
{
    let mut text = String::new();
    if n < 0 {
        text.append("-");
        proof {
            reveal_strlit("-");
        }
        let magnitude: u32 = (0 - n as i64) as u32;
        push_digits(&mut text, magnitude);
    } else {
        push_digits(&mut text, n as u32);
    }
    text
}

} // verus!
