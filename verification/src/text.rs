//! Text primitives shared by the synthesizer and the error messages: the
//! decimal notation of integers, rendered and parsed.

use vstd::prelude::*;
use vstd::string::*;

verus! {

/// `String::push` appends one character to the end of the string.
pub assume_specification[ String::push ](text: &mut String, c: char)
    ensures
        final(text)@ == old(text)@.push(c),
;

/// The character that stands for the decimal digit `d`.
pub open spec fn digit_char(d: int) -> char {
    ('0' as int + d) as char
}

/// Decimal notation of a natural number, most significant digit first,
/// without leading zeros.
pub open spec fn decimal_nat(n: nat) -> Seq<char>
    decreases n,
{
    if n < 10 {
        seq![digit_char(n as int)]
    } else {
        decimal_nat(n / 10).push(digit_char((n % 10) as int))
    }
}

/// Decimal notation of an integer: a minus sign for negative numbers, then
/// the digits of the magnitude.
pub open spec fn decimal(n: int) -> Seq<char> {
    if n < 0 {
        seq!['-'] + decimal_nat((-n) as nat)
    } else {
        decimal_nat(n as nat)
    }
}

fn digit_of(d: u64) -> (c: char)
    requires
        d < 10,
    ensures
        c == digit_char(d as int),
{
    ('0' as u8 + d as u8) as char
}

fn push_decimal(n: u64, out: &mut String)
    ensures
        final(out)@ == old(out)@ + decimal_nat(n as nat),
    decreases n,
{
    if n >= 10 {
        push_decimal(n / 10, out);
    }
    out.push(digit_of(n % 10));
    assert(final(out)@ =~= old(out)@ + decimal_nat(n as nat));
}

/// Renders `n` in decimal notation.
pub fn i64_to_string(n: i64) -> (text: String)
    ensures
        text@ == decimal(n as int),
{
    let mut text: String = String::new();
    if n < 0 {
        text.push('-');
        let magnitude: u64 = ((-(n + 1)) as u64) + 1;
        push_decimal(magnitude, &mut text);
        assert(text@ =~= decimal(n as int));
    } else {
        push_decimal(n as u64, &mut text);
        assert(text@ =~= decimal(n as int));
    }
    text
}

/// Renders `n` in decimal notation.
pub fn u64_to_string(n: u64) -> (text: String)
    ensures
        text@ == decimal(n as int),
{
    let mut text: String = String::new();
    push_decimal(n, &mut text);
    assert(text@ =~= decimal(n as int));
    text
}

/// The characters of `s`, in order.
pub fn chars_of(s: &str) -> (chars: Vec<char>)
    ensures
        chars@ == s@,
{
    let mut chars: Vec<char> = Vec::new();
    for c in it: s.chars()
        invariant
            it.seq() == s@,
            chars@ == s@.take(it.index() as int),
    {
        chars.push(c);
        assert(chars@ =~= s@.take(it.index() + 1));
    }
    assert(s@.take(s@.len() as int) =~= s@);
    chars
}

/// Whether `c` is one of the ten ASCII decimal digits.
pub open spec fn is_digit(c: char) -> bool {
    '0' <= c && c <= '9'
}

/// The number a decimal digit stands for; zero for any other character.
pub open spec fn digit_value(c: char) -> nat {
    if is_digit(c) {
        (c as int - '0' as int) as nat
    } else {
        0
    }
}

/// Whether every character of `s` is a decimal digit.
pub open spec fn all_digits(s: Seq<char>) -> bool {
    forall|i: int| 0 <= i < s.len() ==> is_digit(#[trigger] s[i])
}

/// The number that a run of decimal digits denotes, read most significant
/// digit first; the empty run denotes zero.
pub open spec fn digits_value(s: Seq<char>) -> nat
    decreases s.len(),
{
    if s.len() == 0 {
        0
    } else {
        digits_value(s.drop_last()) * 10 + digit_value(s.last())
    }
}

/// What an integer parser makes of `s`: an optional sign, then at least one
/// decimal digit and nothing else.
pub open spec fn parse_int(s: Seq<char>) -> Option<int> {
    if s.len() > 0 && (s[0] == '-' || s[0] == '+') {
        let digits = s.skip(1);
        if digits.len() > 0 && all_digits(digits) {
            if s[0] == '-' {
                Some(-(digits_value(digits) as int))
            } else {
                Some(digits_value(digits) as int)
            }
        } else {
            None
        }
    } else if s.len() > 0 && all_digits(s) {
        Some(digits_value(s) as int)
    } else {
        None
    }
}

/// `parse_int` restricted to the numbers a signed 32-bit integer can hold.
pub open spec fn parse_i32(s: Seq<char>) -> Option<i32> {
    match parse_int(s) {
        Some(v) => if i32::MIN <= v <= i32::MAX {
            Some(v as i32)
        } else {
            None
        },
        None => None,
    }
}

/// A run of digits denotes at least as much as any of its prefixes.
pub proof fn lemma_digits_value_monotonic(s: Seq<char>, n: int)
    requires
        0 <= n <= s.len(),
    ensures
        digits_value(s.take(n)) <= digits_value(s),
    decreases s.len(),
{
    if n == s.len() {
        assert(s.take(n) =~= s);
    } else {
        lemma_digits_value_monotonic(s.drop_last(), n);
        assert(s.drop_last().take(n) =~= s.take(n));
    }
}

/// The digits of a natural number are digits, at least one, and denote
/// that number.
pub proof fn lemma_decimal_nat_denotes(n: nat)
    ensures
        decimal_nat(n).len() > 0,
        all_digits(decimal_nat(n)),
        digits_value(decimal_nat(n)) == n,
    decreases n,
{
    if n < 10 {
        assert(decimal_nat(n).drop_last() =~= Seq::<char>::empty());
        assert(digits_value(decimal_nat(n).drop_last()) == 0);
        assert(digit_value(decimal_nat(n).last()) == n);
    } else {
        lemma_decimal_nat_denotes(n / 10);
        let shorter = decimal_nat(n / 10);
        let last = digit_char((n % 10) as int);
        assert(decimal_nat(n).drop_last() =~= shorter);
        assert(decimal_nat(n).last() == last);
        assert(digit_value(last) == n % 10);
        assert(digits_value(decimal_nat(n)) == digits_value(shorter) * 10 + digit_value(last));
        assert forall|i: int| 0 <= i < decimal_nat(n).len() implies is_digit(
            #[trigger] decimal_nat(n)[i],
        ) by {
            if i < shorter.len() {
                assert(decimal_nat(n)[i] == shorter[i]);
            }
        }
    }
}

/// Reading the decimal notation of an integer gives the integer back.
pub proof fn lemma_decimal_round_trip(n: int)
    ensures
        parse_int(decimal(n)) == Some(n),
{
    if n < 0 {
        lemma_decimal_nat_denotes((-n) as nat);
        assert(decimal(n).skip(1) =~= decimal_nat((-n) as nat));
    } else {
        lemma_decimal_nat_denotes(n as nat);
        assert(is_digit(decimal(n)[0]));
    }
}

/// Different integers have different decimal notations.
pub proof fn lemma_decimal_injective(a: int, b: int)
    requires
        decimal(a) == decimal(b),
    ensures
        a == b,
{
    lemma_decimal_round_trip(a);
    lemma_decimal_round_trip(b);
}

fn is_digit_char(c: char) -> (b: bool)
    ensures
        b == is_digit(c),
{
    c >= '0' && c <= '9'
}

/// Reads the run of digits `chars[from..to]`. Returns its value when every
/// character is a digit and the value is at most 2^31, the largest magnitude
/// of a signed 32-bit integer.
pub(crate) fn read_digits(chars: &Vec<char>, from: usize, to: usize) -> (value: Option<i64>)
    requires
        from <= to <= chars@.len(),
    ensures
        value is Some <==> all_digits(chars@.subrange(from as int, to as int)) && digits_value(
            chars@.subrange(from as int, to as int),
        ) <= 0x8000_0000,
        value is Some ==> value->0 == digits_value(chars@.subrange(from as int, to as int)),
{
    let ghost run = chars@.subrange(from as int, to as int);
    let mut acc: i64 = 0;
    let mut i: usize = from;
    while i < to
        invariant
            from <= i <= to <= chars@.len(),
            run == chars@.subrange(from as int, to as int),
            all_digits(run.take(i - from)),
            acc == digits_value(run.take(i - from)),
            0 <= acc <= 0x8000_0000,
        decreases to - i,
    {
        let c: char = chars[i];
        assert(run[i - from] == c);
        if !is_digit_char(c) {
            return None;
        }
        let d: i64 = (c as u32 - '0' as u32) as i64;
        let ghost prefix = run.take(i - from + 1);
        assert(prefix.drop_last() =~= run.take(i - from));
        assert(prefix.last() == c);
        acc = acc * 10 + d;
        assert(acc == digits_value(prefix));
        if acc > 0x8000_0000 {
            proof {
                lemma_digits_value_monotonic(run, i - from + 1);
            }
            return None;
        }
        i = i + 1;
    }
    assert(run.take(to - from) =~= run);
    Some(acc)
}

/// Parses `chars[from..to]` as a signed 32-bit integer in decimal notation.
pub(crate) fn parse_i32_in(chars: &Vec<char>, from: usize, to: usize) -> (value: Option<i32>)
    requires
        from <= to <= chars@.len(),
    ensures
        value == parse_i32(chars@.subrange(from as int, to as int)),
{
    let ghost s = chars@.subrange(from as int, to as int);
    if from == to {
        return None;
    }
    let first: char = chars[from];
    assert(s[0] == first);
    if first == '-' || first == '+' {
        assert(s.skip(1) =~= chars@.subrange(from + 1, to as int));
        if from + 1 == to {
            return None;
        }
        match read_digits(chars, from + 1, to) {
            Some(magnitude) => {
                if first == '-' {
                    Some((-magnitude) as i32)
                } else if magnitude <= 0x7fff_ffff {
                    Some(magnitude as i32)
                } else {
                    None
                }
            },
            None => None,
        }
    } else {
        match read_digits(chars, from, to) {
            Some(magnitude) => {
                if magnitude <= 0x7fff_ffff {
                    Some(magnitude as i32)
                } else {
                    None
                }
            },
            None => None,
        }
    }
}

/// Parses `s` as a signed 32-bit integer in decimal notation: an optional
/// sign, then digits only; `None` when `s` has another shape or the number
/// does not fit.
pub fn parse_i32_text(s: &str) -> (value: Option<i32>)
    ensures
        value == parse_i32(s@),
{
    let chars: Vec<char> = chars_of(s);
    assert(chars@.subrange(0, chars@.len() as int) =~= chars@);
    parse_i32_in(&chars, 0, chars.len())
}

} // verus!
