//! The port notation of a forwarded service: `PORT` or `PORT:TARGET_PORT`,
//! each side a run of at most five decimal digits.

use crate::text::{
    all_digits, chars_of, digits_value, is_digit, parse_i32, parse_i32_in, read_digits,
};
use vstd::prelude::*;
use vstd::string::*;

verus! {

/// The longest run of decimal digits that either side of a port notation may
/// hold.
pub const MAX_PORT_DIGITS: usize = 5;

/// The regular expression that a port notation has to match as a whole.
pub const PORT_PATTERN: &'static str = "\\d{0,5}(:(\\d{0,5}))?";

/// A parsed port notation: the port that is published and listened on, and
/// the port of the target that traffic is forwarded to.
#[derive(Clone, Copy, Debug, PartialEq, Eq)]
pub struct PortMapping {
    pub published: i32,
    pub target: i32,
}

/// Where the first colon of `s` stands; the length of `s` when it holds none.
pub open spec fn colon_position(s: Seq<char>) -> nat
    decreases s.len(),
{
    if s.len() == 0 || s[0] == ':' {
        0
    } else {
        1 + colon_position(s.drop_first())
    }
}

/// The published side of a port notation: what stands before the first
/// colon, or all of it when there is no colon.
pub open spec fn published_text(s: Seq<char>) -> Seq<char> {
    s.take(colon_position(s) as int)
}

/// The target side of a port notation: what follows the first colon, if
/// there is one.
pub open spec fn target_text(s: Seq<char>) -> Option<Seq<char>> {
    if colon_position(s) < s.len() {
        Some(s.skip(colon_position(s) as int + 1))
    } else {
        None
    }
}

/// The published port of a notation, as far as its published side parses as
/// a 32-bit integer.
pub open spec fn published_port(s: Seq<char>) -> Option<i32> {
    parse_i32(published_text(s))
}

/// Whether `s` as a whole matches the port pattern: at most five digits,
/// then optionally a colon and at most five digits.
pub open spec fn matches_port_pattern(s: Seq<char>) -> bool {
    &&& published_text(s).len() <= MAX_PORT_DIGITS
    &&& all_digits(published_text(s))
    &&& target_text(s) matches Some(t) ==> t.len() <= MAX_PORT_DIGITS && all_digits(t)
}

/// The mapping that a port notation denotes. A notation denotes one when it
/// matches the port pattern and each side that is present holds a digit;
/// without a target side the target port is the published port.
pub open spec fn port_mapping(s: Seq<char>) -> Option<PortMapping> {
    if matches_port_pattern(s) && published_text(s).len() > 0 && (target_text(s) matches Some(t)
        ==> t.len() > 0) {
        let published = digits_value(published_text(s)) as i32;
        Some(
            PortMapping {
                published,
                target: match target_text(s) {
                    Some(t) => digits_value(t) as i32,
                    None => published,
                },
            },
        )
    } else {
        None
    }
}

/// A port notation with each colon turned into a dash, as used for the name
/// of a service port.
pub open spec fn dashed(s: Seq<char>) -> Seq<char> {
    s.map_values(|c: char| if c == ':' { '-' } else { c })
}

/// `colon_position` is the first index that holds a colon.
pub proof fn lemma_colon_position(s: Seq<char>, n: int)
    requires
        0 <= n <= s.len(),
        forall|j: int| 0 <= j < n ==> s[j] != ':',
        n == s.len() || s[n] == ':',
    ensures
        colon_position(s) == n,
    decreases n,
{
    if n > 0 {
        let rest = s.drop_first();
        assert forall|j: int| 0 <= j < n - 1 implies rest[j] != ':' by {
            assert(rest[j] == s[j + 1]);
        }
        lemma_colon_position(rest, n - 1);
    }
}

/// A run of at most five digits denotes a number below 100000.
pub proof fn lemma_short_run_is_small(s: Seq<char>)
    requires
        all_digits(s),
    ensures
        s.len() <= 1 ==> digits_value(s) < 10,
        s.len() <= 2 ==> digits_value(s) < 100,
        s.len() <= 3 ==> digits_value(s) < 1000,
        s.len() <= 4 ==> digits_value(s) < 10000,
        s.len() <= 5 ==> digits_value(s) < 100000,
    decreases s.len(),
{
    if s.len() > 0 {
        assert(is_digit(s.last()));
        assert forall|i: int| 0 <= i < s.drop_last().len() implies is_digit(
            #[trigger] s.drop_last()[i],
        ) by {
            assert(s.drop_last()[i] == s[i]);
        }
        lemma_short_run_is_small(s.drop_last());
    }
}

fn find_colon(chars: &Vec<char>) -> (n: usize)
    ensures
        n == colon_position(chars@),
        n <= chars@.len(),
{
    let mut n: usize = 0;
    while n < chars.len() && chars[n] != ':'
        invariant
            n <= chars@.len(),
            forall|j: int| 0 <= j < n ==> chars@[j] != ':',
        decreases chars@.len() - n,
    {
        n = n + 1;
    }
    proof {
        lemma_colon_position(chars@, n as int);
    }
    n
}

/// Whether `chars[from..to]` is a run of at most five digits; if so, the
/// number it denotes.
fn read_side(chars: &Vec<char>, from: usize, to: usize) -> (value: Option<i32>)
    requires
        from <= to <= chars@.len(),
    ensures
        value is Some <==> to - from <= MAX_PORT_DIGITS && all_digits(
            chars@.subrange(from as int, to as int),
        ),
        value is Some ==> value->0 == digits_value(chars@.subrange(from as int, to as int)),
{
    if to - from > MAX_PORT_DIGITS {
        return None;
    }
    match read_digits(chars, from, to) {
        Some(v) => {
            proof {
                lemma_short_run_is_small(chars@.subrange(from as int, to as int));
            }
            Some(v as i32)
        },
        None => {
            proof {
                if all_digits(chars@.subrange(from as int, to as int)) {
                    lemma_short_run_is_small(chars@.subrange(from as int, to as int));
                }
            }
            None
        },
    }
}

/// The published port of `spec`: the integer before its first colon.
/// `None` when that side does not parse as a signed 32-bit integer.
pub fn published_port_of(spec: &str) -> (port: Option<i32>)
    ensures
        port == published_port(spec@),
{
    let chars: Vec<char> = chars_of(spec);
    let colon: usize = find_colon(&chars);
    assert(chars@.subrange(0, colon as int) =~= published_text(spec@));
    parse_i32_in(&chars, 0, colon)
}

/// Whether `spec` as a whole matches the port pattern.
pub fn is_port_spec(spec: &str) -> (ok: bool)
    ensures
        ok == matches_port_pattern(spec@),
{
    let chars: Vec<char> = chars_of(spec);
    let colon: usize = find_colon(&chars);
    assert(chars@.subrange(0, colon as int) =~= published_text(spec@));
    if read_side(&chars, 0, colon).is_none() {
        return false;
    }
    if colon < chars.len() {
        assert(chars@.subrange(colon + 1, chars@.len() as int) =~= target_text(spec@)->0);
        read_side(&chars, colon + 1, chars.len()).is_some()
    } else {
        true
    }
}

/// Parses a port notation into the mapping it denotes.
pub fn parse_port_spec(spec: &str) -> (mapping: Option<PortMapping>)
    ensures
        mapping == port_mapping(spec@),
{
    let chars: Vec<char> = chars_of(spec);
    let colon: usize = find_colon(&chars);
    assert(chars@.subrange(0, colon as int) =~= published_text(spec@));
    let published: i32 = match read_side(&chars, 0, colon) {
        Some(p) => p,
        None => {
            return None;
        },
    };
    if colon == 0 {
        return None;
    }
    if colon < chars.len() {
        assert(chars@.subrange(colon + 1, chars@.len() as int) =~= target_text(spec@)->0);
        match read_side(&chars, colon + 1, chars.len()) {
            Some(target) => {
                if colon + 1 == chars.len() {
                    None
                } else {
                    Some(PortMapping { published, target })
                }
            },
            None => None,
        }
    } else {
        Some(PortMapping { published, target: published })
    }
}

/// The name of the service port for `spec`: the notation with each colon
/// replaced by a dash.
pub fn port_name(spec: &str) -> (name: String)
    ensures
        name@ == dashed(spec@),
{
    let mut name: String = String::new();
    for c in it: spec.chars()
        invariant
            it.seq() == spec@,
            name@ == dashed(spec@.take(it.index() as int)),
    {
        if c == ':' {
            name.push('-');
        } else {
            name.push(c);
        }
        assert(name@ =~= dashed(spec@.take(it.index() + 1)));
    }
    assert(spec@.take(spec@.len() as int) =~= spec@);
    name
}

/// A string that fails the port pattern denotes no mapping. Without a
/// target side the target port of a mapping is its published port.
pub proof fn law_mapping_needs_the_pattern(s: Seq<char>)
    ensures
        !matches_port_pattern(s) ==> port_mapping(s) is None,
        port_mapping(s) is Some && target_text(s) is None ==> port_mapping(s)->0.target
            == port_mapping(s)->0.published,
{
}

/// A notation that denotes a mapping has a published port, and it is the
/// mapping's.
pub proof fn lemma_mapping_has_published_port(s: Seq<char>)
    requires
        port_mapping(s) is Some,
    ensures
        published_port(s) == Some(port_mapping(s)->0.published),
{
    let left = published_text(s);
    lemma_short_run_is_small(left);
    assert(is_digit(left[0]));
}

} // verus!
