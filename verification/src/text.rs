//! Character-level helpers for command-line text: the characters of a
//! string, decimal numbers in both directions, and hexadecimal digits.
use vstd::prelude::*;

verus! {

/// The characters of `s`, in order.
pub fn chars_of(s: &str) -> (v: Vec<char>)
    ensures
        v@ == s@,
{
    let mut v: Vec<char> = Vec::new();
    for c in it: s.chars()
        invariant
            v@ == it.seq().take(it.index()),
    {
        v.push(c);
    }
    v
}

/// `FromIterator<&char>` for `String` (std): the string made of exactly the
/// given characters, in order.
#[verifier::external_body]
pub fn string_of(chars: &[char]) -> (s: String)
    ensures
        s@ == chars@,
{
    chars.iter().collect()
}

/// Appends the characters of `s`.
pub fn push_str(out: &mut Vec<char>, s: &str)
    ensures
        final(out)@ == old(out)@ + s@,
{
    let cs = chars_of(s);
    let mut i: usize = 0;
    while i < cs.len()
        invariant
            cs@ == s@,
            i <= cs@.len(),
            out@ == old(out)@ + cs@.take(i as int),
        decreases cs@.len() - i,
    {
        out.push(cs[i]);
        assert(cs@.take(i + 1) =~= cs@.take(i as int).push(cs@[i as int]));
        i = i + 1;
    }
    assert(cs@.take(cs@.len() as int) =~= cs@);
}

/// Whether two strings hold the same characters.
pub fn str_eq(a: &str, b: &str) -> (r: bool)
    ensures
        r == (a@ == b@),
{
    let x = chars_of(a);
    let y = chars_of(b);
    if x.len() != y.len() {
        return false;
    }
    let mut i: usize = 0;
    while i < x.len()
        invariant
            x@ == a@,
            y@ == b@,
            x@.len() == y@.len(),
            i <= x@.len(),
            forall|k: int| 0 <= k < i ==> x@[k] == y@[k],
        decreases x@.len() - i,
    {
        if x[i] != y[i] {
            return false;
        }
        i = i + 1;
    }
    assert(x@ =~= y@);
    true
}

/// A character with the Unicode `White_Space` property.
pub open spec fn is_white_space(c: char) -> bool {
    ('\u{9}' <= c && c <= '\u{d}') || c == ' ' || c == '\u{85}' || c == '\u{a0}' || c == '\u{1680}'
        || ('\u{2000}' <= c && c <= '\u{200a}') || c == '\u{2028}' || c == '\u{2029}' || c
        == '\u{202f}' || c == '\u{205f}' || c == '\u{3000}'
}

/// Whether `c` is an ASCII decimal digit.
pub open spec fn is_digit(c: char) -> bool {
    '0' <= c && c <= '9'
}

/// The value of the decimal digit `c`.
pub open spec fn digit_value(c: char) -> nat {
    ((c as u32) - 48) as nat
}

/// Whether every character of `s` is a decimal digit.
pub open spec fn all_digits(s: Seq<char>) -> bool {
    forall|i: int| 0 <= i < s.len() ==> is_digit(#[trigger] s[i])
}

/// The value of a string of decimal digits.
pub open spec fn digits_value(s: Seq<char>) -> nat
    decreases s.len(),
{
    if s.len() == 0 {
        0
    } else {
        digits_value(s.drop_last()) * 10 + digit_value(s.last())
    }
}

/// The digits of an unsigned number: the text after an optional leading `+`.
pub open spec fn unsigned_digits(s: Seq<char>) -> Seq<char> {
    if s.len() > 0 && s[0] == '+' {
        s.drop_first()
    } else {
        s
    }
}

/// The unsigned number written in `s` (an optional `+` and one or more
/// decimal digits), when it is at most `max`; this is how Rust's standard
/// library reads unsigned integers from text.
pub open spec fn parse_unsigned(s: Seq<char>, max: nat) -> Option<nat> {
    let d = unsigned_digits(s);
    if d.len() > 0 && all_digits(d) && digits_value(d) <= max {
        Some(digits_value(d))
    } else {
        None
    }
}

proof fn lemma_digits_value_prefix(s: Seq<char>, k: int)
    requires
        0 <= k <= s.len(),
    ensures
        digits_value(s.take(k)) <= digits_value(s),
    decreases s.len() - k,
{
    if k < s.len() {
        lemma_digits_value_prefix(s, k + 1);
        assert(s.take(k + 1).drop_last() =~= s.take(k));
    } else {
        assert(s.take(k) =~= s);
    }
}

/// Reads an unsigned 64-bit number written in decimal.
pub fn parse_u64(s: &str) -> (r: Option<u64>)
    ensures
        (r is Some) == (parse_unsigned(s@, u64::MAX as nat) is Some),
        r matches Some(v) ==> v == parse_unsigned(s@, u64::MAX as nat)->0,
{
    let cs = chars_of(s);
    let start: usize = if cs.len() > 0 && cs[0] == '+' { 1 } else { 0 };
    let ghost d = unsigned_digits(s@);
    assert(d =~= cs@.skip(start as int));
    if start == cs.len() {
        return None;
    }
    let mut i: usize = start;
    while i < cs.len()
        invariant
            cs@ == s@,
            d == cs@.skip(start as int),
            d == unsigned_digits(s@),
            start <= i <= cs@.len(),
            forall|k: int| start <= k < i ==> is_digit(#[trigger] cs@[k]),
        decreases cs@.len() - i,
    {
        let c = cs[i];
        if !('0' <= c && c <= '9') {
            assert(!is_digit(d[i - start]));
            assert(!all_digits(d));
            assert(parse_unsigned(s@, u64::MAX as nat) is None);
            return None;
        }
        i = i + 1;
    }
    assert(all_digits(d)) by {
        assert forall|k: int| 0 <= k < d.len() implies is_digit(#[trigger] d[k]) by {
            assert(d[k] == cs@[k + start]);
        }
    }
    let mut value: u64 = 0;
    let mut j: usize = start;
    assert(d.take(0) =~= Seq::<char>::empty());
    while j < cs.len()
        invariant
            cs@ == s@,
            d == cs@.skip(start as int),
            d == unsigned_digits(s@),
            all_digits(d),
            start <= j <= cs@.len(),
            value == digits_value(d.take(j - start)),
        decreases cs@.len() - j,
    {
        let c = cs[j];
        proof {
            assert(d[j - start] == cs@[j as int]);
            assert(is_digit(d[j - start]));
        }
        let digit: u64 = ((c as u32) - 48) as u64;
        proof {
            assert(d.take(j + 1 - start).drop_last() =~= d.take(j - start));
            assert(d.take(j + 1 - start).last() == c);
            assert(digits_value(d.take(j + 1 - start)) == value * 10 + digit);
        }
        match value.checked_mul(10) {
            None => {
                proof {
                    lemma_digits_value_prefix(d, j + 1 - start);
                    assert(digits_value(d) > u64::MAX);
                    assert(parse_unsigned(s@, u64::MAX as nat) is None);
                }
                return None;
            },
            Some(tens) => match tens.checked_add(digit) {
                None => {
                    proof {
                        lemma_digits_value_prefix(d, j + 1 - start);
                    }
                    return None;
                },
                Some(next) => {
                    value = next;
                },
            },
        }
        j = j + 1;
    }
    assert(d.take(cs@.len() - start) =~= d);
    Some(value)
}

/// Reads an unsigned pointer-sized number written in decimal.
pub fn parse_usize(s: &str) -> (r: Option<usize>)
    ensures
        (r is Some) == (parse_unsigned(s@, usize::MAX as nat) is Some),
        r matches Some(v) ==> v == parse_unsigned(s@, usize::MAX as nat)->0,
{
    match parse_u64(s) {
        Some(v) => if v <= usize::MAX as u64 {
            Some(v as usize)
        } else {
            None
        },
        None => None,
    }
}

/// Reads an unsigned 16-bit number written in decimal.
pub fn parse_u16(s: &str) -> (r: Option<u16>)
    ensures
        (r is Some) == (parse_unsigned(s@, u16::MAX as nat) is Some),
        r matches Some(v) ==> v == parse_unsigned(s@, u16::MAX as nat)->0,
{
    match parse_u64(s) {
        Some(v) => if v <= u16::MAX as u64 {
            Some(v as u16)
        } else {
            None
        },
        None => None,
    }
}

/// The character of the decimal digit `d`.
pub open spec fn digit_char(d: nat) -> char {
    ((d + 48) as u32) as char
}

/// The decimal numeral of `n`, without leading zeros.
pub open spec fn decimal(n: nat) -> Seq<char>
    decreases n,
{
    if n < 10 {
        seq![digit_char(n)]
    } else {
        decimal(n / 10).push(digit_char(n % 10))
    }
}

/// Appends the decimal numeral of `n`.
pub fn push_decimal(out: &mut Vec<char>, n: u64)
    ensures
        final(out)@ == old(out)@ + decimal(n as nat),
    decreases n,
{
    if n >= 10 {
        push_decimal(out, n / 10);
    }
    let d: u32 = (n % 10) as u32;
    let c: char = char_of_digit(d);
    out.push(c);
    proof {
        if n >= 10 {
            assert(decimal(n as nat) == decimal((n / 10) as nat).push(digit_char((n % 10) as nat)));
        }
    }
}

/// The character of a decimal or hexadecimal digit value below sixteen, in lower case.
pub open spec fn hex_char(d: nat) -> char {
    if d < 10 {
        ((d + 48) as u32) as char
    } else {
        ((d + 87) as u32) as char
    }
}

fn char_of_digit(d: u32) -> (c: char)
    requires
        d < 10,
    ensures
        c == digit_char(d as nat),
        c == hex_char(d as nat),
{
    match d {
        0 => '0',
        1 => '1',
        2 => '2',
        3 => '3',
        4 => '4',
        5 => '5',
        6 => '6',
        7 => '7',
        8 => '8',
        _ => '9',
    }
}

/// The lower-case character of a hexadecimal digit value.
pub fn hex_digit(d: u8) -> (c: char)
    requires
        d < 16,
    ensures
        c == hex_char(d as nat),
{
    match d {
        0 => '0',
        1 => '1',
        2 => '2',
        3 => '3',
        4 => '4',
        5 => '5',
        6 => '6',
        7 => '7',
        8 => '8',
        9 => '9',
        10 => 'a',
        11 => 'b',
        12 => 'c',
        13 => 'd',
        14 => 'e',
        _ => 'f',
    }
}

/// The value of a hexadecimal digit byte (either case), if it is one.
pub open spec fn hex_value(b: u8) -> Option<nat> {
    if 48 <= b <= 57 {
        Some((b - 48) as nat)
    } else if 97 <= b <= 102 {
        Some((b - 87) as nat)
    } else if 65 <= b <= 70 {
        Some((b - 55) as nat)
    } else {
        None
    }
}

/// Hexadecimal digits are read case-insensitively: a letter and its other
/// case denote the same digit, every digit is below sixteen, and the digits
/// are exactly `0`-`9`, `a`-`f` and `A`-`F`, in that order of value.
pub proof fn law_hex_digits(b: u8, d: nat)
    ensures
        65 <= b <= 90 ==> hex_value(b) == hex_value((b + 32) as u8),
        hex_value(b) matches Some(v) ==> v < 16,
        (hex_value(b) is Some) <==> (48 <= b <= 57 || 97 <= b <= 102 || 65 <= b <= 70),
        d < 16 ==> hex_value(hex_char(d) as u8) == Some(d),
{
    if d < 16 {
        if d < 10 {
            assert((hex_char(d) as u8) == d + 48);
        } else {
            assert((hex_char(d) as u8) == d + 87);
        }
    }
}

pub fn hex_value_of(b: u8) -> (r: Option<u8>)
    ensures
        (r is Some) == (hex_value(b) is Some),
        r matches Some(v) ==> v == hex_value(b)->0 && v < 16,
{
    if 48 <= b && b <= 57 {
        Some(b - 48)
    } else if 97 <= b && b <= 102 {
        Some(b - 87)
    } else if 65 <= b && b <= 70 {
        Some(b - 55)
    } else {
        None
    }
}

proof fn lemma_decimal_digits(n: nat)
    ensures
        decimal(n).len() > 0,
        all_digits(decimal(n)),
        digits_value(decimal(n)) == n,
    decreases n,
{
    if n >= 10 {
        lemma_decimal_digits(n / 10);
        let s = decimal(n);
        assert(s.drop_last() =~= decimal(n / 10));
        assert(digit_value(digit_char(n % 10)) == n % 10);
        assert(s.last() == digit_char(n % 10));
        assert(digits_value(s) == digits_value(decimal(n / 10)) * 10 + digit_value(s.last()));
        assert((n / 10) * 10 + n % 10 == n);
        assert forall|i: int| 0 <= i < s.len() implies is_digit(#[trigger] s[i]) by {
            if i < s.len() - 1 {
                assert(s[i] == decimal(n / 10)[i]);
            }
        }
    } else {
        assert(digit_value(digit_char(n)) == n);
        assert(decimal(n).drop_last() =~= Seq::<char>::empty());
        assert(decimal(n).last() == digit_char(n));
        assert(digits_value(decimal(n)) == digits_value(Seq::<char>::empty()) * 10 + digit_value(
            digit_char(n),
        ));
    }
}

/// An unsigned number is read only from digits, with at most a leading `+`,
/// and never beyond its bound: any other character, or no digit at all,
/// refuses the text.
pub proof fn law_unsigned_text_is_digits(s: Seq<char>, max: nat)
    ensures
        parse_unsigned(s, max) matches Some(n) ==> {
            &&& n <= max
            &&& exists|k: int| 0 <= k < s.len() && is_digit(#[trigger] s[k])
            &&& forall|i: int|
                0 <= i < s.len() ==> is_digit(#[trigger] s[i]) || (i == 0 && s[i] == '+')
        },
{
    let d = unsigned_digits(s);
    if parse_unsigned(s, max) is Some {
        if s.len() > 0 && s[0] == '+' {
            assert forall|i: int| 0 <= i < s.len() implies is_digit(#[trigger] s[i]) || (i == 0
                && s[i] == '+') by {
                if i > 0 {
                    assert(s[i] == d[i - 1]);
                }
            }
            assert(s[1] == d[0]);
            assert(is_digit(s[1]));
        } else {
            assert(d == s);
            assert(is_digit(s[0]));
        }
    }
}

/// Reading back the decimal numeral of a number gives the number, whenever
/// it is within the bound.
pub proof fn law_decimal_round_trip(n: nat, max: nat)
    ensures
        parse_unsigned(decimal(n), max) == (if n <= max {
            Some(n)
        } else {
            None::<nat>
        }),
{
    lemma_decimal_digits(n);
    assert(is_digit(decimal(n)[0]));
    assert(unsigned_digits(decimal(n)) == decimal(n));
}

} // verus!
