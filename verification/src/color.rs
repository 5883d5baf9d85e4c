//! Colours as six hexadecimal digits, the form in which the settings form
//! shows and reads them.

use vstd::prelude::*;
use crate::text::{chars_of, is_white_space, is_white_space_exec};

verus! {

/// A colour as three 8-bit channels.
#[derive(Clone, Copy, PartialEq, Eq, Debug, Structural)]
pub struct Rgb {
    pub r: u8,
    pub g: u8,
    pub b: u8,
}

/// `s` without its leading white space.
pub open spec fn trim_start_ws(s: Seq<char>) -> Seq<char>
    decreases s.len(),
{
    if s.len() > 0 && is_white_space(s[0]) {
        trim_start_ws(s.drop_first())
    } else {
        s
    }
}

/// `s` without its trailing white space.
pub open spec fn trim_end_ws(s: Seq<char>) -> Seq<char>
    decreases s.len(),
{
    if s.len() > 0 && is_white_space(s.last()) {
        trim_end_ws(s.drop_last())
    } else {
        s
    }
}

/// `s` without its leading `#` characters.
pub open spec fn strip_hashes(s: Seq<char>) -> Seq<char>
    decreases s.len(),
{
    if s.len() > 0 && s[0] == '#' {
        strip_hashes(s.drop_first())
    } else {
        s
    }
}

/// The part of the input that holds the digits: white space trimmed from both
/// ends, then every leading `#` removed.
pub open spec fn hex_field(s: Seq<char>) -> Seq<char> {
    strip_hashes(trim_end_ws(trim_start_ws(s)))
}

/// The value of a hexadecimal digit, in either case.
pub open spec fn hex_digit(c: char) -> Option<u8> {
    if '0' <= c && c <= '9' {
        Some(((c as u32) - ('0' as u32)) as u8)
    } else if 'a' <= c && c <= 'f' {
        Some(((c as u32) - ('a' as u32) + 10) as u8)
    } else if 'A' <= c && c <= 'F' {
        Some(((c as u32) - ('A' as u32) + 10) as u8)
    } else {
        None
    }
}

/// The value of two hexadecimal digits, the first the more significant.
pub open spec fn hex_byte(a: char, b: char) -> Option<u8> {
    match (hex_digit(a), hex_digit(b)) {
        (Some(x), Some(y)) => Some((x * 16 + y) as u8),
        _ => None,
    }
}

/// The colour that a settings entry denotes, if any: its field must be
/// exactly six hexadecimal digits, two per channel.
pub open spec fn parse_hex_rgb(s: Seq<char>) -> Option<Rgb> {
    let f = hex_field(s);
    if f.len() == 6 {
        match (hex_byte(f[0], f[1]), hex_byte(f[2], f[3]), hex_byte(f[4], f[5])) {
            (Some(r), Some(g), Some(b)) => Some(Rgb { r, g, b }),
            _ => None,
        }
    } else {
        None
    }
}

/// Every character is a hexadecimal digit.
pub open spec fn all_hex_digits(s: Seq<char>) -> bool {
    forall|i: int| 0 <= i < s.len() ==> #[trigger] hex_digit(s[i]) is Some
}

/// The lower-case hexadecimal digit of `n`.
pub open spec fn hex_char(n: u8) -> char
    recommends
        n < 16,
{
    if n < 10 {
        ((n as u32) + ('0' as u32)) as char
    } else {
        ((n as u32) - 10 + ('a' as u32)) as char
    }
}

/// A colour as six lower-case hexadecimal digits, two per channel.
pub open spec fn format_hex_rgb(c: Rgb) -> Seq<char> {
    seq![
        hex_char(c.r / 16),
        hex_char(c.r % 16),
        hex_char(c.g / 16),
        hex_char(c.g % 16),
        hex_char(c.b / 16),
        hex_char(c.b % 16),
    ]
}

fn hex_digit_exec(c: char) -> (r: Option<u8>)
    ensures
        r == hex_digit(c),
{
    if '0' <= c && c <= '9' {
        Some(((c as u32) - ('0' as u32)) as u8)
    } else if 'a' <= c && c <= 'f' {
        Some(((c as u32) - ('a' as u32) + 10) as u8)
    } else if 'A' <= c && c <= 'F' {
        Some(((c as u32) - ('A' as u32) + 10) as u8)
    } else {
        None
    }
}

fn hex_byte_exec(a: char, b: char) -> (r: Option<u8>)
    ensures
        r == hex_byte(a, b),
{
    match (hex_digit_exec(a), hex_digit_exec(b)) {
        (Some(x), Some(y)) => Some(x * 16 + y),
        _ => None,
    }
}

/// Indices `(lo, hi)` such that `v[lo..hi]` is the hexadecimal field of `v`.
fn hex_field_bounds(v: &Vec<char>) -> (r: (usize, usize))
    ensures
        r.0 <= r.1 <= v.len(),
        v@.subrange(r.0 as int, r.1 as int) == hex_field(v@),
{
    let n = v.len();
    let mut lo: usize = 0;
    assert(v@.skip(0) == v@);
    while lo < n && is_white_space_exec(v[lo])
        invariant
            n == v.len(),
            lo <= n,
            trim_start_ws(v@) == trim_start_ws(v@.skip(lo as int)),
        decreases n - lo,
    {
        assert(v@.skip(lo as int).drop_first() == v@.skip(lo + 1));
        lo += 1;
    }
    assert(trim_start_ws(v@) == v@.subrange(lo as int, n as int)) by {
        assert(v@.skip(lo as int) == v@.subrange(lo as int, n as int));
    }
    let mut hi: usize = n;
    while hi > lo && is_white_space_exec(v[hi - 1])
        invariant
            n == v.len(),
            lo <= hi <= n,
            trim_end_ws(trim_start_ws(v@)) == trim_end_ws(v@.subrange(lo as int, hi as int)),
        decreases hi - lo,
    {
        assert(v@.subrange(lo as int, hi as int).drop_last() == v@.subrange(lo as int, hi - 1));
        hi -= 1;
    }
    let mut k: usize = lo;
    while k < hi && v[k] == '#'
        invariant
            n == v.len(),
            lo <= k <= hi <= n,
            hex_field(v@) == strip_hashes(v@.subrange(k as int, hi as int)),
        decreases hi - k,
    {
        assert(v@.subrange(k as int, hi as int).drop_first() == v@.subrange(k + 1, hi as int));
        k += 1;
    }
    (k, hi)
}

/// The colour that a settings entry denotes, if it denotes one.
pub fn parse_hex_color(s: &str) -> (r: Option<Rgb>)
    ensures
        r == parse_hex_rgb(s@),
{
    let v = chars_of(s);
    let (lo, hi) = hex_field_bounds(&v);
    let ghost f = v@.subrange(lo as int, hi as int);
    if hi - lo != 6 {
        return None;
    }
    assert(f[0] == v@[lo as int] && f[1] == v@[lo + 1] && f[2] == v@[lo + 2]);
    assert(f[3] == v@[lo + 3] && f[4] == v@[lo + 4] && f[5] == v@[lo + 5]);
    match (hex_byte_exec(v[lo], v[lo + 1]), hex_byte_exec(v[lo + 2], v[lo + 3]), hex_byte_exec(v[lo + 4], v[lo + 5])) {
        (Some(r), Some(g), Some(b)) => Some(Rgb { r, g, b }),
        _ => None,
    }
}

fn hex_char_exec(n: u8) -> (c: char)
    requires
        n < 16,
    ensures
        c == hex_char(n),
{
    if n < 10 {
        (n + 48) as char
    } else {
        (n - 10 + 97) as char
    }
}

/// A colour as six lower-case hexadecimal digits.
pub fn format_hex_color(c: Rgb) -> (s: String)
    ensures
        s@ == format_hex_rgb(c),
{
    let mut v: Vec<char> = Vec::new();
    v.push(hex_char_exec(c.r / 16));
    v.push(hex_char_exec(c.r % 16));
    v.push(hex_char_exec(c.g / 16));
    v.push(hex_char_exec(c.g % 16));
    v.push(hex_char_exec(c.b / 16));
    v.push(hex_char_exec(c.b % 16));
    assert(v@ == format_hex_rgb(c));
    crate::text::string_from_chars(&v)
}

proof fn lemma_hex_char_digit(n: u8)
    requires
        n < 16,
    ensures
        hex_digit(hex_char(n)) == Some(n),
        hex_char(n) != '#',
        !is_white_space(hex_char(n)),
{
}

/// Formatting a colour and reading it back gives the same colour.
pub proof fn lemma_format_then_parse(c: Rgb)
    ensures
        parse_hex_rgb(format_hex_rgb(c)) == Some(c),
{
    let s = format_hex_rgb(c);
    lemma_hex_char_digit(c.r / 16);
    lemma_hex_char_digit(c.r % 16);
    lemma_hex_char_digit(c.g / 16);
    lemma_hex_char_digit(c.g % 16);
    lemma_hex_char_digit(c.b / 16);
    lemma_hex_char_digit(c.b % 16);
    assert(trim_start_ws(s) == s);
    assert(trim_end_ws(s) == s);
    assert(strip_hashes(s) == s);
    assert(hex_field(s) == s);
}

/// A colour always formats to six characters, none of them upper case.
pub proof fn lemma_format_shape(c: Rgb)
    ensures
        format_hex_rgb(c).len() == 6,
        forall|i: int| 0 <= i < 6 ==> {
            let ch = #[trigger] format_hex_rgb(c)[i];
            ('0' <= ch && ch <= '9') || ('a' <= ch && ch <= 'f')
        },
{
}

/// Two hexadecimal digits read as a byte and written back give the same
/// digits in lower case.
proof fn lemma_byte_round_trip(a: char, b: char)
    requires
        hex_digit(a) is Some,
        hex_digit(b) is Some,
    ensures
        hex_byte(a, b) matches Some(n) && hex_char(n / 16) == crate::text::ascii_lower(a)
            && hex_char(n % 16) == crate::text::ascii_lower(b),
{
    let x = hex_digit(a)->0;
    let y = hex_digit(b)->0;
    assert(x < 16 && y < 16);
    let n = (x * 16 + y) as u8;
    assert(x * 16 + y < 256);
    assert(n / 16 == x && n % 16 == y) by (nonlinear_arith)
        requires
            x < 16,
            y < 16,
            n == x * 16 + y,
    ;
}

/// Reading six hexadecimal digits as a colour and formatting it again gives
/// the same digits in lower case.
pub proof fn lemma_parse_then_format(s: Seq<char>)
    requires
        s.len() == 6,
        all_hex_digits(s),
    ensures
        parse_hex_rgb(s) matches Some(c) && format_hex_rgb(c) == s.map_values(
            |ch: char| crate::text::ascii_lower(ch),
        ),
{
    assert(hex_digit(s[0]) is Some && hex_digit(s[5]) is Some);
    assert(trim_start_ws(s) == s);
    assert(trim_end_ws(s) == s);
    assert(strip_hashes(s) == s);
    assert(hex_field(s) == s);
    assert(hex_digit(s[1]) is Some && hex_digit(s[2]) is Some);
    assert(hex_digit(s[3]) is Some && hex_digit(s[4]) is Some);
    lemma_byte_round_trip(s[0], s[1]);
    lemma_byte_round_trip(s[2], s[3]);
    lemma_byte_round_trip(s[4], s[5]);
    let c = parse_hex_rgb(s)->0;
    assert(format_hex_rgb(c) =~= s.map_values(|ch: char| crate::text::ascii_lower(ch)));
}

} // verus!
