//! Reading the numeric fields of the settings form.

use vstd::prelude::*;
use crate::text::chars_of;

verus! {

/// Whether `c` is an ASCII decimal digit.
pub open spec fn is_decimal_digit(c: char) -> bool {
    '0' <= c && c <= '9'
}

/// The value of a sequence of decimal digits.
pub open spec fn digits_value(s: Seq<char>) -> int
    decreases s.len(),
{
    if s.len() == 0 {
        0
    } else {
        digits_value(s.drop_last()) * 10 + ((s.last() as u32) - ('0' as u32))
    }
}

/// The digits of an unsigned decimal number: the text after an optional `+`
/// sign (a lone `+` is not a sign).
pub open spec fn unsigned_digits(s: Seq<char>) -> Seq<char> {
    if s.len() > 1 && s[0] == '+' {
        s.drop_first()
    } else {
        s
    }
}

/// The `u64` that a text denotes in decimal, if it denotes one: an optional
/// `+`, then at least one digit and nothing else, with a value that fits.
pub open spec fn parse_u64_spec(s: Seq<char>) -> Option<u64> {
    let d = unsigned_digits(s);
    if d.len() == 0 || !(forall|i: int| 0 <= i < d.len() ==> is_decimal_digit(#[trigger] d[i]))
        || digits_value(d) > u64::MAX {
        None
    } else {
        Some(digits_value(d) as u64)
    }
}

/// A longer run of digits never has a smaller value.
pub proof fn lemma_digits_value_prefix(d: Seq<char>, j: int)
    requires
        0 <= j <= d.len(),
        forall|i: int| 0 <= i < d.len() ==> is_decimal_digit(#[trigger] d[i]),
    ensures
        0 <= digits_value(d.take(j)) <= digits_value(d),
    decreases d.len() - j,
{
    if j == d.len() {
        assert(d.take(j) == d);
        lemma_digits_value_nonneg(d);
    } else {
        lemma_digits_value_prefix(d, j + 1);
        assert(d.take(j + 1).drop_last() == d.take(j));
        assert(is_decimal_digit(d[j]));
        lemma_digits_value_nonneg(d.take(j));
    }
}

proof fn lemma_digits_value_nonneg(d: Seq<char>)
    requires
        forall|i: int| 0 <= i < d.len() ==> is_decimal_digit(#[trigger] d[i]),
    ensures
        digits_value(d) >= 0,
    decreases d.len(),
{
    if d.len() > 0 {
        lemma_digits_value_nonneg(d.drop_last());
        assert(is_decimal_digit(d[d.len() - 1]));
    }
}

/// Reads an unsigned decimal number, as `str::parse::<u64>` does.
pub fn parse_u64(s: &str) -> (r: Option<u64>)
    ensures
        r == parse_u64_spec(s@),
{
    let v = chars_of(s);
    let n = v.len();
    let start: usize = if n > 1 && v[0] == '+' { 1 } else { 0 };
    let ghost d = unsigned_digits(s@);
    assert(d == v@.skip(start as int));
    if start == n {
        return None;
    }
    let mut acc: u64 = 0;
    let mut i: usize = start;
    assert(d.take(0) == Seq::<char>::empty());
    while i < n
        invariant
            start <= i <= n == v.len(),
            d == v@.skip(start as int),
            d == unsigned_digits(s@),
            d.len() > 0,
            forall|k: int| 0 <= k < i - start ==> is_decimal_digit(#[trigger] d[k]),
            acc == digits_value(d.take(i - start)),
        decreases n - i,
    {
        let ghost k: int = i - start;
        let c = v[i];
        assert(d[k] == c);
        if !('0' <= c && c <= '9') {
            return None;
        }
        assert(d.take(k + 1).drop_last() == d.take(k));
        assert(d.take(k + 1).last() == c);
        let digit: u64 = ((c as u32) - ('0' as u32)) as u64;
        match acc.checked_mul(10) {
            Some(m) => match m.checked_add(digit) {
                Some(a) => {
                    acc = a;
                },
                None => {
                    proof {
                        if forall|q: int| 0 <= q < d.len() ==> is_decimal_digit(#[trigger] d[q]) {
                            lemma_digits_value_prefix(d, k + 1);
                        }
                    }
                    return None;
                },
            },
            None => {
                proof {
                    if forall|q: int| 0 <= q < d.len() ==> is_decimal_digit(#[trigger] d[q]) {
                        lemma_digits_value_prefix(d, k + 1);
                        lemma_digits_value_nonneg(d.take(k));
                    }
                }
                return None;
            },
        }
        i += 1;
    }
    assert(d.take(n - start) == d);
    Some(acc)
}

/// The number of minutes that a settings field sets: the number it holds, or
/// `default` when it holds none, and never less than one.
pub open spec fn minutes_setting(s: Seq<char>, default: u64) -> u64 {
    let m = match parse_u64_spec(s) {
        Some(v) => v,
        None => default,
    };
    if m < 1 {
        1
    } else {
        m
    }
}

/// Reads a duration field of the settings form, in minutes.
pub fn parse_minutes(s: &str, default: u64) -> (r: u64)
    ensures
        r == minutes_setting(s@, default),
        r >= 1,
{
    let m = match parse_u64(s) {
        Some(v) => v,
        None => default,
    };
    if m < 1 {
        1
    } else {
        m
    }
}

/// Seconds in `minutes` minutes.
pub fn minutes_to_secs(minutes: u64) -> (r: u64)
    requires
        minutes * 60 <= u64::MAX,
    ensures
        r == minutes * 60,
{
    minutes * 60
}

/// The decimal digit of `n`, for `n < 10`.
pub open spec fn digit_char(n: int) -> char {
    ((n + ('0' as u32)) as u32) as char
}

/// The decimal form of `n`, without leading zeros ("0" for zero).
pub open spec fn decimal(n: nat) -> Seq<char>
    decreases n,
{
    if n < 10 {
        seq![digit_char(n as int)]
    } else {
        decimal(n / 10).push(digit_char((n % 10) as int))
    }
}

proof fn lemma_decimal_digits(n: nat)
    ensures
        decimal(n).len() > 0,
        forall|i: int| 0 <= i < decimal(n).len() ==> is_decimal_digit(#[trigger] decimal(n)[i]),
        digits_value(decimal(n)) == n,
    decreases n,
{
    let d = decimal(n);
    if n >= 10 {
        lemma_decimal_digits(n / 10);
        assert(d.drop_last() == decimal(n / 10));
        assert(d.last() == digit_char((n % 10) as int));
        assert((digit_char((n % 10) as int) as u32) == (n % 10) + ('0' as u32));
        assert(n == (n / 10) * 10 + n % 10);
        assert(digits_value(d) == digits_value(d.drop_last()) * 10 + ((d.last() as u32) - ('0' as u32)));
        assert forall|i: int| 0 <= i < d.len() implies is_decimal_digit(#[trigger] d[i]) by {
            if i < d.len() - 1 {
                assert(d[i] == decimal(n / 10)[i]);
            }
        }
    } else {
        assert((digit_char(n as int) as u32) == n + ('0' as u32));
        assert(d.drop_last() == Seq::<char>::empty());
        assert(digits_value(Seq::<char>::empty()) == 0);
        assert(digits_value(d) == digits_value(d.drop_last()) * 10 + ((d.last() as u32) - ('0' as u32)));
    }
}

/// Writes `n` in decimal, as `u64::to_string` does.
pub fn format_u64(n: u64) -> (s: String)
    ensures
        s@ == decimal(n as nat),
{
    let mut digits: Vec<char> = Vec::new();
    let mut m: u64 = n;
    // digits collected from the least significant
    while m >= 10
        invariant
            decimal(n as nat) == decimal(m as nat) + digits@.reverse(),
        decreases m,
    {
        let d: u64 = m % 10;
        let c = ((d as u8) + 48) as char;
        assert(decimal(m as nat) == decimal((m / 10) as nat).push(c));
        digits.push(c);
        assert(digits@.reverse() == seq![c] + digits@.drop_last().reverse());
        m = m / 10;
    }
    let first = ((m as u8) + 48) as char;
    digits.push(first);
    let mut out: Vec<char> = Vec::new();
    let mut i: usize = digits.len();
    assert(digits@.reverse() == seq![first] + decimal(n as nat).skip(1)) by {
        assert(decimal(m as nat) == seq![first]);
    }
    while i > 0
        invariant
            i <= digits.len(),
            out@ == digits@.reverse().take(digits.len() - i),
        decreases i,
    {
        i -= 1;
        out.push(digits[i]);
        assert(digits@.reverse().take(digits.len() - i) == digits@.reverse().take(digits.len() - i - 1).push(digits@[i as int]));
    }
    assert(out@ == digits@.reverse());
    crate::text::string_from_chars(&out)
}

/// Writing a number and reading it back gives the number.
pub proof fn lemma_format_then_parse_u64(n: u64)
    ensures
        parse_u64_spec(decimal(n as nat)) == Some(n),
{
    lemma_decimal_digits(n as nat);
    let d = decimal(n as nat);
    assert(unsigned_digits(d) == d) by {
        if d.len() > 1 {
            assert(is_decimal_digit(d[0]));
        }
    }
}

/// The minutes field of the settings form for a session of `secs` seconds
/// (whole minutes, rounded down).
pub fn minutes_field(secs: u64) -> (s: String)
    ensures
        s@ == decimal((secs / 60) as nat),
{
    format_u64(secs / 60)
}

/// A settings field for a sound names a file: it is not empty.
pub fn sound_configured(path: &str) -> (r: bool)
    ensures
        r == (path@.len() > 0),
{
    !path.is_empty()
}

/// The folder that a settings field sets: the field when it is filled in,
/// else the folder already set.
pub fn chosen_dir(field: &str, current: &str) -> (r: String)
    ensures
        r@ == if field@.len() > 0 { field@ } else { current@ },
{
    let v = if field.is_empty() { chars_of(current) } else { chars_of(field) };
    crate::text::string_from_chars(&v)
}

} // verus!
