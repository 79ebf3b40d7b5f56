use vstd::prelude::*;
use vstd::string::*;

verus! {

/// An exact decimal number: `mantissa` times ten to the power `-scale`.
///
/// Cells of the tables write their measurements with a decimal point; this
/// keeps them exactly as written (`"15.5"` is mantissa 155, scale 1).
#[derive(Debug, Clone, Copy, PartialEq, Eq, Structural)]
pub struct Decimal {
    pub mantissa: i64,
    pub scale: u32,
}

/// The most digits a decimal cell may hold: any such number fits an `i64`.
pub const MAX_DECIMAL_DIGITS: usize = 18;

pub open spec fn is_digit(c: char) -> bool {
    '0' <= c && c <= '9'
}

pub open spec fn digit_value(c: char) -> nat {
    (c as u32 - '0' as u32) as nat
}

pub open spec fn all_digits(s: Seq<char>) -> bool {
    forall|i: int| 0 <= i < s.len() ==> is_digit(#[trigger] s[i])
}

/// The number that a string of decimal digits writes, most significant first.
pub open spec fn digits_value(s: Seq<char>) -> nat
    decreases s.len(),
{
    if s.len() == 0 {
        0
    } else {
        digits_value(s.drop_last()) * 10 + digit_value(s.last())
    }
}

pub open spec fn pow10(n: nat) -> nat
    decreases n,
{
    if n == 0 {
        1
    } else {
        10 * pow10((n - 1) as nat)
    }
}

/// Position of the first `c` in `s`, or the length of `s` where it has none.
pub open spec fn first_index_of(s: Seq<char>, c: char) -> int
    decreases s.len(),
{
    if s.len() == 0 {
        0
    } else if s[0] == c {
        0
    } else {
        1 + first_index_of(s.drop_first(), c)
    }
}

/// Length of the sign in front of a decimal number (`+` or `-`), 0 or 1.
pub open spec fn sign_len(s: Seq<char>) -> int {
    if s.len() > 0 && (s[0] == '-' || s[0] == '+') {
        1
    } else {
        0
    }
}

/// The digits before the decimal point, the sign left out.
pub open spec fn integer_digits(s: Seq<char>) -> Seq<char> {
    let body = s.skip(sign_len(s));
    body.take(first_index_of(body, '.'))
}

/// The digits after the decimal point; empty where there is no point.
pub open spec fn fraction_digits(s: Seq<char>) -> Seq<char> {
    let body = s.skip(sign_len(s));
    let p = first_index_of(body, '.');
    if p < body.len() {
        body.skip(p + 1)
    } else {
        Seq::empty()
    }
}

/// The decimal that a cell writes: an optional sign, digits, and optionally a
/// point followed by more digits; at least one digit and at most
/// `MAX_DECIMAL_DIGITS` in all. `None` for any other text.
pub open spec fn decimal_of(s: Seq<char>) -> Option<Decimal> {
    let ip = integer_digits(s);
    let fp = fraction_digits(s);
    if all_digits(ip) && all_digits(fp) && 1 <= ip.len() + fp.len() <= MAX_DECIMAL_DIGITS {
        let m = digits_value(ip + fp) as int;
        Some(Decimal { mantissa: (if s[0] == '-' { -m } else { m }) as i64, scale: fp.len() as u32 })
    } else {
        None
    }
}

pub proof fn lemma_digits_value_bound(s: Seq<char>)
    requires
        all_digits(s),
    ensures
        digits_value(s) < pow10(s.len()),
    decreases s.len(),
{
    if s.len() > 0 {
        assert(is_digit(s[s.len() - 1]));
        lemma_digits_value_bound(s.drop_last());
    }
}

pub proof fn lemma_pow10_18()
    ensures
        pow10(18) == 1_000_000_000_000_000_000,
{
    reveal_with_fuel(pow10, 19);
}

pub proof fn lemma_pow10_mono(a: nat, b: nat)
    requires
        a <= b,
    ensures
        pow10(a) <= pow10(b),
    decreases b,
{
    if a < b {
        lemma_pow10_mono(a, (b - 1) as nat);
    }
}

/// Appending one digit multiplies the value by ten and adds the digit.
pub proof fn lemma_digits_value_push(s: Seq<char>, c: char)
    ensures
        digits_value(s.push(c)) == digits_value(s) * 10 + digit_value(c),
{
    assert(s.push(c).drop_last() =~= s);
}

proof fn lemma_first_index_found(s: Seq<char>, c: char, i: int)
    requires
        0 <= i <= s.len(),
        forall|j: int| 0 <= j < i ==> s[j] != c,
        i == s.len() || s[i] == c,
    ensures
        first_index_of(s, c) == i,
    decreases i,
{
    if i > 0 {
        lemma_first_index_found(s.drop_first(), c, i - 1);
    }
}

/// Position of the first `c` in `s`, or its length where it has none.
pub fn find_char(s: &str, c: char) -> (r: usize)
    ensures
        r as int == first_index_of(s@, c),
        r <= s@.len(),
{
    let n = s.unicode_len();
    let mut i: usize = 0;
    while i < n
        invariant
            n == s@.len(),
            i <= n,
            forall|j: int| 0 <= j < i ==> s@[j] != c,
        decreases n - i,
    {
        if s.get_char(i) == c {
            proof {
                lemma_first_index_found(s@, c, i as int);
            }
            return i;
        }
        i = i + 1;
    }
    proof {
        lemma_first_index_found(s@, c, i as int);
    }
    i
}

fn digit_of(c: char) -> (r: u64)
    requires
        is_digit(c),
    ensures
        r == digit_value(c),
{
    (c as u32 - '0' as u32) as u64
}

/// Reads a decimal number from a cell, as `decimal_of` describes.
pub fn parse_decimal(s: &str) -> (r: Option<Decimal>)
    ensures
        r == decimal_of(s@),
{
    let n = s.unicode_len();
    let negative = n > 0 && s.get_char(0) == '-';
    let start: usize = if n > 0 && (s.get_char(0) == '-' || s.get_char(0) == '+') { 1 } else { 0 };
    let body = s.substring_char(start, n);
    assert(body@ == s@.skip(sign_len(s@)));
    let m = body.unicode_len();
    let p = find_char(body, '.');
    let frac_start: usize = if p < m { p + 1 } else { m };
    let ghost ip = body@.take(p as int);
    let ghost fp = body@.skip(frac_start as int);
    assert(ip == integer_digits(s@));
    assert(fp =~= fraction_digits(s@));
    let ndigits = p + (m - frac_start);
    if ndigits < 1 || ndigits > MAX_DECIMAL_DIGITS {
        return None;
    }
    let mut value: u64 = 0;
    let mut i: usize = 0;
    // Digits before the point.
    while i < p
        invariant
            p <= m,
            m == body@.len(),
            p as int == first_index_of(body@, '.'),
            ip == body@.take(p as int),
            ip == integer_digits(s@),
            fp == fraction_digits(s@),
            i <= p,
            all_digits(ip.take(i as int)),
            value == digits_value(ip.take(i as int)),
            p + (m - frac_start) <= MAX_DECIMAL_DIGITS,
            frac_start <= m,
        decreases p - i,
    {
        let c = body.get_char(i);
        if !('0' <= c && c <= '9') {
            assert(!all_digits(ip)) by {
                assert(ip[i as int] == c);
            }
            return None;
        }
        proof {
            assert(ip.take(i + 1) =~= ip.take(i as int).push(c));
            lemma_digits_value_push(ip.take(i as int), c);
            lemma_digits_value_bound(ip.take(i as int));
            lemma_pow10_mono(i as nat, 17);
            lemma_pow10_18();
            reveal_with_fuel(pow10, 2);
        }
        value = value * 10 + digit_of(c);
        i = i + 1;
    }
    assert(ip.take(p as int) =~= ip);
    let mut k: usize = frac_start;
    while k < m
        invariant
            frac_start <= k <= m,
            m == body@.len(),
            fp == body@.skip(frac_start as int),
            ip == integer_digits(s@),
            fp == fraction_digits(s@),
            all_digits(ip),
            all_digits(fp.take(k - frac_start)),
            value == digits_value(ip + fp.take(k - frac_start)),
            ip.len() + fp.len() <= MAX_DECIMAL_DIGITS,
        decreases m - k,
    {
        let c = body.get_char(k);
        if !('0' <= c && c <= '9') {
            assert(!all_digits(fp)) by {
                assert(fp[k - frac_start] == c);
            }
            return None;
        }
        proof {
            let t = ip + fp.take(k - frac_start);
            assert(ip + fp.take(k - frac_start + 1) =~= t.push(c));
            lemma_digits_value_push(t, c);
            assert(all_digits(t));
            lemma_digits_value_bound(t);
            lemma_pow10_mono(t.len(), 17);
            lemma_pow10_18();
        }
        value = value * 10 + digit_of(c);
        k = k + 1;
    }
    assert(fp.take(m - frac_start) =~= fp);
    proof {
        lemma_digits_value_bound(ip + fp);
        lemma_pow10_mono((ip + fp).len(), 18);
        lemma_pow10_18();
    }
    let mantissa: i64 = if negative { -(value as i64) } else { value as i64 };
    Some(Decimal { mantissa, scale: (m - frac_start) as u32 })
}

/// The digit character for `d`, which is below ten.
pub open spec fn digit_char(d: u32) -> char {
    if d == 0 {
        '0'
    } else if d == 1 {
        '1'
    } else if d == 2 {
        '2'
    } else if d == 3 {
        '3'
    } else if d == 4 {
        '4'
    } else if d == 5 {
        '5'
    } else if d == 6 {
        '6'
    } else if d == 7 {
        '7'
    } else if d == 8 {
        '8'
    } else {
        '9'
    }
}

pub proof fn lemma_digit_char(d: u32)
    requires
        d < 10,
    ensures
        is_digit(digit_char(d)),
        digit_value(digit_char(d)) == d,
{
}

pub fn digit_to_char(d: u32) -> (c: char)
    requires
        d < 10,
    ensures
        c == digit_char(d),
        is_digit(c),
        digit_value(c) == d,
{
    if d == 0 {
        '0'
    } else if d == 1 {
        '1'
    } else if d == 2 {
        '2'
    } else if d == 3 {
        '3'
    } else if d == 4 {
        '4'
    } else if d == 5 {
        '5'
    } else if d == 6 {
        '6'
    } else if d == 7 {
        '7'
    } else if d == 8 {
        '8'
    } else {
        '9'
    }
}

/// Relies on String::push: appends the character to the end of the string.
#[verifier::external_body]
pub(crate) fn push_char(s: &mut String, c: char)
    ensures
        final(s)@ == old(s)@.push(c),
{
    s.push(c)
}

/// The decimal digits of `n`, most significant first, without leading zeros
/// (`"0"` for zero).
pub open spec fn nat_text(n: nat) -> Seq<char>
    decreases n,
{
    if n < 10 {
        seq![digit_char(n as u32)]
    } else {
        nat_text(n / 10).push(digit_char((n % 10) as u32))
    }
}

/// Appends the decimal digits of `n` to `out`.
pub fn push_decimal(out: &mut String, n: u32)
    ensures
        final(out)@ == old(out)@ + nat_text(n as nat),
    decreases n,
{
    if n < 10 {
        push_char(out, digit_to_char(n));
        assert(old(out)@ + nat_text(n as nat) =~= old(out)@.push(digit_char(n)));
    } else {
        push_decimal(out, n / 10);
        push_char(out, digit_to_char(n % 10));
        assert(old(out)@ + nat_text(n as nat) =~= old(out)@ + nat_text((n / 10) as nat) + seq![
            digit_char(n % 10),
        ]);
    }
}

} // verus!
