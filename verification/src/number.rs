//! Numbers in text: decimal notation, and which texts denote a number.

use vstd::prelude::*;

use crate::text;

verus! {

/// The decimal digit that stands for `d`.
pub open spec fn digit(d: int) -> char
    recommends
        0 <= d < 10,
{
    ('0' as int + d) as char
}

/// The decimal notation of `n`.
pub open spec fn decimal_of(n: nat) -> Seq<char>
    decreases n,
{
    if n < 10 {
        seq![digit(n as int)]
    } else {
        decimal_of(n / 10).push(digit((n % 10) as int))
    }
}

/// The decimal notation of `n`, with a zero in front if it has one digit.
pub open spec fn two_digits_of(n: nat) -> Seq<char> {
    if n < 10 {
        seq!['0', digit(n as int)]
    } else {
        decimal_of(n)
    }
}

fn digit_char(d: u8) -> (res: char)
    requires
        d < 10,
    ensures
        res == digit(d as int),
{
    (48u8 + d) as char
}

/// Writes `n` in decimal notation.
pub fn decimal(n: u128) -> (res: String)
    ensures
        res@ == decimal_of(n as nat),
    decreases n,
{
    if n < 10 {
        let mut out = String::new();
        out.push(digit_char(n as u8));
        assert(out@ =~= seq![digit(n as int)]);
        out
    } else {
        let mut out = decimal(n / 10);
        out.push(digit_char((n % 10) as u8));
        out
    }
}

/// Writes `n` in decimal notation, with at least two digits.
pub fn two_digits(n: u128) -> (res: String)
    ensures
        res@ == two_digits_of(n as nat),
{
    if n < 10 {
        let mut out = String::new();
        out.push('0');
        out.push(digit_char(n as u8));
        assert(out@ =~= seq!['0', digit(n as int)]);
        out
    } else {
        decimal(n)
    }
}

/// Whether `c` is one of the ten decimal digits.
pub open spec fn is_digit(c: char) -> bool {
    '0' <= c <= '9'
}

/// Whether `s` holds decimal digits only.
pub open spec fn all_digits(s: Seq<char>) -> bool {
    forall|i: int| 0 <= i < s.len() ==> is_digit(#[trigger] s[i])
}

/// The number that a sequence of decimal digits denotes.
pub open spec fn digits_value(s: Seq<char>) -> int
    decreases s.len(),
{
    if s.len() == 0 {
        0
    } else {
        10 * digits_value(s.drop_last()) + (s.last() as int - '0' as int)
    }
}

/// The number from 0 to `max` that `s` denotes: decimal digits, at least one,
/// which a plus sign may precede.
pub open spec fn whole_number(s: Seq<char>, max: int) -> Option<int> {
    let digits = if text::opens_with(s, '+') {
        s.skip(1)
    } else {
        s
    };
    if digits.len() > 0 && all_digits(digits) && digits_value(digits) <= max {
        Some(digits_value(digits))
    } else {
        None
    }
}

/// Reads a number from 0 to `max`.
pub fn parse_whole(s: &str, max: u64) -> (res: Option<u64>)
    ensures
        match res {
            Some(n) => whole_number(s@, max as int) == Some(n as int),
            None => whole_number(s@, max as int) is None,
        },
{
    let digits: &str = match text::strip_first(s, '+') {
        Some(rest) => rest,
        None => s,
    };
    let n: usize = digits.unicode_len();
    if n == 0 {
        return None;
    }
    let mut value: u64 = 0;
    let mut over: bool = false;
    let mut i: usize = 0;
    assert(digits@.take(0) =~= Seq::<char>::empty());
    for c in it: digits.chars()
        invariant
            it.seq() == digits@,
            n == digits@.len(),
            i == it.index(),
            all_digits(digits@.take(i as int)),
            !over ==> value == digits_value(digits@.take(i as int)) && value <= max,
            over ==> digits_value(digits@.take(i as int)) > max,
            digits@ == if text::opens_with(s@, '+') {
                s@.skip(1)
            } else {
                s@
            },
    {
        let ghost upto = digits@.take(i as int);
        let ghost next = digits@.take(i + 1);
        assert(next =~= upto.push(c));
        assert(next.drop_last() =~= upto);
        if !('0' <= c && c <= '9') {
            assert(!is_digit(digits@[i as int]));
            return None;
        }
        let d: u64 = c as u64 - '0' as u64;
        if !over {
            let wide: u128 = value as u128 * 10 + d as u128;
            if wide > max as u128 {
                over = true;
            } else {
                value = wide as u64;
            }
        }
        i = i + 1;
    }
    assert(digits@.take(n as int) =~= digits@);
    if over {
        None
    } else {
        Some(value)
    }
}

// ------------------------------------------------------------ real numbers

/// `c` with an upper-case letter of ASCII made lower case.
pub open spec fn lower(c: char) -> char {
    if 'A' <= c <= 'Z' {
        (c as int + 32) as char
    } else {
        c
    }
}

/// Whether `s` is `w`, whatever the case of its letters. `w` is in lower case.
pub open spec fn spells(s: Seq<char>, w: Seq<char>) -> bool {
    s.len() == w.len() && forall|i: int| 0 <= i < s.len() ==> lower(#[trigger] s[i]) == w[i]
}

/// `s` without the sign that it may start with.
pub open spec fn unsigned(s: Seq<char>) -> Seq<char> {
    if text::opens_with(s, '+') || text::opens_with(s, '-') {
        s.skip(1)
    } else {
        s
    }
}

/// Digits with at most one point among them, and at least one digit.
pub open spec fn is_mantissa(s: Seq<char>) -> bool {
    match text::split_at_first(s, '.') {
        Some((whole, part)) => all_digits(whole) && all_digits(part) && s.len() > 1,
        None => all_digits(s) && s.len() > 0,
    }
}

/// Digits, at least one, which a sign may precede.
pub open spec fn is_exponent(s: Seq<char>) -> bool {
    all_digits(unsigned(s)) && unsigned(s).len() > 0
}

/// A mantissa, which the letter `e` and an exponent may follow.
pub open spec fn is_scientific(s: Seq<char>) -> bool {
    match text::split_at_first(s, 'e') {
        Some((m, x)) => is_mantissa(m) && is_exponent(x),
        None => match text::split_at_first(s, 'E') {
            Some((m, x)) => is_mantissa(m) && is_exponent(x),
            None => is_mantissa(s),
        },
    }
}

/// Whether `s` denotes a real number, an infinity or "not a number": the texts
/// that the standard library reads as a floating-point number.
pub open spec fn is_real(s: Seq<char>) -> bool {
    let body = unsigned(s);
    ||| is_scientific(body)
    ||| spells(body, "inf"@)
    ||| spells(body, "infinity"@)
    ||| spells(body, "nan"@)
}

fn only_digits(s: &str) -> (res: bool)
    ensures
        res == all_digits(s@),
{
    let n: usize = s.unicode_len();
    let mut i: usize = 0;
    for c in it: s.chars()
        invariant
            it.seq() == s@,
            n == s@.len(),
            i == it.index(),
            forall|j: int| 0 <= j < i ==> is_digit(#[trigger] s@[j]),
    {
        if !('0' <= c && c <= '9') {
            assert(!is_digit(s@[i as int]));
            return false;
        }
        i = i + 1;
    }
    true
}

fn lower_char(c: char) -> (res: char)
    ensures
        res == lower(c),
{
    if 'A' <= c && c <= 'Z' {
        (c as u8 + 32) as char
    } else {
        c
    }
}

fn is_spelled(s: &str, w: &str) -> (res: bool)
    ensures
        res == spells(s@, w@),
{
    let n: usize = s.unicode_len();
    if n != w.unicode_len() {
        return false;
    }
    let mut i: usize = 0;
    while i < n
        invariant
            n == s@.len(),
            n == w@.len(),
            i <= n,
            forall|j: int| 0 <= j < i ==> lower(#[trigger] s@[j]) == w@[j],
        decreases n - i,
    {
        if lower_char(s.get_char(i)) != w.get_char(i) {
            assert(lower(s@[i as int]) != w@[i as int]);
            return false;
        }
        i = i + 1;
    }
    true
}

fn drop_sign<'a>(s: &'a str) -> (res: &'a str)
    ensures
        res@ == unsigned(s@),
{
    match text::strip_first(s, '+') {
        Some(rest) => rest,
        None => match text::strip_first(s, '-') {
            Some(rest) => rest,
            None => s,
        },
    }
}

fn reads_as_mantissa(s: &str) -> (res: bool)
    ensures
        res == is_mantissa(s@),
{
    match text::split_once(s, '.') {
        Some((whole, part)) => only_digits(whole) && only_digits(part) && s.unicode_len() > 1,
        None => only_digits(s) && s.unicode_len() > 0,
    }
}

fn reads_as_exponent(s: &str) -> (res: bool)
    ensures
        res == is_exponent(s@),
{
    let body: &str = drop_sign(s);
    only_digits(body) && body.unicode_len() > 0
}

fn reads_as_scientific(s: &str) -> (res: bool)
    ensures
        res == is_scientific(s@),
{
    match text::split_once(s, 'e') {
        Some((m, x)) => reads_as_mantissa(m) && reads_as_exponent(x),
        None => match text::split_once(s, 'E') {
            Some((m, x)) => reads_as_mantissa(m) && reads_as_exponent(x),
            None => reads_as_mantissa(s),
        },
    }
}

/// Whether the text denotes a real number.
pub fn reads_as_real(s: &str) -> (res: bool)
    ensures
        res == is_real(s@),
{
    let body: &str = drop_sign(s);
    reads_as_scientific(body) || is_spelled(body, "inf") || is_spelled(body, "infinity")
        || is_spelled(body, "nan")
}

// -------------------------------------------------------------------- laws

/// Reading the decimal notation of a number gives the number back, wherever it
/// does not exceed the maximum.
pub proof fn decimal_reads_back(n: nat, max: int)
    requires
        n <= max,
    ensures
        whole_number(decimal_of(n), max) == Some(n as int),
{
    lemma_decimal_digits(n);
}

proof fn lemma_decimal_digits(n: nat)
    ensures
        decimal_of(n).len() > 0,
        all_digits(decimal_of(n)),
        digits_value(decimal_of(n)) == n,
    decreases n,
{
    let s = decimal_of(n);
    if n < 10 {
        assert(s.drop_last() =~= Seq::<char>::empty());
        assert(digits_value(s.drop_last()) == 0);
    } else {
        lemma_decimal_digits(n / 10);
        assert(s.drop_last() =~= decimal_of(n / 10));
    }
}

} // verus!
