//! Promises of the notation of numbers.

use vstd::prelude::*;

use crate::laws;
use crate::number;
use crate::text;

verus! {

/// A digit denotes its distance from zero, and digits count by their place: each
/// further digit behind a number multiplies it by ten.
pub proof fn digits_count_by_place(a: Seq<char>, b: Seq<char>, c: char)
    ensures
        number::digits_value(seq![c]) == c as int - 48,
        number::digits_value(a + b) == number::digits_value(a) * vstd::arithmetic::power::pow(10, b.len())
            + number::digits_value(b),
    decreases b.len(),
{
    assert(seq![c].drop_last() =~= Seq::<char>::empty());
    assert(number::digits_value(seq![c].drop_last()) == 0);
    if b.len() == 0 {
        assert(a + b =~= a);
        vstd::arithmetic::power::lemma_pow0(10);
        assert(number::digits_value(a) * 1 == number::digits_value(a));
    } else {
        let d = b.drop_last();
        digits_count_by_place(a, d, c);
        assert((a + b).drop_last() =~= a + d);
        assert((a + b).last() == b.last());
        reveal(vstd::arithmetic::power::pow);
        assert(vstd::arithmetic::power::pow(10, b.len()) == 10 * vstd::arithmetic::power::pow(10, d.len()));
        let v = number::digits_value(a);
        let p = vstd::arithmetic::power::pow(10, d.len());
        assert(10 * (v * p) == v * (10 * p)) by (nonlinear_arith);
    }
}

/// Digits are read as the number that they denote, with or without a plus sign, up to
/// the maximum and no further. Anything else is no number.
pub proof fn whole_numbers_are_digits(s: Seq<char>, max: int)
    ensures
        number::all_digits(s) && s.len() > 0 && number::digits_value(s) <= max
            ==> number::whole_number(s, max) == Some(number::digits_value(s))
            && number::whole_number(seq!['+'] + s, max) == Some(number::digits_value(s)),
        number::all_digits(s) && number::digits_value(s) > max ==> number::whole_number(s, max)
            is None && number::whole_number(seq!['+'] + s, max) is None,
        number::whole_number(s, max) matches Some(n) ==> n <= max && (number::all_digits(s)
            || number::all_digits(s.skip(1)) && s[0] == '+'),
        number::whole_number(Seq::<char>::empty(), max) is None,
        number::whole_number(seq!['+'], max) is None,
{
    assert((seq!['+'] + s).skip(1) =~= s);
    if s.len() > 0 && number::all_digits(s) {
        assert(number::is_digit(s[0]));
    }
    assert(seq!['+'].skip(1) =~= Seq::<char>::empty());
}

/// A digit is one of the ten characters from 0 to 9.
pub proof fn there_are_ten_digits(c: char)
    ensures
        number::is_digit(c) <==> 48 <= c as int <= 57,
        forall|d: int| 0 <= d < 10 ==> number::is_digit(#[trigger] number::digit(d)) && number::digit(
            d,
        ) as int == 48 + d,
{
}

/// Decimal notation is read back, whatever the number, and starts with no zero that is
/// not all of it. With two digits at least, it is as long as it has to be.
pub proof fn notation_reads_back(n: nat, max: int)
    requires
        n <= max,
    ensures
        number::whole_number(number::decimal_of(n), max) == Some(n as int),
        number::whole_number(number::two_digits_of(n), max) == Some(n as int),
        n > 0 ==> number::decimal_of(n)[0] != '0',
        number::decimal_of(0) == seq!['0'],
        number::two_digits_of(n).len() >= 2,
        n < 100 ==> number::two_digits_of(n).len() == 2,
        n >= 10 ==> number::two_digits_of(n) == number::decimal_of(n),
{
    number::decimal_reads_back(n, max);
    lemma_no_leading_zero(n);
    if n < 10 {
        let s = number::two_digits_of(n);
        let z = seq!['0'];
        let d = seq![number::digit(n as int)];
        assert(s =~= z + d);
        digits_count_by_place(z, d, '0');
        digits_count_by_place(z, d, number::digit(n as int));
        vstd::arithmetic::power::lemma_pow1(10);
    }
}

proof fn lemma_no_leading_zero(n: nat)
    ensures
        n > 0 ==> number::decimal_of(n).len() > 0 && number::decimal_of(n)[0] != '0',
        n >= 10 ==> number::decimal_of(n).len() >= 2,
        10 <= n < 100 ==> number::decimal_of(n).len() == 2,
    decreases n,
{
    if n >= 10 {
        lemma_no_leading_zero(n / 10);
        if n < 100 {
            assert(number::decimal_of(n / 10).len() == 1);
        }
        assert(number::decimal_of(n)[0] == number::decimal_of(n / 10)[0]);
    }
}

/// A sign, or none.
pub open spec fn is_sign(s: Seq<char>) -> bool {
    s.len() == 0 || s == seq!['+'] || s == seq!['-']
}

/// An exponent with its letter, or none.
pub open spec fn is_power(s: Seq<char>) -> bool {
    s.len() == 0 || exists|letter: char, sign: Seq<char>, digits: Seq<char>|
        #![trigger is_power_of(s, letter, sign, digits)]
        is_power_of(s, letter, sign, digits)
}

pub open spec fn is_power_of(s: Seq<char>, letter: char, sign: Seq<char>, digits: Seq<char>) -> bool {
    &&& letter == 'e' || letter == 'E'
    &&& is_sign(sign)
    &&& digits.len() > 0
    &&& number::all_digits(digits)
    &&& s == seq![letter] + sign + digits
}

/// Digits, with or without a sign, a point and an exponent, denote a number.
pub proof fn decimals_are_numbers(
    sign: Seq<char>,
    whole: Seq<char>,
    part: Seq<char>,
    power: Seq<char>,
)
    requires
        is_sign(sign),
        number::all_digits(whole),
        number::all_digits(part),
        whole.len() + part.len() > 0,
        is_power(power),
    ensures
        number::is_real(sign + whole + seq!['.'] + part + power),
        whole.len() > 0 ==> number::is_real(sign + whole + power),
{
    let pointed = whole + seq!['.'] + part;
    assert(!whole.contains('.')) by {
        lemma_no_such_digit(whole, '.');
    }
    laws::text::split_takes_apart(whole, '.', part);
    assert(number::is_mantissa(pointed));
    lemma_body(sign, pointed, power);
    assert(sign + whole + seq!['.'] + part + power =~= sign + pointed + power);
    if whole.len() > 0 {
        assert(number::is_mantissa(whole));
        lemma_body(sign, whole, power);
    }
}

proof fn lemma_no_such_digit(s: Seq<char>, c: char)
    requires
        number::all_digits(s),
        !number::is_digit(c),
    ensures
        !s.contains(c),
{
    if s.contains(c) {
        let i = choose|i: int| 0 <= i < s.len() && s[i] == c;
        assert(number::is_digit(s[i]));
    }
}

proof fn lemma_body(sign: Seq<char>, m: Seq<char>, power: Seq<char>)
    requires
        is_sign(sign),
        number::is_mantissa(m),
        is_power(power),
    ensures
        number::is_real(sign + m + power),
{
    let body = m + power;
    lemma_mantissa(m);
    assert(sign + m + power =~= sign + body);
    assert(number::unsigned(sign + body) == body) by {
        if sign.len() > 0 {
            assert((sign + body).skip(1) =~= body);
        } else {
            assert(sign + body =~= body);
            assert(body[0] == m[0]);
        }
    }
    if power.len() == 0 {
        assert(body =~= m);
        laws::text::split_takes_apart(m, 'e', Seq::empty());
        laws::text::split_takes_apart(m, 'E', Seq::empty());
    } else {
        let (letter, s, digits) = choose|letter: char, s: Seq<char>, digits: Seq<char>|
            #![trigger is_power_of(power, letter, s, digits)]
            is_power_of(power, letter, s, digits);
        let x = s + digits;
        assert(body =~= m + seq![letter] + x);
        assert(number::unsigned(x) == digits) by {
            if s.len() > 0 {
                assert(x.skip(1) =~= digits);
            } else {
                assert(x =~= digits);
                assert(number::is_digit(digits[0]));
            }
        }
        assert(number::is_exponent(x));
        laws::text::split_takes_apart(m, letter, x);
        if letter == 'E' {
            lemma_no_such_digit(digits, 'e');
            assert(!body.contains('e')) by {
                assert forall|i: int| 0 <= i < body.len() implies body[i] != 'e' by {
                    if i < m.len() {
                        assert(body[i] == m[i]);
                    } else if i > m.len() + s.len() {
                        assert(body[i] == digits[i - m.len() - 1 - s.len()]);
                    }
                }
            }
            laws::text::split_takes_apart(body, 'e', Seq::empty());
        }
    }
}

proof fn lemma_mantissa(m: Seq<char>)
    requires
        number::is_mantissa(m),
    ensures
        m.len() > 0,
        forall|i: int| 0 <= i < m.len() ==> number::is_digit(#[trigger] m[i]) || m[i] == '.',
        !m.contains('e'),
        !m.contains('E'),
{
    laws::text::split_reassembles(m, '.');
    match text::split_at_first(m, '.') {
        Some((a, b)) => {
            assert forall|i: int| 0 <= i < m.len() implies number::is_digit(#[trigger] m[i]) || m[i]
                == '.' by {
                if i < a.len() {
                    assert(m[i] == a[i]);
                } else if i > a.len() {
                    assert(m[i] == b[i - a.len() - 1]);
                }
            }
        },
        None => {},
    }
}

/// An infinity and "not a number" count as numbers, however their letters are
/// written.
pub proof fn named_numbers(sign: Seq<char>, s: Seq<char>, name: Seq<char>)
    requires
        is_sign(sign),
        name == "inf"@ || name == "infinity"@ || name == "nan"@,
        s.len() == name.len(),
        forall|i: int|
            0 <= i < s.len() ==> (#[trigger] s[i]) == name[i] || s[i] as int + 32 == name[i] as int,
    ensures
        number::is_real(sign + s),
{
    reveal_strlit("inf");
    reveal_strlit("infinity");
    reveal_strlit("nan");
    assert(name[0] == 'i' || name[0] == 'n');
    assert(s[0] == name[0] || s[0] as int + 32 == name[0] as int);
    assert forall|i: int| 0 <= i < s.len() implies number::lower(#[trigger] s[i]) == name[i] by {
        assert('a' <= name[i] <= 'z');
    }
    assert(number::spells(s, name));
    if sign.len() > 0 {
        assert((sign + s).skip(1) =~= s);
    } else {
        assert(sign + s =~= s);
    }
}

/// Whether a text is the name of an infinity or of "not a number", however its letters
/// are written.
pub open spec fn is_named(s: Seq<char>) -> bool {
    ||| is_written(s, "inf"@)
    ||| is_written(s, "infinity"@)
    ||| is_written(s, "nan"@)
}

/// Whether a text is a name in lower case, with any of its letters in upper case.
pub open spec fn is_written(s: Seq<char>, name: Seq<char>) -> bool {
    &&& s.len() == name.len()
    &&& forall|i: int|
        0 <= i < s.len() ==> (#[trigger] s[i]) == name[i] || (65 <= s[i] as int <= 90 && s[i] as int
            + 32 == name[i] as int)
}

/// A text is made of digits if each of its characters is one.
pub proof fn digits_only(s: Seq<char>, i: int)
    ensures
        number::all_digits(s) && 0 <= i < s.len() ==> 48 <= s[i] as int <= 57,
        (forall|j: int| 0 <= j < s.len() ==> 48 <= (#[trigger] s[j]) as int <= 57)
            ==> number::all_digits(s),
{
    if number::all_digits(s) && 0 <= i < s.len() {
        assert(number::is_digit(s[i]));
    }
}

/// Whether a text is a sign, digits with a point among them or not, and an exponent.
pub open spec fn is_decimal(
    s: Seq<char>,
    sign: Seq<char>,
    whole: Seq<char>,
    part: Seq<char>,
    power: Seq<char>,
) -> bool {
    &&& is_sign(sign)
    &&& number::all_digits(whole)
    &&& number::all_digits(part)
    &&& whole.len() + part.len() > 0
    &&& is_power(power)
    &&& s == sign + whole + seq!['.'] + part + power || (part.len() == 0 && s == sign + whole + power)
}

/// Nothing else denotes a number: a text that does is a decimal, or a sign and a name.
pub proof fn numbers_are_decimals_or_named(s: Seq<char>)
    requires
        number::is_real(s),
    ensures
        (exists|sign: Seq<char>, whole: Seq<char>, part: Seq<char>, power: Seq<char>|
            #![trigger is_decimal(s, sign, whole, part, power)]
            is_decimal(s, sign, whole, part, power)) || (exists|sign: Seq<char>, name: Seq<char>|
            #![trigger is_sign(sign), is_named(name)]
            is_sign(sign) && is_named(name) && s == sign + name),
{
    let body = number::unsigned(s);
    let sign = s.take(s.len() - body.len());
    assert(s =~= sign + body);
    assert(is_sign(sign)) by {
        if sign.len() > 0 {
            assert(sign =~= seq![s[0]]);
        }
    }
    if number::is_scientific(body) {
        laws::text::split_reassembles(body, 'e');
        laws::text::split_reassembles(body, 'E');
        let (m, power) = match text::split_at_first(body, 'e') {
            Some((m, x)) => (m, seq!['e'] + x),
            None => match text::split_at_first(body, 'E') {
                Some((m, x)) => (m, seq!['E'] + x),
                None => (body, Seq::empty()),
            },
        };
        assert(body =~= m + power);
        assert(is_power(power)) by {
            if power.len() > 0 {
                lemma_power(power[0], power.skip(1));
                assert(power =~= seq![power[0]] + power.skip(1));
                assert(number::is_exponent(power.skip(1))) by {
                    match text::split_at_first(body, 'e') {
                        Some((_, x)) => {
                            assert(power.skip(1) =~= x);
                        },
                        None => {
                            assert(power.skip(1) =~= (text::split_at_first(body, 'E')->0).1);
                        },
                    }
                }
            }
        }
        laws::text::split_reassembles(m, '.');
        match text::split_at_first(m, '.') {
            Some((whole, part)) => {
                assert(s =~= sign + whole + seq!['.'] + part + power);
                assert(is_decimal(s, sign, whole, part, power));
            },
            None => {
                assert(s =~= sign + m + power);
                assert(is_decimal(s, sign, m, Seq::empty(), power));
            },
        }
    } else {
        assert(is_sign(sign) && is_named(body));
    }
}

proof fn lemma_power(letter: char, x: Seq<char>)
    ensures
        (letter == 'e' || letter == 'E') && number::is_exponent(x) ==> is_power(seq![letter] + x),
{
    if (letter == 'e' || letter == 'E') && number::is_exponent(x) {
        let digits = number::unsigned(x);
        let sign = x.take(x.len() - digits.len());
        if sign.len() > 0 {
            assert(sign =~= seq![x[0]]);
        }
        assert(seq![letter] + x =~= seq![letter] + sign + digits);
        assert(is_power_of(seq![letter] + x, letter, sign, digits));
    }
}

} // verus!
