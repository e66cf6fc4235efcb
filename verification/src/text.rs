//! Character-level text handling: trimming, splitting, padding.
//!
//! A string is modelled by the sequence of its characters. Every function
//! here is stated over such sequences.

use vstd::prelude::*;

verus! {

// ---------------------------------------------------------------- growing

/// `String::push` puts one character behind those that the string holds.
pub assume_specification[ String::push ](s: &mut String, c: char)
    ensures
        final(s)@ == old(s)@.push(c),
;

/// The characters of each string of a list.
pub open spec fn strings_view(v: Seq<String>) -> Seq<Seq<char>> {
    v.map_values(|s: String| s@)
}

/// The characters of both strings of each pair of a list.
pub open spec fn pairs_view(v: Seq<(String, String)>) -> Seq<(Seq<char>, Seq<char>)> {
    v.map_values(|p: (String, String)| (p.0@, p.1@))
}

/// The characters of an optional string.
pub open spec fn opt_view(o: Option<String>) -> Option<Seq<char>> {
    match o {
        Some(s) => Some(s@),
        None => None,
    }
}

/// The characters of an optional string slice.
pub open spec fn opt_str_view(o: Option<&str>) -> Option<Seq<char>> {
    match o {
        Some(s) => Some(s@),
        None => None,
    }
}

// ---------------------------------------------------------------- slicing

/// The first `n` characters.
fn take<'a>(s: &'a str, n: usize) -> (res: &'a str)
    requires
        n <= s@.len(),
    ensures
        res@ == s@.take(n as int),
{
    s.substring_char(0, n)
}

/// All but the first `n` characters.
fn skip<'a>(s: &'a str, n: usize) -> (res: &'a str)
    requires
        n <= s@.len(),
    ensures
        res@ == s@.skip(n as int),
{
    s.substring_char(n, s.unicode_len())
}

/// Whether the two texts hold the same characters.
pub fn same(a: &str, b: &str) -> (res: bool)
    ensures
        res == (a@ == b@),
{
    a.to_owned() == b.to_owned()
}

/// Where `c` first occurs in `s`, or the length of `s` if it does not.
pub open spec fn find(s: Seq<char>, c: char) -> int
    decreases s.len(),
{
    if s.len() == 0 || s[0] == c {
        0
    } else {
        1 + find(s.drop_first(), c)
    }
}

/// The position that `find` gives is the one place at which `c` stands with no
/// `c` before it.
pub proof fn lemma_find(s: Seq<char>, c: char)
    ensures
        0 <= find(s, c) <= s.len(),
        forall|j: int| 0 <= j < find(s, c) ==> s[j] != c,
        find(s, c) < s.len() ==> s[find(s, c)] == c,
    decreases s.len(),
{
    if s.len() > 0 && s[0] != c {
        let t = s.drop_first();
        lemma_find(t, c);
        assert forall|j: int| 0 <= j < find(s, c) implies s[j] != c by {
            if j > 0 {
                assert(s[j] == t[j - 1]);
            }
        }
    }
}

/// A position with `c` (or the end) at it and no `c` before it is the one that
/// `find` gives.
pub proof fn lemma_find_is(s: Seq<char>, c: char, i: int)
    requires
        0 <= i <= s.len(),
        forall|j: int| 0 <= j < i ==> s[j] != c,
        i < s.len() ==> s[i] == c,
    ensures
        find(s, c) == i,
{
    lemma_find(s, c);
    let f = find(s, c);
    if f < i {
        assert(s[f] != c);
    }
}

/// The text before and behind the first `c`, if there is one.
pub open spec fn split_at_first(s: Seq<char>, c: char) -> Option<(Seq<char>, Seq<char>)> {
    if find(s, c) < s.len() {
        Some((s.take(find(s, c)), s.skip(find(s, c) + 1)))
    } else {
        None
    }
}

fn position(s: &str, c: char) -> (res: usize)
    ensures
        res == find(s@, c),
{
    let mut i: usize = 0;
    let n: usize = s.unicode_len();
    for d in it: s.chars()
        invariant
            it.seq() == s@,
            n == s@.len(),
            i == it.index(),
            forall|j: int| 0 <= j < i ==> s@[j] != c,
    {
        if d == c {
            proof {
                lemma_find_is(s@, c, i as int);
            }
            return i;
        }
        i = i + 1;
    }
    proof {
        lemma_find_is(s@, c, i as int);
    }
    i
}

/// Splits at the first `c`.
pub fn split_once<'a>(s: &'a str, c: char) -> (res: Option<(&'a str, &'a str)>)
    ensures
        match res {
            Some((a, b)) => split_at_first(s@, c) == Some((a@, b@)),
            None => split_at_first(s@, c) is None,
        },
{
    proof {
        lemma_find(s@, c);
    }
    let i: usize = position(s, c);
    if i < s.unicode_len() {
        Some((take(s, i), skip(s, i + 1)))
    } else {
        None
    }
}

/// What is left of `s` behind the prefix `p`, if `s` starts with it.
pub open spec fn without_prefix(s: Seq<char>, p: Seq<char>) -> Option<Seq<char>> {
    if p.is_prefix_of(s) {
        Some(s.skip(p.len() as int))
    } else {
        None
    }
}

/// Whether `s` starts with `p`.
pub fn starts_with(s: &str, p: &str) -> (res: bool)
    ensures
        res == p@.is_prefix_of(s@),
{
    let n: usize = p.unicode_len();
    n <= s.unicode_len() && same(take(s, n), p)
}

/// Takes the prefix `p` off.
pub fn strip_prefix<'a>(s: &'a str, p: &str) -> (res: Option<&'a str>)
    ensures
        opt_str_view(res) == without_prefix(s@, p@),
{
    if starts_with(s, p) {
        Some(skip(s, p.unicode_len()))
    } else {
        None
    }
}

/// Whether `c` is the first character of `s`.
pub open spec fn opens_with(s: Seq<char>, c: char) -> bool {
    s.len() > 0 && s[0] == c
}

/// Whether `c` is the last character of `s`.
pub open spec fn closes_with(s: Seq<char>, c: char) -> bool {
    s.len() > 0 && s.last() == c
}

/// Takes the first character off if it is `c`.
pub fn strip_first<'a>(s: &'a str, c: char) -> (res: Option<&'a str>)
    ensures
        opt_str_view(res) == if opens_with(s@, c) {
            Some(s@.skip(1))
        } else {
            None
        },
{
    if s.unicode_len() > 0 && s.get_char(0) == c {
        Some(skip(s, 1))
    } else {
        None
    }
}

/// Takes the last character off if it is `c`.
pub fn strip_last<'a>(s: &'a str, c: char) -> (res: Option<&'a str>)
    ensures
        opt_str_view(res) == if closes_with(s@, c) {
            Some(s@.drop_last())
        } else {
            None
        },
{
    let n: usize = s.unicode_len();
    if n > 0 && s.get_char(n - 1) == c {
        Some(take(s, n - 1))
    } else {
        None
    }
}

// ------------------------------------------------------------- white space

/// The characters with the Unicode property `White_Space`.
pub open spec fn white(c: char) -> bool {
    ||| '\u{9}' <= c <= '\u{d}'
    ||| c == ' '
    ||| c == '\u{85}'
    ||| c == '\u{a0}'
    ||| c == '\u{1680}'
    ||| '\u{2000}' <= c <= '\u{200a}'
    ||| c == '\u{2028}'
    ||| c == '\u{2029}'
    ||| c == '\u{202f}'
    ||| c == '\u{205f}'
    ||| c == '\u{3000}'
}

/// Whether `c` has the Unicode property `White_Space`.
pub fn is_white(c: char) -> (res: bool)
    ensures
        res == white(c),
{
    ('\u{9}' <= c && c <= '\u{d}') || c == ' ' || c == '\u{85}' || c == '\u{a0}' || c == '\u{1680}'
        || ('\u{2000}' <= c && c <= '\u{200a}') || c == '\u{2028}' || c == '\u{2029}' || c
        == '\u{202f}' || c == '\u{205f}' || c == '\u{3000}'
}

/// `s` without the white space that it starts with.
pub open spec fn trimmed_start(s: Seq<char>) -> Seq<char>
    decreases s.len(),
{
    if s.len() > 0 && white(s[0]) {
        trimmed_start(s.drop_first())
    } else {
        s
    }
}

/// `s` without the white space that it ends with.
pub open spec fn trimmed_end(s: Seq<char>) -> Seq<char>
    decreases s.len(),
{
    if s.len() > 0 && white(s.last()) {
        trimmed_end(s.drop_last())
    } else {
        s
    }
}

/// `s` without the white space at both its ends.
pub open spec fn trimmed(s: Seq<char>) -> Seq<char> {
    trimmed_end(trimmed_start(s))
}

/// How many characters stand before the first white one.
pub open spec fn word_len(s: Seq<char>) -> int
    decreases s.len(),
{
    if s.len() == 0 || white(s[0]) {
        0
    } else {
        1 + word_len(s.drop_first())
    }
}

proof fn lemma_trimmed_start_shorter(s: Seq<char>)
    ensures
        trimmed_start(s).len() <= s.len(),
        trimmed_start(s).len() > 0 ==> !white(trimmed_start(s)[0]),
    decreases s.len(),
{
    if s.len() > 0 && white(s[0]) {
        lemma_trimmed_start_shorter(s.drop_first());
    }
}

proof fn lemma_word_len(s: Seq<char>)
    ensures
        0 <= word_len(s) <= s.len(),
    decreases s.len(),
{
    if s.len() > 0 && !white(s[0]) {
        lemma_word_len(s.drop_first());
    }
}

/// The maximal runs of characters that are not white space, in order.
pub open spec fn words_of(s: Seq<char>) -> Seq<Seq<char>>
    decreases s.len(),
    via words_of_shrinks
{
    let t = trimmed_start(s);
    if t.len() == 0 {
        Seq::empty()
    } else {
        seq![t.take(word_len(t))] + words_of(t.skip(word_len(t)))
    }
}

#[via_fn]
proof fn words_of_shrinks(s: Seq<char>) {
    lemma_trimmed_start_shorter(s);
    lemma_word_len(trimmed_start(s));
    if trimmed_start(s).len() > 0 {
        lemma_word_len(trimmed_start(s).drop_first());
    }
}

/// Takes off the leading white space.
pub fn trim_start<'a>(s: &'a str) -> (res: &'a str)
    ensures
        res@ == trimmed_start(s@),
{
    let n: usize = s.unicode_len();
    let mut i: usize = 0;
    assert(s@.skip(0) =~= s@);
    for c in it: s.chars()
        invariant
            it.seq() == s@,
            n == s@.len(),
            i == it.index(),
            trimmed_start(s@) == trimmed_start(s@.skip(i as int)),
    {
        assert(s@.skip(i as int)[0] == c);
        if !is_white(c) {
            return skip(s, i);
        }
        assert(s@.skip(i as int).drop_first() =~= s@.skip(i + 1));
        i = i + 1;
    }
    skip(s, i)
}

/// Takes off the trailing white space.
pub fn trim_end<'a>(s: &'a str) -> (res: &'a str)
    ensures
        res@ == trimmed_end(s@),
{
    let n: usize = s.unicode_len();
    // The end of the last character that is not white.
    let mut end: usize = 0;
    let mut i: usize = 0;
    for c in it: s.chars()
        invariant
            it.seq() == s@,
            n == s@.len(),
            i == it.index(),
            end <= i,
            end > 0 ==> !white(s@[end - 1]),
            forall|j: int| end <= j < i ==> white(s@[j]),
    {
        i = i + 1;
        if !is_white(c) {
            end = i;
        }
    }
    proof {
        lemma_trimmed_end_at(s@, end as int);
    }
    take(s, end)
}

proof fn lemma_trimmed_end_at(s: Seq<char>, end: int)
    requires
        0 <= end <= s.len(),
        end > 0 ==> !white(s[end - 1]),
        forall|j: int| end <= j < s.len() ==> white(s[j]),
    ensures
        trimmed_end(s) == s.take(end),
    decreases s.len(),
{
    if s.len() > end {
        lemma_trimmed_end_at(s.drop_last(), end);
        assert(s.drop_last().take(end) =~= s.take(end));
    } else {
        assert(s.take(end) =~= s);
    }
}

/// Trimming the end of a text does not reach back over a character that is not
/// white.
pub proof fn lemma_trimmed_end_stops(s: Seq<char>, rest: Seq<char>)
    requires
        s.len() > 0,
        !white(s.last()),
    ensures
        trimmed_end(s + rest) == s + trimmed_end(rest),
    decreases rest.len(),
{
    let all = s + rest;
    if rest.len() == 0 {
        assert(all =~= s);
        assert(s + trimmed_end(rest) =~= s);
    } else {
        assert(all.last() == rest.last());
        if white(rest.last()) {
            assert(all.drop_last() =~= s + rest.drop_last());
            lemma_trimmed_end_stops(s, rest.drop_last());
        }
    }
}

/// Trimming takes off white space up to the first and the last character that
/// is not white, and no further.
pub proof fn lemma_trimmed_is(left: Seq<char>, s: Seq<char>, right: Seq<char>)
    requires
        s.len() > 0,
        !white(s[0]),
        !white(s.last()),
        forall|i: int| 0 <= i < left.len() ==> white(#[trigger] left[i]),
        forall|i: int| 0 <= i < right.len() ==> white(#[trigger] right[i]),
    ensures
        trimmed(left + s + right) == s,
    decreases left.len(),
{
    let all = left + s + right;
    if left.len() > 0 {
        assert(all.drop_first() =~= left.drop_first() + s + right);
        lemma_trimmed_is(left.drop_first(), s, right);
    } else {
        assert(all =~= s + right);
        lemma_trimmed_end_at(all, s.len() as int);
        assert(all.take(s.len() as int) =~= s);
    }
}

/// Takes off the white space at both ends.
pub fn trim<'a>(s: &'a str) -> (res: &'a str)
    ensures
        res@ == trimmed(s@),
{
    trim_end(trim_start(s))
}

fn first_word_len(s: &str) -> (res: usize)
    ensures
        res == word_len(s@),
        res <= s@.len(),
{
    let n: usize = s.unicode_len();
    let mut i: usize = 0;
    assert(s@.skip(0) =~= s@);
    for c in it: s.chars()
        invariant
            it.seq() == s@,
            n == s@.len(),
            i == it.index(),
            word_len(s@) == i + word_len(s@.skip(i as int)),
    {
        assert(s@.skip(i as int)[0] == c);
        if is_white(c) {
            return i;
        }
        assert(s@.skip(i as int).drop_first() =~= s@.skip(i + 1));
        i = i + 1;
    }
    i
}

/// Splits at runs of white space.
pub fn words(s: &str) -> (res: Vec<String>)
    ensures
        strings_view(res@) == words_of(s@),
{
    let mut out: Vec<String> = Vec::new();
    let mut rest: &str = trim_start(s);
    let ghost mut left: Seq<char> = s@;
    assert(strings_view(out@) + words_of(s@) =~= words_of(s@));
    while rest.unicode_len() > 0
        invariant
            rest@ == trimmed_start(left),
            strings_view(out@) + words_of(left) == words_of(s@),
        decreases left.len(),
    {
        proof {
            lemma_trimmed_start_shorter(left);
            lemma_word_len(rest@.drop_first());
        }
        let n: usize = first_word_len(rest);
        let ghost before = strings_view(out@);
        out.push(take(rest, n).to_owned());
        assert(strings_view(out@) =~= before.push(rest@.take(n as int)));
        proof {
            left = rest@.skip(n as int);
            assert(strings_view(out@) + words_of(left) =~= before + (seq![rest@.take(n as int)]
                + words_of(left)));
        }
        rest = trim_start(skip(rest, n));
    }
    assert(strings_view(out@) + words_of(left) =~= strings_view(out@));
    out
}

// ------------------------------------------------------------------- lines

/// A line without the carriage return that it ends with, if it does.
pub open spec fn without_cr(s: Seq<char>) -> Seq<char> {
    if closes_with(s, '\r') {
        s.drop_last()
    } else {
        s
    }
}

/// The lines of a text. A line ends with a line feed, before which a carriage
/// return may stand, or with the text.
pub open spec fn lines_of(s: Seq<char>) -> Seq<Seq<char>>
    decreases s.len(),
    via lines_of_shrinks
{
    if s.len() == 0 {
        Seq::empty()
    } else if find(s, '\n') < s.len() {
        seq![without_cr(s.take(find(s, '\n')))] + lines_of(s.skip(find(s, '\n') + 1))
    } else {
        seq![s]
    }
}

#[via_fn]
proof fn lines_of_shrinks(s: Seq<char>) {
    lemma_find(s, '\n');
}

fn drop_cr<'a>(s: &'a str) -> (res: &'a str)
    ensures
        res@ == without_cr(s@),
{
    match strip_last(s, '\r') {
        Some(rest) => rest,
        None => s,
    }
}

/// Splits a text into its lines.
pub fn lines(s: &str) -> (res: Vec<String>)
    ensures
        strings_view(res@) == lines_of(s@),
{
    let mut out: Vec<String> = Vec::new();
    let mut rest: &str = s;
    assert(strings_view(out@) + lines_of(s@) =~= lines_of(s@));
    while rest.unicode_len() > 0
        invariant
            strings_view(out@) + lines_of(rest@) == lines_of(s@),
        decreases rest@.len(),
    {
        let ghost before = strings_view(out@);
        proof {
            lemma_find(rest@, '\n');
        }
        match split_once(rest, '\n') {
            Some((line, more)) => {
                out.push(drop_cr(line).to_owned());
                assert(strings_view(out@) =~= before.push(without_cr(line@)));
                assert(strings_view(out@) + lines_of(more@) =~= before + lines_of(rest@));
                rest = more;
            },
            None => {
                out.push(rest.to_owned());
                assert(strings_view(out@) =~= before.push(rest@));
                assert(strings_view(out@) =~= before + lines_of(rest@));
                return out;
            },
        }
    }
    assert(strings_view(out@) + lines_of(rest@) =~= strings_view(out@));
    out
}

// ------------------------------------------------------------------ fields

/// What follows the first `n` spaces, if there are that many.
pub open spec fn behind_spaces(s: Seq<char>, n: nat) -> Option<Seq<char>>
    decreases n,
{
    if n == 0 {
        Some(s)
    } else {
        match split_at_first(s, ' ') {
            Some((_, rest)) => behind_spaces(rest, (n - 1) as nat),
            None => None,
        }
    }
}

/// The text between the `n`-th space and the next one. The first field has the
/// number 0; a field may be empty.
pub open spec fn field_of(s: Seq<char>, n: nat) -> Option<Seq<char>> {
    match behind_spaces(s, n) {
        Some(rest) => Some(rest.take(find(rest, ' '))),
        None => None,
    }
}

/// Finds what follows the first `n` spaces.
pub fn after_spaces<'a>(s: &'a str, n: usize) -> (res: Option<&'a str>)
    ensures
        opt_str_view(res) == behind_spaces(s@, n as nat),
{
    let mut rest: &str = s;
    let mut left: usize = n;
    while left > 0
        invariant
            behind_spaces(rest@, left as nat) == behind_spaces(s@, n as nat),
        decreases left,
    {
        match split_once(rest, ' ') {
            Some((_, more)) => {
                rest = more;
            },
            None => {
                return None;
            },
        }
        left = left - 1;
    }
    Some(rest)
}

/// Finds the field with the number `n`.
pub fn field<'a>(s: &'a str, n: usize) -> (res: Option<&'a str>)
    ensures
        opt_str_view(res) == field_of(s@, n as nat),
{
    match after_spaces(s, n) {
        Some(rest) => {
            proof {
                lemma_find(rest@, ' ');
            }
            Some(take(rest, position(rest, ' ')))
        },
        None => None,
    }
}

// ----------------------------------------------------------------- padding

/// `s` with as many spaces behind it as make `width` characters of it; a
/// longer text stays as it is.
pub open spec fn padded_to(s: Seq<char>, width: nat) -> Seq<char> {
    if s.len() >= width {
        s
    } else {
        s + Seq::new((width - s.len()) as nat, |i: int| ' ')
    }
}

/// Fills a text up with spaces to `width` characters.
pub fn padded(s: &str, width: usize) -> (res: String)
    ensures
        res@ == padded_to(s@, width as nat),
{
    let mut out: String = s.to_owned();
    let mut n: usize = s.unicode_len();
    assert(out@ =~= s@ + Seq::new(0, |i: int| ' '));
    while n < width
        invariant
            s@.len() <= n,
            n <= width || n == s@.len(),
            out@ == s@ + Seq::new((n - s@.len()) as nat, |i: int| ' '),
        decreases width - n,
    {
        out.push(' ');
        n = n + 1;
        assert(out@ =~= s@ + Seq::new((n - s@.len()) as nat, |i: int| ' '));
    }
    assert(s@ + Seq::new(0, |i: int| ' ') =~= s@);
    out
}

} // verus!
