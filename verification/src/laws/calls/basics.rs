//! What the calls on texts, numbers, quoted values and maps of variables promise.

use vstd::prelude::*;

use crate::laws;
use crate::number;
use crate::quote;
use crate::text;
use crate::vars;
use crate::vars::VarMap;

verus! {

// -------------------------------------------------------------------- texts

/// Two texts are the same if they hold the same characters.
pub proof fn same_texts(a: &str, b: &str, res: bool)
    requires
        call_ensures(text::same, (a, b), res),
    ensures
        res <==> a@ == b@,
{
}

/// Splitting gives what stands before the first occurrence of the character and what
/// stands behind it; without an occurrence there is no split.
pub proof fn splitting(s: &str, c: char, res: Option<(&str, &str)>)
    requires
        call_ensures(text::split_once, (s, c), res),
    ensures
        match res {
            Some((a, b)) => s@ == a@ + seq![c] + b@ && !a@.contains(c),
            None => !s@.contains(c),
        },
{
    laws::text::split_reassembles(s@, c);
}

/// A text starts with another if it is that text and something behind it.
pub proof fn starting(s: &str, p: &str, rest: Seq<char>, res: bool)
    requires
        call_ensures(text::starts_with, (s, p), res),
    ensures
        s@ == p@ + rest ==> res,
        res ==> s@.len() >= p@.len() && s@ == p@ + s@.skip(p@.len() as int),
{
    laws::text::prefix_comes_off(rest, p@);
    if res {
        assert(s@ =~= p@ + s@.skip(p@.len() as int));
    }
}

/// Taking a prefix off gives what stands behind it, where it stands there.
pub proof fn taking_a_prefix_off(s: &str, p: &str, rest: Seq<char>, res: Option<&str>)
    requires
        call_ensures(text::strip_prefix, (s, p), res),
    ensures
        s@ == p@ + rest ==> res is Some && (res->0)@ == rest,
        res is Some ==> s@ == p@ + (res->0)@,
{
    laws::text::prefix_comes_off(rest, p@);
    laws::text::prefix_comes_off(s@, p@);
}

/// A first, or a last, character is taken off where it stands there, and only there.
pub proof fn taking_an_end_off(s: &str, c: char, first: Option<&str>, last: Option<&str>)
    requires
        call_ensures(text::strip_first, (s, c), first),
        call_ensures(text::strip_last, (s, c), last),
    ensures
        match first {
            Some(rest) => s@ == seq![c] + rest@,
            None => s@.len() == 0 || s@[0] != c,
        },
        match last {
            Some(rest) => s@ == rest@.push(c),
            None => s@.len() == 0 || s@.last() != c,
        },
{
    if first is Some {
        assert(s@ =~= seq![c] + (first->0)@);
    }
    if last is Some {
        assert(s@ =~= (last->0)@.push(c));
    }
}

/// White space at the ends comes off, at the start, at the end or at both, up to what is
/// not white.
pub proof fn trimming(
    s: &str,
    left: Seq<char>,
    core: Seq<char>,
    right: Seq<char>,
    start: &str,
    end: &str,
    both: &str,
)
    requires
        call_ensures(text::trim_start, (s,), start),
        call_ensures(text::trim_end, (s,), end),
        call_ensures(text::trim, (s,), both),
        s@ == left + core + right,
        laws::text::blank(left),
        laws::text::blank(right),
        core.len() > 0,
        !text::white(core[0]),
        !text::white(core.last()),
    ensures
        both@ == core,
        start@ == core + right,
        end@ == left + core,
{
    laws::text::space_around_comes_off(left, core, right);
    assert(s@ =~= left + (core + right));
    laws::text::leading_space_comes_off(left, core + right);
    assert(s@ =~= (left + core) + right);
    assert((left + core).last() == core.last());
    laws::text::trailing_space_comes_off(left + core, right);
}

/// Of white space alone nothing is left.
pub proof fn trimming_white_space(s: &str, start: &str, end: &str, both: &str)
    requires
        call_ensures(text::trim_start, (s,), start),
        call_ensures(text::trim_end, (s,), end),
        call_ensures(text::trim, (s,), both),
        laws::text::blank(s@),
    ensures
        start@.len() == 0,
        end@.len() == 0,
        both@.len() == 0,
{
    let none = Seq::<char>::empty();
    laws::text::leading_space_comes_off(s@, none);
    laws::text::trailing_space_comes_off(none, s@);
    laws::text::space_around_comes_off(s@, none, none);
    assert(s@ + none =~= s@);
    assert(none + s@ =~= s@);
    assert(s@ + none + none =~= s@);
}

/// Whether a character is white space.
pub proof fn telling_white_space(c: char, res: bool)
    requires
        call_ensures(text::is_white, (c,), res),
    ensures
        res <==> text::white(c),
{
}

/// The words of a text: the first one between white space, then those of the rest.
pub proof fn words_of_a_text(
    s: &str,
    gap: Seq<char>,
    word: Seq<char>,
    rest: Seq<char>,
    res: Vec<String>,
)
    requires
        call_ensures(text::words, (s,), res),
        laws::text::blank(gap),
        word.len() > 0,
        laws::text::solid(word),
        rest.len() == 0 || text::white(rest[0]),
    ensures
        s@ == gap + word + rest ==> res@.len() == 1 + text::words_of(rest).len() && res@[0]@ == word
            && forall|i: int|
            0 <= i < text::words_of(rest).len() ==> (#[trigger] text::words_of(rest)[i]) == res@[i
                + 1]@,
        s@ == gap ==> res@.len() == 0,
{
    laws::text::words_come_one_by_one(gap, word, rest);
    let all = text::strings_view(res@);
    assert(all.len() == res@.len());
    if s@ == gap + word + rest {
        assert(all[0] == res@[0]@);
        assert forall|i: int| 0 <= i < text::words_of(rest).len() implies (
        #[trigger] text::words_of(rest)[i]) == res@[i + 1]@ by {
            assert(all[i + 1] == res@[i + 1]@);
        }
    }
}

/// The lines of a text, the fields of a line and what stands behind so many spaces, and
/// a text filled up with spaces.
pub proof fn lines_fields_and_padding(
    s: &str,
    n: usize,
    lines: Vec<String>,
    field: Option<&str>,
    behind: Option<&str>,
    padded: String,
)
    requires
        call_ensures(text::lines, (s,), lines),
        call_ensures(text::field, (s, n), field),
        call_ensures(text::after_spaces, (s, n), behind),
        call_ensures(text::padded, (s, n), padded),
    ensures
        lines@.len() == text::lines_of(s@).len(),
        forall|i: int| 0 <= i < lines@.len() ==> (#[trigger] lines@[i])@ == text::lines_of(s@)[i],
        match field {
            Some(f) => text::field_of(s@, n as nat) == Some(f@),
            None => text::field_of(s@, n as nat) is None,
        },
        match behind {
            Some(b) => text::behind_spaces(s@, n as nat) == Some(b@),
            None => text::behind_spaces(s@, n as nat) is None,
        },
        padded@ == text::padded_to(s@, n as nat),
{
    let all = text::strings_view(lines@);
    assert(all.len() == lines@.len());
    assert forall|i: int| 0 <= i < lines@.len() implies (#[trigger] lines@[i])@ == text::lines_of(
        s@,
    )[i] by {
        assert(all[i] == lines@[i]@);
    }
}

// ------------------------------------------------------------------ numbers

/// Numbers are written in decimal notation, which reads back as the number.
pub proof fn writing_numbers(n: u128, plain: String, two: String)
    requires
        call_ensures(number::decimal, (n,), plain),
        call_ensures(number::two_digits, (n,), two),
    ensures
        number::whole_number(plain@, n as int) == Some(n as int),
        number::whole_number(two@, n as int) == Some(n as int),
        two@.len() >= 2,
        n >= 10 ==> two@ == plain@,
        n < 10 ==> two@.len() == 2 && plain@.len() == 1,
{
    number::decimal_reads_back(n as nat, n as int);
    laws::numbers::notation_reads_back(n as nat, n as int);
}

/// A number is read from its digits, which a plus sign may precede, where it does not
/// exceed the maximum.
pub proof fn reading_numbers(s: &str, max: u64, n: u64, res: Option<u64>)
    requires
        call_ensures(number::parse_whole, (s, max), res),
    ensures
        n <= max && s@ == number::decimal_of(n as nat) ==> res == Some(n),
        match res {
            Some(k) => number::whole_number(s@, max as int) == Some(k as int),
            None => number::whole_number(s@, max as int) is None,
        },
{
    if n <= max {
        number::decimal_reads_back(n as nat, max as int);
    }
}

/// Whether a text denotes a real number.
pub proof fn telling_real_numbers(s: &str, res: bool)
    requires
        call_ensures(number::reads_as_real, (s,), res),
    ensures
        res <==> number::is_real(s@),
{
}

// ------------------------------------------------------------------ quoting

/// What is escaped, put between quotation marks and read again is the value that it was,
/// with any white space around it.
pub proof fn quoting_and_unquoting(
    v: &str,
    wire: &str,
    left: Seq<char>,
    right: Seq<char>,
    there: String,
    back: String,
)
    requires
        call_ensures(quote::quote_value, (v,), there),
        call_ensures(quote::unquote, (wire,), back),
        laws::text::blank(left),
        laws::text::blank(right),
        wire@ == left + (seq!['"'] + there@ + seq!['"']) + right,
    ensures
        back@ == v@,
        there@ == quote::escaped(v@),
{
    quote::unquoted_undoes_quoted(v@, left, right);
    assert(wire@ =~= left + quote::quoted(v@) + right);
}

/// What a quoted or plain text stands for.
pub proof fn unquoting(s: &str, res: String)
    requires
        call_ensures(quote::unquote, (s,), res),
    ensures
        res@ == quote::unquoted(s@),
{
}

// --------------------------------------------------------------------- maps

/// A new map holds nothing.
pub proof fn new_map(name: Seq<char>, res: VarMap)
    requires
        call_ensures(VarMap::new, (), res),
    ensures
        !res@.contains_key(name),
{
}

/// A name has the value that it was given last, and other names keep theirs.
pub proof fn giving_a_value(m: &mut VarMap, name: String, value: String, other: Seq<char>)
    requires
        call_ensures(VarMap::insert, (m, name, value), ()),
    ensures
        final(m)@.contains_key(name@),
        final(m)@[name@] == value@,
        other != name@ ==> (final(m)@.contains_key(other) <==> old(m)@.contains_key(other)),
        other != name@ && old(m)@.contains_key(other) ==> final(m)@[other] == old(m)@[other],
{
}

/// Looking a name up gives its value, or nothing where it has none.
pub proof fn looking_up(m: &VarMap, name: &str, res: Option<&str>)
    requires
        call_ensures(VarMap::get, (m, name), res),
    ensures
        m@.contains_key(name@) ==> res is Some && (res->0)@ == m@[name@],
        !m@.contains_key(name@) ==> res is None,
{
}

/// The pairs of a map stand in the order of their names, and each gives its name the
/// value that the map gives it; the number of names is the number of pairs.
pub proof fn listing_pairs(m: &VarMap, res: &Vec<(String, String)>, i: int, j: int)
    requires
        call_ensures(VarMap::entries, (m,), res),
        0 <= i < j < res@.len(),
    ensures
        vars::before(res@[i].0@, res@[j].0@),
        m@.contains_key(res@[i].0@),
        m@[res@[i].0@] == res@[i].1@,
        text::pairs_view(res@) == vars::listing(m@),
{
    let pairs = text::pairs_view(res@);
    assert(pairs[i] == (res@[i].0@, res@[i].1@));
    assert(pairs[j] == (res@[j].0@, res@[j].1@));
    laws::order::listing_is_ordered(pairs, i, j);
}

/// The length of a map is the number of its names.
pub proof fn counting_names(m: &VarMap, res: usize)
    requires
        call_ensures(VarMap::len, (m,), res),
    ensures
        res == m@.dom().len(),
{
}

} // verus!
