//! Promises of the quoting of values.

use vstd::prelude::*;

use crate::laws;
use crate::quote;
use crate::text;

verus! {

/// A text in which nothing has to be escaped goes over the wire as it is, and one
/// without escapes comes back as it is.
pub proof fn plain_text_stays(v: Seq<char>)
    ensures
        !v.contains('\\') && !v.contains('"') ==> quote::escaped(v) == v,
        !v.contains('\\') ==> quote::unescaped(v) == v,
    decreases v.len(),
{
    if v.len() > 0 {
        let rest = v.drop_first();
        plain_text_stays(rest);
        assert(v =~= seq![v[0]] + rest);
        assert forall|c: char| #[trigger] rest.contains(c) implies v.contains(c) by {
            let i = choose|i: int| 0 <= i < rest.len() && rest[i] == c;
            assert(v[i + 1] == c);
        }
        assert(v.contains(v[0]));
    } else {
        assert(v =~= Seq::<char>::empty());
    }
}

/// Texts are escaped piece by piece; a quotation mark and a backslash get a backslash
/// before them.
pub proof fn escapes_piece_by_piece(a: Seq<char>, b: Seq<char>)
    ensures
        quote::escaped(a + b) == quote::escaped(a) + quote::escaped(b),
        quote::escaped(seq!['"']) == seq!['\\', '"'],
        quote::escaped(seq!['\\']) == seq!['\\', '\\'],
    decreases a.len(),
{
    assert(seq!['"'].drop_first() =~= Seq::<char>::empty());
    assert(seq!['\\'].drop_first() =~= Seq::<char>::empty());
    assert(quote::escaped(Seq::<char>::empty()) =~= Seq::<char>::empty());
    assert(quote::escaped(seq!['"']) =~= seq!['\\', '"']);
    assert(quote::escaped(seq!['\\']) =~= seq!['\\', '\\']);
    if a.len() > 0 {
        escapes_piece_by_piece(a.drop_first(), b);
        assert((a + b).drop_first() =~= a.drop_first() + b);
        assert((a + b)[0] == a[0]);
        assert(quote::escaped(a + b) =~= quote::escaped(a) + quote::escaped(b));
    } else {
        assert(a + b =~= b);
        assert(quote::escaped(a) + quote::escaped(b) =~= quote::escaped(b));
    }
}

/// A backslash keeps the character behind it, whatever it is, and goes itself.
pub proof fn backslash_keeps_the_next(a: Seq<char>, c: char, b: Seq<char>)
    requires
        !a.contains('\\'),
    ensures
        quote::unescaped(a + seq!['\\', c] + b) == a + seq![c] + quote::unescaped(b),
    decreases a.len(),
{
    let all = a + seq!['\\', c] + b;
    if a.len() > 0 {
        let rest = a.drop_first();
        assert forall|d: char| #[trigger] rest.contains(d) implies a.contains(d) by {
            let i = choose|i: int| 0 <= i < rest.len() && rest[i] == d;
            assert(a[i + 1] == d);
        }
        backslash_keeps_the_next(rest, c, b);
        assert(all.drop_first() =~= rest + seq!['\\', c] + b);
        assert(all[0] == a[0]);
        assert(a.contains(a[0]));
        assert(a + seq![c] + quote::unescaped(b) =~= seq![a[0]] + (rest + seq![c]
            + quote::unescaped(b)));
    } else {
        assert(all.drop_first() =~= seq![c] + b);
        assert((seq![c] + b).drop_first() =~= b);
        assert(quote::unescaped(all) == quote::kept_then_unescaped(all.drop_first()));
        assert(a + seq![c] + quote::unescaped(b) =~= seq![c] + quote::unescaped(b));
    }
}

/// A backslash at the end has nothing to keep and goes.
pub proof fn last_backslash_goes(a: Seq<char>)
    requires
        !a.contains('\\'),
    ensures
        quote::unescaped(a.push('\\')) == a,
    decreases a.len(),
{
    let all = a.push('\\');
    if a.len() > 0 {
        let rest = a.drop_first();
        assert forall|d: char| #[trigger] rest.contains(d) implies a.contains(d) by {
            let i = choose|i: int| 0 <= i < rest.len() && rest[i] == d;
            assert(a[i + 1] == d);
        }
        last_backslash_goes(rest);
        assert(all.drop_first() =~= rest.push('\\'));
        assert(all[0] == a[0]);
        assert(a.contains(a[0]));
        assert(a =~= seq![a[0]] + rest);
    } else {
        assert(all.drop_first() =~= Seq::<char>::empty());
        assert(quote::unescaped(all) == quote::kept_then_unescaped(all.drop_first()));
        assert(a =~= Seq::<char>::empty());
    }
}

/// On the wire a value stands between quotation marks, escaped.
pub proof fn quoted_value_in_marks(v: Seq<char>)
    ensures
        quote::quoted(v).len() == quote::escaped(v).len() + 2,
        quote::quoted(v)[0] == '"',
        quote::quoted(v).last() == '"',
        quote::quoted(v).skip(1).drop_last() == quote::escaped(v),
{
    assert(quote::quoted(v).skip(1).drop_last() =~= quote::escaped(v));
}

/// A value that stands between quotation marks loses them; one with a mark at one end
/// only, or at none, keeps what it has. White space around it goes.
pub proof fn marks_come_off_in_pairs(left: Seq<char>, v: Seq<char>, right: Seq<char>)
    requires
        laws::text::blank(left),
        laws::text::blank(right),
        !v.contains('\\'),
        v.len() > 0,
        !text::white(v[0]),
        !text::white(v.last()),
    ensures
        quote::unquoted(left + (seq!['"'] + v + seq!['"']) + right) == v,
        v[0] != '"' || v.last() != '"' || v.len() == 1 ==> quote::unquoted(left + v + right) == v,
{
    let q = seq!['"'] + v + seq!['"'];
    assert(q.last() == '"');
    laws::text::space_around_comes_off(left, q, right);
    assert(q.skip(1).drop_last() =~= v);
    assert(q.skip(1).last() == '"');
    plain_text_stays(v);
    laws::text::space_around_comes_off(left, v, right);
    if v.len() > 1 {
        assert(v.skip(1).last() == v.last());
    }
}

/// What a text on the wire stands for: without white space around it, without the marks
/// where it has one at each end, and without escapes.
pub proof fn unquoting_in_general(left: Seq<char>, s: Seq<char>, right: Seq<char>)
    requires
        laws::text::blank(left),
        laws::text::blank(right),
        s.len() > 0 ==> !text::white(s[0]) && !text::white(s.last()),
    ensures
        s.len() >= 2 && s[0] == '"' && s.last() == '"' ==> quote::unquoted(left + s + right)
            == quote::unescaped(s.subrange(1, s.len() - 1)),
        s.len() < 2 || s[0] != '"' || s.last() != '"' ==> quote::unquoted(left + s + right)
            == quote::unescaped(s),
        s.len() == 0 ==> quote::unquoted(left + s + right).len() == 0,
{
    laws::text::space_around_comes_off(left, s, right);
    if s.len() >= 2 {
        assert(s.skip(1).last() == s.last());
        assert(s.skip(1).drop_last() =~= s.subrange(1, s.len() - 1));
    }
}

} // verus!
