//! How values are quoted on the wire.

use vstd::prelude::*;

use crate::text;

verus! {

/// `v` with a backslash before each backslash and each quotation mark.
pub open spec fn escaped(v: Seq<char>) -> Seq<char>
    decreases v.len(),
{
    if v.len() == 0 {
        Seq::empty()
    } else if v[0] == '\\' || v[0] == '"' {
        seq!['\\', v[0]] + escaped(v.drop_first())
    } else {
        seq![v[0]] + escaped(v.drop_first())
    }
}

/// `s` with each backslash taken away and the character behind it kept.
pub open spec fn unescaped(s: Seq<char>) -> Seq<char>
    decreases s.len(),
{
    if s.len() == 0 {
        Seq::empty()
    } else if s[0] == '\\' {
        kept_then_unescaped(s.drop_first())
    } else {
        seq![s[0]] + unescaped(s.drop_first())
    }
}

/// The first character of `s` as it stands, then the rest without escapes.
pub open spec fn kept_then_unescaped(s: Seq<char>) -> Seq<char>
    decreases s.len(),
{
    if s.len() == 0 {
        Seq::empty()
    } else {
        seq![s[0]] + unescaped(s.drop_first())
    }
}

/// `s` without the quotation marks around it. A mark at one end only stays.
pub open spec fn unwrapped(s: Seq<char>) -> Seq<char> {
    if text::opens_with(s, '"') && text::closes_with(s.skip(1), '"') {
        s.skip(1).drop_last()
    } else {
        s
    }
}

/// The value that a quoted or plain text stands for.
pub open spec fn unquoted(s: Seq<char>) -> Seq<char> {
    unescaped(unwrapped(text::trimmed(s)))
}

/// `v` between quotation marks, as it goes over the wire.
pub open spec fn quoted(v: Seq<char>) -> Seq<char> {
    seq!['"'] + escaped(v) + seq!['"']
}

/// Escapes a value for the wire: what `unquote` undoes.
pub fn quote_value(v: &str) -> (res: String)
    ensures
        res@ == escaped(v@),
{
    let mut out = String::new();
    let mut i: usize = 0;
    let n: usize = v.unicode_len();
    assert(v@.skip(0) =~= v@);
    assert(out@ + escaped(v@) =~= escaped(v@));
    for c in it: v.chars()
        invariant
            it.seq() == v@,
            n == v@.len(),
            i == it.index(),
            out@ + escaped(v@.skip(i as int)) == escaped(v@),
    {
        let ghost before = out@;
        let ghost rest = v@.skip(i + 1);
        assert(v@.skip(i as int)[0] == c);
        assert(v@.skip(i as int).drop_first() =~= rest);
        if c == '\\' || c == '"' {
            out.push('\\');
        }
        out.push(c);
        assert(out@ + escaped(rest) =~= before + escaped(v@.skip(i as int)));
        i = i + 1;
    }
    assert(out@ + escaped(v@.skip(n as int)) =~= out@);
    out
}

/// Takes the quotation marks and the escapes away.
pub fn unquote(s: &str) -> (res: String)
    ensures
        res@ == unquoted(s@),
{
    let t: &str = text::trim(s);
    let inner: &str = match text::strip_first(t, '"') {
        Some(rest) => match text::strip_last(rest, '"') {
            Some(within) => within,
            None => t,
        },
        None => t,
    };
    assert(inner@ == unwrapped(t@));
    let mut out = String::new();
    let mut escape: bool = false;
    let mut i: usize = 0;
    let n: usize = inner.unicode_len();
    assert(inner@.skip(0) =~= inner@);
    assert(out@ + unescaped(inner@) =~= unescaped(inner@));
    for c in it: inner.chars()
        invariant
            it.seq() == inner@,
            n == inner@.len(),
            i == it.index(),
            !escape ==> out@ + unescaped(inner@.skip(i as int)) == unescaped(inner@),
            escape ==> out@ + kept_then_unescaped(inner@.skip(i as int)) == unescaped(inner@),
    {
        let ghost before = out@;
        let ghost rest = inner@.skip(i + 1);
        assert(inner@.skip(i as int)[0] == c);
        assert(inner@.skip(i as int).drop_first() =~= rest);
        if escape {
            out.push(c);
            escape = false;
            assert(out@ + unescaped(rest) =~= before + (seq![c] + unescaped(rest)));
        } else if c == '\\' {
            escape = true;
        } else {
            out.push(c);
            assert(out@ + unescaped(rest) =~= before + (seq![c] + unescaped(rest)));
        }
        i = i + 1;
    }
    assert(out@ + Seq::<char>::empty() =~= out@);
    out
}

// -------------------------------------------------------------------- laws

/// Taking escapes away undoes putting them in.
pub proof fn unescaped_undoes_escaped(v: Seq<char>)
    ensures
        unescaped(escaped(v)) == v,
    decreases v.len(),
{
    if v.len() > 0 {
        let rest = escaped(v.drop_first());
        unescaped_undoes_escaped(v.drop_first());
        if v[0] == '\\' || v[0] == '"' {
            assert(escaped(v).drop_first() =~= seq![v[0]] + rest);
            assert((seq![v[0]] + rest).drop_first() =~= rest);
            assert(kept_then_unescaped(seq![v[0]] + rest) == seq![v[0]] + unescaped(rest));
        } else {
            assert(escaped(v).drop_first() =~= rest);
        }
        assert(v =~= seq![v[0]] + v.drop_first());
    } else {
        assert(v =~= Seq::<char>::empty());
    }
}

/// Unquoting undoes quoting: a value that was escaped and put between quotation
/// marks comes back as it was, whatever characters it holds and whatever white
/// space stands around the marks.
pub proof fn unquoted_undoes_quoted(v: Seq<char>, left: Seq<char>, right: Seq<char>)
    requires
        forall|i: int| 0 <= i < left.len() ==> text::white(#[trigger] left[i]),
        forall|i: int| 0 <= i < right.len() ==> text::white(#[trigger] right[i]),
    ensures
        unquoted(left + quoted(v) + right) == v,
{
    let q = quoted(v);
    text::lemma_trimmed_is(left, q, right);
    assert(q.skip(1).drop_last() =~= escaped(v));
    assert(q.skip(1).last() == '"');
    unescaped_undoes_escaped(v);
}

/// Whether a text is made of characters that need no escape, and of backslashes each
/// before a backslash or a quotation mark.
pub open spec fn well_escaped(w: Seq<char>) -> bool
    decreases w.len(),
{
    if w.len() == 0 {
        true
    } else if w[0] == '\\' {
        w.len() > 1 && (w[1] == '\\' || w[1] == '"') && well_escaped(w.skip(2))
    } else {
        w[0] != '"' && well_escaped(w.drop_first())
    }
}

/// Putting escapes in undoes taking them away, wherever they stood where they are
/// put in. With [`unescaped_undoes_escaped`], each is the inverse of the other.
pub proof fn escaped_undoes_unescaped(w: Seq<char>)
    requires
        well_escaped(w),
    ensures
        escaped(unescaped(w)) == w,
    decreases w.len(),
{
    if w.len() == 0 {
        assert(w =~= Seq::<char>::empty());
    } else if w[0] == '\\' {
        let rest = w.skip(2);
        escaped_undoes_unescaped(rest);
        let behind = w.drop_first();
        assert(behind.drop_first() =~= rest);
        assert(unescaped(w) == kept_then_unescaped(behind));
        assert(kept_then_unescaped(behind) == seq![w[1]] + unescaped(rest));
        assert((seq![w[1]] + unescaped(rest)).drop_first() =~= unescaped(rest));
        assert(seq!['\\', w[1]] + rest =~= w);
    } else {
        let rest = w.drop_first();
        escaped_undoes_unescaped(rest);
        assert((seq![w[0]] + unescaped(rest)).drop_first() =~= unescaped(rest));
        assert(seq![w[0]] + rest =~= w);
    }
}

/// What is escaped is well escaped.
pub proof fn escaped_is_well_escaped(v: Seq<char>)
    ensures
        well_escaped(escaped(v)),
    decreases v.len(),
{
    if v.len() > 0 {
        let rest = escaped(v.drop_first());
        escaped_is_well_escaped(v.drop_first());
        if v[0] == '\\' || v[0] == '"' {
            assert(escaped(v).skip(2) =~= rest);
        } else {
            assert(escaped(v).drop_first() =~= rest);
        }
    }
}

} // verus!
