//! Promises of the text handling: how splitting, trimming, fields, lines and words
//! undo putting texts together.

use vstd::prelude::*;

use crate::text;

verus! {

/// Whether a text is made of white space only.
pub open spec fn blank(s: Seq<char>) -> bool {
    forall|i: int| 0 <= i < s.len() ==> text::white(#[trigger] s[i])
}

/// Whether a text holds no white space.
pub open spec fn solid(s: Seq<char>) -> bool {
    forall|i: int| 0 <= i < s.len() ==> !text::white(#[trigger] s[i])
}

/// White space is what Unicode calls so: these characters and no others.
pub proof fn white_space_characters(c: char)
    ensures
        text::white(c) <==> {
            let n = c as int;
            ||| 9 <= n <= 13
            ||| n == 32
            ||| n == 133
            ||| n == 160
            ||| n == 5760
            ||| 8192 <= n <= 8202
            ||| n == 8232
            ||| n == 8233
            ||| n == 8239
            ||| n == 8287
            ||| n == 12288
        },
{
}

/// A text is split at the first place where the character stands, and is whole again
/// with the character put back. It is not split where the character does not occur.
pub proof fn split_reassembles(s: Seq<char>, c: char)
    ensures
        match text::split_at_first(s, c) {
            Some((a, b)) => a + seq![c] + b == s && !a.contains(c),
            None => !s.contains(c),
        },
{
    text::lemma_find(s, c);
    if let Some((a, b)) = text::split_at_first(s, c) {
        assert(a + seq![c] + b =~= s);
    }
}

/// What stands before the first occurrence of a character, and behind it, comes back.
pub proof fn split_takes_apart(a: Seq<char>, c: char, b: Seq<char>)
    requires
        !a.contains(c),
    ensures
        text::split_at_first(a + seq![c] + b, c) == Some((a, b)),
        text::split_at_first(a, c) is None,
{
    let s = a + seq![c] + b;
    assert forall|j: int| 0 <= j < a.len() implies s[j] != c by {
        assert(s[j] == a[j]);
    }
    text::lemma_find_is(s, c, a.len() as int);
    assert(s.take(a.len() as int) =~= a);
    assert(s.skip(a.len() as int + 1) =~= b);
    text::lemma_find_is(a, c, a.len() as int);
}

/// A prefix is taken off exactly where it stands.
pub proof fn prefix_comes_off(s: Seq<char>, p: Seq<char>)
    ensures
        text::without_prefix(p + s, p) == Some(s),
        text::without_prefix(s, p) matches Some(rest) ==> s == p + rest,
{
    assert((p + s).subrange(0, p.len() as int) =~= p);
    assert((p + s).skip(p.len() as int) =~= s);
    if let Some(rest) = text::without_prefix(s, p) {
        assert(s =~= p + rest);
    }
}

/// A character opens the texts that start with it, and closes those that end with it,
/// and no others.
pub proof fn ends_of_a_text(s: Seq<char>, c: char, d: char)
    ensures
        text::opens_with(seq![c] + s, c),
        text::closes_with(s.push(c), c),
        c != d ==> !text::opens_with(seq![c] + s, d) && !text::closes_with(s.push(c), d),
        !text::opens_with(Seq::<char>::empty(), c),
        !text::closes_with(Seq::<char>::empty(), c),
{
}

/// Leading white space comes off, up to the first character that is not white.
pub proof fn leading_space_comes_off(gap: Seq<char>, s: Seq<char>)
    requires
        blank(gap),
        s.len() == 0 || !text::white(s[0]),
    ensures
        text::trimmed_start(gap + s) == s,
    decreases gap.len(),
{
    let all = gap + s;
    if gap.len() > 0 {
        assert(all[0] == gap[0]);
        assert(all.drop_first() =~= gap.drop_first() + s);
        leading_space_comes_off(gap.drop_first(), s);
    } else {
        assert(all =~= s);
    }
}

/// Trailing white space comes off, up to the last character that is not white.
pub proof fn trailing_space_comes_off(s: Seq<char>, gap: Seq<char>)
    requires
        blank(gap),
        s.len() == 0 || !text::white(s.last()),
    ensures
        text::trimmed_end(s + gap) == s,
    decreases gap.len(),
{
    let all = s + gap;
    if gap.len() > 0 {
        assert(all.last() == gap.last());
        assert(all.drop_last() =~= s + gap.drop_last());
        trailing_space_comes_off(s, gap.drop_last());
    } else {
        assert(all =~= s);
    }
}

/// White space around a text comes off, and nothing else; of white space alone
/// nothing is left.
pub proof fn space_around_comes_off(left: Seq<char>, s: Seq<char>, right: Seq<char>)
    requires
        blank(left),
        blank(right),
        s.len() > 0 ==> !text::white(s[0]) && !text::white(s.last()),
    ensures
        text::trimmed(left + s + right) == s,
{
    if s.len() > 0 {
        assert(left + s + right =~= left + (s + right));
        leading_space_comes_off(left, s + right);
        trailing_space_comes_off(s, right);
    } else {
        let all = left + right;
        assert(left + s + right =~= all);
        leading_space_comes_off(all, s);
        assert(all + s =~= all);
    }
}

/// A word between white space is the first word, and the rest follows.
pub proof fn words_come_one_by_one(gap: Seq<char>, word: Seq<char>, rest: Seq<char>)
    requires
        blank(gap),
        word.len() > 0,
        solid(word),
        rest.len() == 0 || text::white(rest[0]),
    ensures
        text::words_of(gap + word + rest) == seq![word] + text::words_of(rest),
        text::words_of(gap) == Seq::<Seq<char>>::empty(),
{
    let tail = word + rest;
    assert(gap + word + rest =~= gap + tail);
    leading_space_comes_off(gap, tail);
    lemma_word_len(word, rest);
    assert(tail.take(word.len() as int) =~= word);
    assert(tail.skip(word.len() as int) =~= rest);
    leading_space_comes_off(gap, Seq::empty());
    assert(gap + Seq::<char>::empty() =~= gap);
}

proof fn lemma_word_len(word: Seq<char>, rest: Seq<char>)
    requires
        solid(word),
        rest.len() == 0 || text::white(rest[0]),
    ensures
        text::word_len(word + rest) == word.len(),
    decreases word.len(),
{
    let all = word + rest;
    if word.len() > 0 {
        assert(all[0] == word[0]);
        assert(all.drop_first() =~= word.drop_first() + rest);
        lemma_word_len(word.drop_first(), rest);
    } else {
        assert(all =~= rest);
    }
}

/// Whether a word stands in a text as a word of its own.
pub open spec fn stands_in(word: Seq<char>, left: Seq<char>, right: Seq<char>) -> bool {
    &&& word.len() > 0
    &&& solid(word)
    &&& left.len() == 0 || text::white(left.last())
    &&& right.len() == 0 || text::white(right[0])
}

/// What stands in a text between white space, or between white space and an end of
/// the text, is one of its words.
pub proof fn word_is_found(left: Seq<char>, word: Seq<char>, right: Seq<char>)
    requires
        stands_in(word, left, right),
    ensures
        text::words_of(left + word + right).contains(word),
    decreases left.len(),
{
    let all = left + word + right;
    let gap = lemma_gap(left);
    let body = left.skip(gap.len() as int);
    assert(left =~= gap + body);
    if body.len() == 0 {
        assert(left =~= gap);
        words_come_one_by_one(gap, word, right);
        assert((seq![word] + text::words_of(right))[0] == word);
    } else {
        let n = lemma_run(body);
        let first = body.take(n);
        let more = body.skip(n);
        assert(body =~= first + more);
        assert(!text::white(body.last()) ==> left.last() == body.last());
        assert(more.len() > 0) by {
            if more.len() == 0 {
                assert(body.last() == first.last());
                assert(left.last() == body.last());
            }
        }
        let rest = more + word + right;
        assert(all =~= gap + first + rest);
        assert(rest[0] == more[0]);
        words_come_one_by_one(gap, first, rest);
        assert(more.last() == left.last());
        word_is_found(more, word, right);
        let others = text::words_of(rest);
        let k = choose|k: int| 0 <= k < others.len() && others[k] == word;
        assert((seq![first] + others)[k + 1] == word);
    }
}

/// The white space that a text starts with.
proof fn lemma_gap(s: Seq<char>) -> (gap: Seq<char>)
    ensures
        blank(gap),
        gap.len() <= s.len(),
        s.take(gap.len() as int) == gap,
        gap.len() < s.len() ==> !text::white(s[gap.len() as int]),
    decreases s.len(),
{
    if s.len() > 0 && text::white(s[0]) {
        let more = lemma_gap(s.drop_first());
        let gap = seq![s[0]] + more;
        assert(s.take(gap.len() as int) =~= gap);
        assert forall|i: int| 0 <= i < gap.len() implies text::white(#[trigger] gap[i]) by {
            if i > 0 {
                assert(gap[i] == more[i - 1]);
            }
        }
        if gap.len() < s.len() {
            assert(s[gap.len() as int] == s.drop_first()[more.len() as int]);
        }
        gap
    } else {
        assert(s.take(0) =~= Seq::<char>::empty());
        Seq::empty()
    }
}

/// How many characters a text starts with before any white space.
proof fn lemma_run(s: Seq<char>) -> (n: int)
    ensures
        0 <= n <= s.len(),
        solid(s.take(n)),
        n < s.len() ==> text::white(s[n]),
        s.len() > 0 && !text::white(s[0]) ==> n > 0,
    decreases s.len(),
{
    if s.len() > 0 && !text::white(s[0]) {
        let m = lemma_run(s.drop_first());
        let head = s.take(m + 1);
        assert forall|i: int| 0 <= i < head.len() implies !text::white(#[trigger] head[i]) by {
            if i > 0 {
                assert(head[i] == s.drop_first().take(m)[i - 1]);
            }
        }
        m + 1
    } else {
        0
    }
}

/// Every word of a text stands in it as a word of its own.
pub proof fn words_stand_in_the_text(s: Seq<char>, word: Seq<char>)
    requires
        text::words_of(s).contains(word),
    ensures
        exists|left: Seq<char>, right: Seq<char>|
            #![trigger stands_in(word, left, right)]
            stands_in(word, left, right) && s == left + word + right,
    decreases s.len(),
{
    let gap = lemma_gap(s);
    let body = s.skip(gap.len() as int);
    assert(s =~= gap + body);
    if body.len() == 0 {
        assert(s =~= gap);
        leading_space_comes_off(gap, Seq::empty());
        assert(gap + Seq::<char>::empty() =~= gap);
        assert(text::words_of(s).len() == 0);
    } else {
        let n = lemma_run(body);
        let first = body.take(n);
        let rest = body.skip(n);
        assert(s =~= gap + first + rest);
        words_come_one_by_one(gap, first, rest);
        let others = text::words_of(rest);
        let k = choose|k: int| 0 <= k < text::words_of(s).len() && text::words_of(s)[k] == word;
        if k == 0 {
            assert(gap.len() > 0 ==> gap.last() == gap[gap.len() - 1]);
            assert(stands_in(word, gap, rest));
        } else {
            assert(others[k - 1] == word);
            words_stand_in_the_text(rest, word);
            let (l, r) = choose|l: Seq<char>, r: Seq<char>|
                #![trigger stands_in(word, l, r)]
                stands_in(word, l, r) && rest == l + word + r;
            let left = gap + first + l;
            assert(s =~= left + word + r);
            if l.len() == 0 {
                assert(rest[0] == word[0]);
            } else {
                assert(left.last() == l.last());
            }
            assert(stands_in(word, left, r));
        }
    }
}

/// A text is read line by line: a line ends at a line feed, with or without a
/// carriage return before it, and the last one at the end of the text.
pub proof fn lines_come_one_by_one(line: Seq<char>, rest: Seq<char>)
    requires
        !line.contains('\n'),
    ensures
        text::lines_of(line + seq!['\r', '\n'] + rest) == seq![line] + text::lines_of(rest),
        !text::closes_with(line, '\r') ==> text::lines_of(line + seq!['\n'] + rest) == seq![line]
            + text::lines_of(rest),
        line.len() > 0 ==> text::lines_of(line) == seq![line],
        text::lines_of(Seq::<char>::empty()) == Seq::<Seq<char>>::empty(),
{
    let plain = line + seq!['\n'] + rest;
    split_takes_apart(line, '\n', rest);
    let returned = line.push('\r');
    assert(line + seq!['\r', '\n'] + rest =~= returned + seq!['\n'] + rest);
    assert(!returned.contains('\n'));
    split_takes_apart(returned, '\n', rest);
    assert(returned.drop_last() =~= line);
}

/// The first field of a line ends at the first space, and the others follow it.
pub proof fn fields_come_one_by_one(first: Seq<char>, rest: Seq<char>, n: nat)
    requires
        !first.contains(' '),
    ensures
        text::field_of(first + seq![' '] + rest, 0) == Some(first),
        text::field_of(first + seq![' '] + rest, n + 1) == text::field_of(rest, n),
        text::behind_spaces(first + seq![' '] + rest, n + 1) == text::behind_spaces(rest, n),
        text::behind_spaces(rest, 0) == Some(rest),
        text::field_of(first, 0) == Some(first),
        text::field_of(first, n + 1) is None,
        text::behind_spaces(first, n + 1) is None,
{
    let all = first + seq![' '] + rest;
    split_takes_apart(first, ' ', rest);
    text::lemma_find(all, ' ');
    text::lemma_find_is(first, ' ', first.len() as int);
    assert(first.take(first.len() as int) =~= first);
}

/// Padding puts spaces behind a text until it has the width, and leaves a longer one
/// as it is.
pub proof fn padding_fills_up(s: Seq<char>, width: nat, i: int)
    ensures
        text::padded_to(s, width).len() == if s.len() < width {
            width
        } else {
            s.len()
        },
        0 <= i < s.len() ==> text::padded_to(s, width)[i] == s[i],
        s.len() <= i < width ==> text::padded_to(s, width)[i] == ' ',
{
}

} // verus!
