//! Promises of the order of names, and of the pairs that a map is made of.

use vstd::prelude::*;

use crate::vars;

verus! {

/// Names are ordered by the first character in which they differ; a name comes before
/// those that go on behind it.
pub proof fn first_difference_decides(p: Seq<char>, c: char, d: char, x: Seq<char>, y: Seq<char>)
    ensures
        c < d ==> vars::before(p + seq![c] + x, p + seq![d] + y),
        c > d ==> !vars::before(p + seq![c] + x, p + seq![d] + y),
        vars::before(p, p + seq![c] + x),
        !vars::before(p + seq![c] + x, p),
        !vars::before(p, p),
    decreases p.len(),
{
    let a = p + seq![c] + x;
    let b = p + seq![d] + y;
    if p.len() > 0 {
        let q = p.drop_first();
        first_difference_decides(q, c, d, x, y);
        assert(a.drop_first() =~= q + seq![c] + x);
        assert(b.drop_first() =~= q + seq![d] + y);
        assert(a[0] == p[0] && b[0] == p[0]);
    }
}

/// Of the pairs that a map is made of, the last one with a name gives it its value; a
/// name in none of them has none.
pub proof fn last_pair_counts(
    before: Seq<(Seq<char>, Seq<char>)>,
    name: Seq<char>,
    value: Seq<char>,
    behind: Seq<(Seq<char>, Seq<char>)>,
)
    requires
        forall|i: int| 0 <= i < behind.len() ==> (#[trigger] behind[i]).0 != name,
    ensures
        vars::value_in(vars::map_of(before.push((name, value)) + behind), name) == Some(value),
        vars::value_in(vars::map_of(behind), name) is None,
    decreases behind.len(),
{
    let all = before.push((name, value)) + behind;
    if behind.len() == 0 {
        assert(all =~= before.push((name, value)));
        assert(all.drop_last() =~= before);
    } else {
        let rest = behind.drop_last();
        assert forall|i: int| 0 <= i < rest.len() implies (#[trigger] rest[i]).0 != name by {
            assert(rest[i] == behind[i]);
        }
        last_pair_counts(before, name, value, rest);
        assert(all.drop_last() =~= before.push((name, value)) + rest);
        assert(all.last() == behind[behind.len() - 1]);
        assert(behind.last() == behind[behind.len() - 1]);
    }
}

/// The listing of a map has its pairs in the order of their names, each name once.
pub proof fn listing_is_ordered(pairs: Seq<(Seq<char>, Seq<char>)>, i: int, j: int)
    requires
        vars::ascending(pairs),
        0 <= i < j < pairs.len(),
    ensures
        vars::listing(vars::map_of(pairs)) == pairs,
        vars::before(pairs[i].0, pairs[j].0),
        pairs[i].0 != pairs[j].0,
        vars::value_in(vars::map_of(pairs), pairs[i].0) == Some(pairs[i].1),
{
    let q = vars::listing(vars::map_of(pairs));
    assert(vars::ascending(q) && vars::map_of(q) == vars::map_of(pairs));
    vars::listing_is_unique(pairs, q);
    assert(vars::before(pairs[i].0, pairs[j].0));
    first_difference_decides(pairs[j].0, 'a', 'b', Seq::empty(), Seq::empty());
    let head = pairs.take(i);
    let tail = pairs.skip(i + 1);
    assert(pairs =~= head.push((pairs[i].0, pairs[i].1)) + tail);
    assert forall|k: int| 0 <= k < tail.len() implies (#[trigger] tail[k]).0 != pairs[i].0 by {
        assert(vars::before(pairs[i].0, pairs[k + i + 1].0));
        first_difference_decides(pairs[i].0, 'a', 'b', Seq::empty(), Seq::empty());
    }
    last_pair_counts(head, pairs[i].0, pairs[i].1, tail);
}

} // verus!
