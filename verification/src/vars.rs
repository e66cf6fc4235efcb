//! The variables of a device: a map from names to values, kept in the order of
//! the names.

use vstd::prelude::*;

use crate::text;

verus! {

/// Whether `a` comes before `b` in the dictionary order of their characters.
pub open spec fn before(a: Seq<char>, b: Seq<char>) -> bool
    decreases a.len(),
{
    &&& b.len() > 0
    &&& {
        ||| a.len() == 0
        ||| a[0] < b[0]
        ||| a[0] == b[0] && before(a.drop_first(), b.drop_first())
    }
}

/// Whether every name comes before those behind it.
pub open spec fn ascending(pairs: Seq<(Seq<char>, Seq<char>)>) -> bool {
    forall|i: int, j: int| 0 <= i < j < pairs.len() ==> before(#[trigger] pairs[i].0, #[trigger] pairs[j].0)
}

/// The map that comes of inserting the pairs one after the other.
pub open spec fn map_of(pairs: Seq<(Seq<char>, Seq<char>)>) -> Map<Seq<char>, Seq<char>>
    decreases pairs.len(),
{
    if pairs.len() == 0 {
        Map::empty()
    } else {
        map_of(pairs.drop_last()).insert(pairs.last().0, pairs.last().1)
    }
}

proof fn lemma_before_irreflexive(a: Seq<char>)
    ensures
        !before(a, a),
    decreases a.len(),
{
    if a.len() > 0 {
        lemma_before_irreflexive(a.drop_first());
    }
}

proof fn lemma_before_total(a: Seq<char>, b: Seq<char>)
    ensures
        before(a, b) || before(b, a) || a == b,
    decreases a.len(),
{
    if a.len() > 0 && b.len() > 0 {
        lemma_before_total(a.drop_first(), b.drop_first());
        if a[0] == b[0] && a.drop_first() == b.drop_first() {
            assert(a =~= seq![a[0]] + a.drop_first());
            assert(b =~= seq![b[0]] + b.drop_first());
        }
    } else if a.len() == 0 && b.len() == 0 {
        assert(a =~= b);
    }
}

proof fn lemma_before_transitive(a: Seq<char>, b: Seq<char>, c: Seq<char>)
    requires
        before(a, b),
        before(b, c),
    ensures
        before(a, c),
    decreases a.len(),
{
    if a.len() > 0 && a[0] == b[0] && b[0] == c[0] {
        lemma_before_transitive(a.drop_first(), b.drop_first(), c.drop_first());
    }
}

/// Where the names ascend, the map holds each pair as it stands, and nothing
/// else.
proof fn lemma_map_of_ascending(pairs: Seq<(Seq<char>, Seq<char>)>)
    requires
        ascending(pairs),
    ensures
        forall|i: int|
            0 <= i < pairs.len() ==> map_of(pairs).contains_key(#[trigger] pairs[i].0) && map_of(
                pairs,
            )[pairs[i].0] == pairs[i].1,
        forall|k: Seq<char>| #[trigger]
            map_of(pairs).contains_key(k) ==> exists|i: int|
                0 <= i < pairs.len() && #[trigger] pairs[i].0 == k,
        map_of(pairs).dom().finite(),
        map_of(pairs).len() == pairs.len(),
    decreases pairs.len(),
{
    if pairs.len() > 0 {
        let rest = pairs.drop_last();
        let last = pairs.last();
        lemma_ascending_prefix(pairs);
        lemma_map_of_ascending(rest);
        assert forall|i: int| 0 <= i < rest.len() implies #[trigger] rest[i].0 != last.0 by {
            assert(before(pairs[i].0, pairs[pairs.len() - 1].0));
            lemma_before_irreflexive(last.0);
        }
        assert(!map_of(rest).contains_key(last.0));
        assert forall|i: int| 0 <= i < pairs.len() implies map_of(pairs).contains_key(
            #[trigger] pairs[i].0,
        ) && map_of(pairs)[pairs[i].0] == pairs[i].1 by {
            if i < rest.len() {
                assert(rest[i] == pairs[i]);
                assert(rest[i].0 != last.0);
            }
        }
        assert forall|k: Seq<char>| #[trigger] map_of(pairs).contains_key(k) implies exists|i: int|
            0 <= i < pairs.len() && #[trigger] pairs[i].0 == k by {
            if k == last.0 {
                assert(pairs[pairs.len() - 1].0 == k);
            } else {
                assert(map_of(rest).contains_key(k));
                let i = choose|i: int| 0 <= i < rest.len() && #[trigger] rest[i].0 == k;
                assert(pairs[i].0 == k);
            }
        }
    }
}

/// The pairs of a map in the order of their names.
pub open spec fn listing(m: Map<Seq<char>, Seq<char>>) -> Seq<(Seq<char>, Seq<char>)> {
    choose|pairs: Seq<(Seq<char>, Seq<char>)>| ascending(pairs) && #[trigger] map_of(pairs) == m
}

/// There is one way only to list the pairs of a map in the order of their names.
pub proof fn listing_is_unique(p: Seq<(Seq<char>, Seq<char>)>, q: Seq<(Seq<char>, Seq<char>)>)
    requires
        ascending(p),
        ascending(q),
        map_of(p) == map_of(q),
    ensures
        p == q,
    decreases p.len(),
{
    lemma_map_of_ascending(p);
    lemma_map_of_ascending(q);
    if p.len() > 0 {
        let a = p.last();
        let b = q.last();
        lemma_last_is_greatest(p, q);
        lemma_last_is_greatest(q, p);
        lemma_before_irreflexive(a.0);
        if before(a.0, b.0) && before(b.0, a.0) {
            lemma_before_transitive(a.0, b.0, a.0);
        }
        assert(a.0 == b.0);
        assert(p[p.len() - 1].0 == a.0);
        assert(q[q.len() - 1].0 == b.0);
        lemma_ascending_prefix(p);
        lemma_ascending_prefix(q);
        lemma_drop_last_removes(p);
        lemma_drop_last_removes(q);
        listing_is_unique(p.drop_last(), q.drop_last());
        assert(p =~= p.drop_last().push(a));
        assert(q =~= q.drop_last().push(b));
    } else {
        assert(p =~= q);
    }
}

proof fn lemma_last_is_greatest(p: Seq<(Seq<char>, Seq<char>)>, q: Seq<(Seq<char>, Seq<char>)>)
    requires
        ascending(p),
        ascending(q),
        map_of(p) == map_of(q),
        p.len() > 0,
    ensures
        q.len() > 0,
        p.last().0 == q.last().0 || before(p.last().0, q.last().0),
{
    lemma_map_of_ascending(p);
    lemma_map_of_ascending(q);
    let k = p[p.len() - 1].0;
    assert(map_of(q).contains_key(k));
    let i = choose|i: int| 0 <= i < q.len() && #[trigger] q[i].0 == k;
    if i < q.len() - 1 {
        assert(before(q[i].0, q[q.len() - 1].0));
    }
}

proof fn lemma_ascending_prefix(p: Seq<(Seq<char>, Seq<char>)>)
    requires
        ascending(p),
        p.len() > 0,
    ensures
        ascending(p.drop_last()),
{
    let rest = p.drop_last();
    assert forall|i: int, j: int| 0 <= i < j < rest.len() implies before(
        #[trigger] rest[i].0,
        #[trigger] rest[j].0,
    ) by {
        assert(before(p[i].0, p[j].0));
    }
}

proof fn lemma_drop_last_removes(p: Seq<(Seq<char>, Seq<char>)>)
    requires
        ascending(p),
        p.len() > 0,
    ensures
        map_of(p.drop_last()) == map_of(p).remove(p.last().0),
{
    lemma_ascending_prefix(p);
    lemma_map_of_ascending(p.drop_last());
    let rest = p.drop_last();
    let k = p.last().0;
    if map_of(rest).contains_key(k) {
        let i = choose|i: int| 0 <= i < rest.len() && #[trigger] rest[i].0 == k;
        assert(before(p[i].0, p[p.len() - 1].0));
        lemma_before_irreflexive(k);
    }
    assert(map_of(rest) =~= map_of(p).remove(k));
}

proof fn lemma_listing(p: Seq<(Seq<char>, Seq<char>)>)
    requires
        ascending(p),
    ensures
        listing(map_of(p)) == p,
{
    let q = listing(map_of(p));
    assert(ascending(q) && map_of(q) == map_of(p));
    listing_is_unique(p, q);
}

/// Whether `a` comes before `b` in the dictionary order.
fn precedes(a: &str, b: &str) -> (res: bool)
    ensures
        res == before(a@, b@),
{
    let n: usize = a.unicode_len();
    let m: usize = b.unicode_len();
    let mut i: usize = 0;
    assert(a@.skip(0) =~= a@);
    assert(b@.skip(0) =~= b@);
    while i < n && i < m
        invariant
            n == a@.len(),
            m == b@.len(),
            i <= n,
            i <= m,
            before(a@, b@) == before(a@.skip(i as int), b@.skip(i as int)),
        decreases n - i,
    {
        let c: char = a.get_char(i);
        let d: char = b.get_char(i);
        assert(a@.skip(i as int).drop_first() =~= a@.skip(i + 1));
        assert(b@.skip(i as int).drop_first() =~= b@.skip(i + 1));
        if c < d {
            return true;
        }
        if d < c {
            return false;
        }
        i = i + 1;
    }
    i < m
}

/// A map from names to values. The pairs stand in the order of their names,
/// and no name occurs twice.
pub struct VarMap {
    entries: Vec<(String, String)>,
}

impl View for VarMap {
    type V = Map<Seq<char>, Seq<char>>;

    closed spec fn view(&self) -> Map<Seq<char>, Seq<char>> {
        map_of(text::pairs_view(self.entries@))
    }
}

impl VarMap {
    #[verifier::type_invariant]
    spec fn sorted(self) -> bool {
        ascending(text::pairs_view(self.entries@))
    }

    /// The empty map.
    pub fn new() -> (res: Self)
        ensures
            res@ == Map::<Seq<char>, Seq<char>>::empty(),
    {
        let res = VarMap { entries: Vec::new() };
        res
    }

    /// How many names the map holds.
    pub fn len(&self) -> (res: usize)
        ensures
            res == self@.len(),
    {
        proof {
            use_type_invariant(self);
            lemma_map_of_ascending(text::pairs_view(self.entries@));
        }
        self.entries.len()
    }

    /// The pairs in the order of their names.
    pub fn entries(&self) -> (res: &Vec<(String, String)>)
        ensures
            text::pairs_view(res@) == listing(self@),
            ascending(text::pairs_view(res@)),
            map_of(text::pairs_view(res@)) == self@,
    {
        proof {
            use_type_invariant(self);
            lemma_listing(text::pairs_view(self.entries@));
        }
        &self.entries
    }

    /// The value that `name` has, if it has one.
    pub fn get(&self, name: &str) -> (res: Option<&str>)
        ensures
            text::opt_str_view(res) == value_in(self@, name@),
    {
        proof {
            use_type_invariant(self);
            lemma_map_of_ascending(text::pairs_view(self.entries@));
        }
        let ghost pairs = text::pairs_view(self.entries@);
        let mut i: usize = 0;
        while i < self.entries.len()
            invariant
                i <= self.entries@.len(),
                pairs == text::pairs_view(self.entries@),
                self@ == map_of(pairs),
                forall|j: int|
                    0 <= j < pairs.len() ==> map_of(pairs).contains_key(#[trigger] pairs[j].0)
                        && map_of(pairs)[pairs[j].0] == pairs[j].1,
                forall|j: int| 0 <= j < i ==> #[trigger] pairs[j].0 != name@,
            decreases self.entries@.len() - i,
        {
            assert(pairs[i as int].0 == self.entries@[i as int].0@);
            if text::same(self.entries[i].0.as_str(), name) {
                return Some(self.entries[i].1.as_str());
            }
            i = i + 1;
        }
        None
    }

    /// Gives `name` the value `value`.
    pub fn insert(&mut self, name: String, value: String)
        ensures
            final(self)@ == old(self)@.insert(name@, value@),
    {
        proof {
            use_type_invariant(&*self);
        }
        let mut entries: Vec<(String, String)> = Vec::new();
        std::mem::swap(&mut entries, &mut self.entries);
        let ghost pairs = text::pairs_view(entries@);
        proof {
            lemma_map_of_ascending(pairs);
        }
        let mut at: usize = 0;
        while at < entries.len() && precedes(entries[at].0.as_str(), name.as_str())
            invariant
                at <= entries@.len(),
                pairs == text::pairs_view(entries@),
                forall|j: int| 0 <= j < at ==> before(#[trigger] pairs[j].0, name@),
            decreases entries@.len() - at,
        {
            assert(pairs[at as int].0 == entries@[at as int].0@);
            at = at + 1;
        }
        let ghost key = name@;
        let ghost val = value@;
        if at < entries.len() && text::same(entries[at].0.as_str(), name.as_str()) {
            entries.set(at, (name, value));
            proof {
                assert(text::pairs_view(entries@) =~= pairs.update(at as int, (key, val)));
                lemma_replaced(pairs, at as int, val);
            }
        } else {
            proof {
                if at < pairs.len() {
                    assert(pairs[at as int].0 == entries@[at as int].0@);
                    lemma_before_total(pairs[at as int].0, key);
                }
            }
            entries.insert(at, (name, value));
            proof {
                assert(text::pairs_view(entries@) =~= pairs.insert(at as int, (key, val)));
                lemma_inserted(pairs, at as int, key, val);
            }
        }
        self.entries = entries;
    }
}

/// The value of `name` in a map, if it has one.
pub open spec fn value_in(m: Map<Seq<char>, Seq<char>>, name: Seq<char>) -> Option<Seq<char>> {
    if m.contains_key(name) {
        Some(m[name])
    } else {
        None
    }
}

proof fn lemma_replaced(pairs: Seq<(Seq<char>, Seq<char>)>, at: int, val: Seq<char>)
    requires
        ascending(pairs),
        0 <= at < pairs.len(),
    ensures
        ascending(pairs.update(at, (pairs[at].0, val))),
        map_of(pairs.update(at, (pairs[at].0, val))) == map_of(pairs).insert(pairs[at].0, val),
{
    let key = pairs[at].0;
    let after = pairs.update(at, (key, val));
    assert forall|i: int, j: int| 0 <= i < j < after.len() implies before(
        #[trigger] after[i].0,
        #[trigger] after[j].0,
    ) by {
        assert(before(pairs[i].0, pairs[j].0));
    }
    lemma_map_of_ascending(pairs);
    lemma_map_of_ascending(after);
    assert(map_of(after) =~= map_of(pairs).insert(key, val)) by {
        assert forall|k: Seq<char>| map_of(after).contains_key(k) <==> map_of(pairs).insert(
            key,
            val,
        ).contains_key(k) by {
            if map_of(after).contains_key(k) {
                let i = choose|i: int| 0 <= i < after.len() && #[trigger] after[i].0 == k;
                assert(pairs[i].0 == k);
            }
            if map_of(pairs).contains_key(k) {
                let i = choose|i: int| 0 <= i < pairs.len() && #[trigger] pairs[i].0 == k;
                assert(after[i].0 == k);
            }
            if k == key {
                assert(after[at].0 == key);
            }
        }
        assert forall|k: Seq<char>| #[trigger] map_of(after).contains_key(k) implies map_of(after)[k]
            == map_of(pairs).insert(key, val)[k] by {
            let i = choose|i: int| 0 <= i < after.len() && #[trigger] after[i].0 == k;
            assert(pairs[i].0 == k);
            if i != at {
                lemma_before_irreflexive(key);
                if i < at {
                    assert(before(pairs[i].0, pairs[at].0));
                } else {
                    assert(before(pairs[at].0, pairs[i].0));
                }
            }
        }
    }
}

proof fn lemma_inserted(pairs: Seq<(Seq<char>, Seq<char>)>, at: int, key: Seq<char>, val: Seq<char>)
    requires
        ascending(pairs),
        0 <= at <= pairs.len(),
        forall|j: int| 0 <= j < at ==> before(#[trigger] pairs[j].0, key),
        at < pairs.len() ==> before(key, pairs[at].0),
    ensures
        ascending(pairs.insert(at, (key, val))),
        map_of(pairs.insert(at, (key, val))) == map_of(pairs).insert(key, val),
{
    let after = pairs.insert(at, (key, val));
    assert forall|j: int| at <= j < pairs.len() implies before(key, #[trigger] pairs[j].0) by {
        if j > at {
            assert(before(pairs[at].0, pairs[j].0));
            lemma_before_transitive(key, pairs[at].0, pairs[j].0);
        }
    }
    assert forall|i: int, j: int| 0 <= i < j < after.len() implies before(
        #[trigger] after[i].0,
        #[trigger] after[j].0,
    ) by {
        let a = if i < at { i } else { i - 1 };
        let b = if j < at { j } else { j - 1 };
        if i != at && j != at {
            assert(before(pairs[a].0, pairs[b].0));
        } else if i == at {
            assert(before(key, pairs[b].0));
        } else {
            assert(before(pairs[a].0, key));
        }
    }
    lemma_map_of_ascending(pairs);
    lemma_map_of_ascending(after);
    lemma_before_irreflexive(key);
    assert(map_of(after) =~= map_of(pairs).insert(key, val)) by {
        assert forall|k: Seq<char>| map_of(after).contains_key(k) <==> map_of(pairs).insert(
            key,
            val,
        ).contains_key(k) by {
            if map_of(after).contains_key(k) && k != key {
                let i = choose|i: int| 0 <= i < after.len() && #[trigger] after[i].0 == k;
                let a = if i < at { i } else { i - 1 };
                assert(pairs[a].0 == k);
            }
            if map_of(pairs).contains_key(k) {
                let i = choose|i: int| 0 <= i < pairs.len() && #[trigger] pairs[i].0 == k;
                let b = if i < at { i } else { i + 1 };
                assert(after[b].0 == k);
            }
            if k == key {
                assert(after[at].0 == key);
            }
        }
        assert forall|k: Seq<char>| #[trigger] map_of(after).contains_key(k) implies map_of(after)[k]
            == map_of(pairs).insert(key, val)[k] by {
            let i = choose|i: int| 0 <= i < after.len() && #[trigger] after[i].0 == k;
            if i != at {
                let a = if i < at { i } else { i - 1 };
                assert(pairs[a].0 == k);
            }
        }
    }
}

} // verus!
