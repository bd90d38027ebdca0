//! A small map from names to links, kept in insertion order.

use vstd::prelude::*;
use vstd::string::*;

verus! {

/// The first position at or after `i` whose name is `key`, or the length of
/// `entries` when no such position exists.
pub open spec fn position<V>(entries: Seq<(String, V)>, key: Seq<char>, i: int) -> int
    decreases entries.len() - i,
{
    if 0 <= i < entries.len() && entries[i].0@ != key {
        position(entries, key, i + 1)
    } else {
        i
    }
}

/// The map that a list of entries stands for: each name with the link of the
/// first entry that carries it.
pub open spec fn as_map(entries: Seq<(String, String)>) -> Map<Seq<char>, Seq<char>> {
    Map::new(
        |k: Seq<char>| position(entries, k, 0) < entries.len(),
        |k: Seq<char>| entries[position(entries, k, 0)].1@,
    )
}

/// No name stands in two entries.
pub open spec fn distinct_names<V>(entries: Seq<(String, V)>) -> bool {
    forall|i: int, j: int|
        0 <= i < j < entries.len() ==> (#[trigger] entries[i]).0@ != (#[trigger] entries[j]).0@
}

/// The position lies between `i` and the length; where it is a place in
/// `entries`, that place holds `key`, and no place between `i` and it does.
pub proof fn lemma_position_bounds<V>(entries: Seq<(String, V)>, key: Seq<char>, i: int)
    requires
        0 <= i <= entries.len(),
    ensures
        i <= position(entries, key, i) <= entries.len(),
        position(entries, key, i) < entries.len() ==> entries[position(entries, key, i)].0@ == key,
        forall|j: int| i <= j < position(entries, key, i) ==> (#[trigger] entries[j]).0@ != key,
    decreases entries.len() - i,
{
    if i < entries.len() && entries[i].0@ != key {
        lemma_position_bounds(entries, key, i + 1);
    }
}

/// The position is the only one that holds `key` with no earlier entry
/// holding it.
pub proof fn lemma_position_is<V>(entries: Seq<(String, V)>, key: Seq<char>, p: int)
    requires
        0 <= p <= entries.len(),
        forall|j: int| 0 <= j < p ==> (#[trigger] entries[j]).0@ != key,
        p < entries.len() ==> entries[p].0@ == key,
    ensures
        position(entries, key, 0) == p,
{
    lemma_position_bounds(entries, key, 0);
    let q = position(entries, key, 0);
    if q < p {
        assert(entries[q].0@ != key);
    } else if p < q {
        assert(entries[p].0@ != key);
    }
}

/// `after` is `before` with the entry of `key` replaced, or with an entry for
/// `key` added at the end when `before` held none.
pub open spec fn is_put<V>(before: Seq<(String, V)>, after: Seq<(String, V)>, key: Seq<char>) -> bool {
    let p = position(before, key, 0);
    &&& after.len() == (if p < before.len() {
        before.len()
    } else {
        before.len() + 1
    })
    &&& after[p].0@ == key
    &&& forall|j: int| 0 <= j < before.len() && j != p ==> #[trigger] after[j] == before[j]
}

/// Putting an entry moves no name: `key` is found where it was, or at the
/// end; every other name is found exactly where it was before.
pub proof fn lemma_put<V>(
    before: Seq<(String, V)>,
    after: Seq<(String, V)>,
    key: Seq<char>,
    name: Seq<char>,
)
    requires
        is_put(before, after, key),
    ensures
        position(before, key, 0) <= before.len(),
        position(after, key, 0) == position(before, key, 0),
        position(after, key, 0) < after.len(),
        name != key ==> (position(after, name, 0) < after.len() <==> position(before, name, 0)
            < before.len()),
        name != key && position(before, name, 0) < before.len() ==> position(after, name, 0)
            == position(before, name, 0) && after[position(after, name, 0)] == before[position(
            before,
            name,
            0,
        )],
        distinct_names(before) ==> distinct_names(after),
{
    lemma_position_bounds(before, key, 0);
    lemma_position_bounds(before, name, 0);
    let p = position(before, key, 0);
    assert forall|j: int| 0 <= j < p implies (#[trigger] after[j]).0@ != key by {
        assert(before[j].0@ != key);
    }
    lemma_position_is(after, key, p);
    if name != key {
        let q = position(before, name, 0);
        if q < before.len() {
            assert forall|j: int| 0 <= j < q implies (#[trigger] after[j]).0@ != name by {
                if j != p {
                    assert(before[j].0@ != name);
                }
            }
            assert(after[q] == before[q]);
            lemma_position_is(after, name, q);
        } else {
            assert forall|j: int| 0 <= j < after.len() implies (#[trigger] after[j]).0@ != name by {
                if j != p {
                    assert(before[j].0@ != name);
                }
            }
            lemma_position_is(after, name, after.len() as int);
        }
    }
    if distinct_names(before) {
        assert forall|i: int, j: int| 0 <= i < j < after.len() implies (#[trigger] after[i]).0@ != (
        #[trigger] after[j]).0@ by {
            if i != p && j != p {
                assert(before[i].0@ != before[j].0@);
            } else if i == p {
                // `p` is a place of `before`, or `j` would lie beyond the end.
                assert(before[i].0@ != before[j].0@);
            } else {
                assert(before[i].0@ != key);
            }
        }
    }
}

/// The first place that holds `key`, if any.
pub fn find_key<V>(entries: &Vec<(String, V)>, key: &str) -> (p: usize)
    ensures
        p == position(entries@, key@, 0),
        p <= entries.len(),
        p < entries.len() ==> entries@[p as int].0@ == key@,
{
    let wanted = String::from_str(key);
    let mut i: usize = 0;
    while i < entries.len()
        invariant
            wanted@ == key@,
            i <= entries.len(),
            forall|j: int| 0 <= j < i ==> (#[trigger] entries@[j]).0@ != key@,
        decreases entries.len() - i,
    {
        if entries[i].0 == wanted {
            proof {
                lemma_position_is(entries@, key@, i as int);
            }
            return i;
        }
        i += 1;
    }
    proof {
        lemma_position_is(entries@, key@, i as int);
    }
    i
}

/// Links by name. It stands for a `Map` from names to links; no name is held
/// twice.
#[derive(Debug)]
pub struct LinkMap {
    entries: Vec<(String, String)>,
}

impl View for LinkMap {
    type V = Map<Seq<char>, Seq<char>>;

    closed spec fn view(&self) -> Map<Seq<char>, Seq<char>> {
        as_map(self.entries@)
    }
}

impl LinkMap {
    #[verifier::type_invariant]
    spec fn well_formed(&self) -> bool {
        distinct_names(self.entries@)
    }

    /// A map without entries.
    pub fn new() -> (m: LinkMap)
        ensures
            m@ == Map::<Seq<char>, Seq<char>>::empty(),
    {
        let m = LinkMap { entries: Vec::new() };
        assert(m@ =~= Map::<Seq<char>, Seq<char>>::empty());
        m
    }

    /// The link held under `key`, if any.
    pub fn get(&self, key: &str) -> (r: Option<&String>)
        ensures
            match r {
                Some(link) => self@.contains_key(key@) && self@[key@] == link@,
                None => !self@.contains_key(key@),
            },
    {
        let p = find_key(&self.entries, key);
        if p < self.entries.len() {
            Some(&self.entries[p].1)
        } else {
            None
        }
    }

    /// Puts `link` under `key`, in place of what was held there.
    pub fn insert(&mut self, key: String, link: String)
        ensures
            final(self)@ == old(self)@.insert(key@, link@),
    {
        proof {
            use_type_invariant(&*self);
        }
        let p = find_key(&self.entries, key.as_str());
        let ghost before = self.entries@;
        let ghost k = key@;
        let ghost l = link@;
        let mut taken = LinkMap::new();
        core::mem::swap(self, &mut taken);
        let mut entries = taken.entries;
        if p < entries.len() {
            entries[p].1 = link;
        } else {
            entries.push((key, link));
        }
        let ghost after = entries@;
        proof {
            lemma_put(before, after, k, k);
        }
        *self = LinkMap { entries };
        proof {
            assert forall|name: Seq<char>| #[trigger]
                as_map(after).contains_key(name) == as_map(before).insert(k, l).contains_key(
                    name,
                ) && (as_map(after).contains_key(name) ==> as_map(after)[name] == as_map(
                    before,
                ).insert(k, l)[name]) by {
                lemma_put(before, after, k, name);
            }
            assert(as_map(after) =~= as_map(before).insert(k, l));
        }
    }

    /// The entries: each name once, with its link.
    pub fn pairs(&self) -> (r: Vec<(String, String)>)
        ensures
            as_map(r@) == self@,
            distinct_names(r@),
    {
        proof {
            use_type_invariant(self);
        }
        let mut r: Vec<(String, String)> = Vec::new();
        let mut i: usize = 0;
        while i < self.entries.len()
            invariant
                i <= self.entries.len(),
                r@ == self.entries@.take(i as int),
            decreases self.entries.len() - i,
        {
            let pair = (self.entries[i].0.clone(), self.entries[i].1.clone());
            r.push(pair);
            i += 1;
            assert(r@ =~= self.entries@.take(i as int));
        }
        assert(self.entries@.take(self.entries.len() as int) == self.entries@);
        r
    }

    /// A copy with the same entries.
    pub fn duplicate(&self) -> (m: LinkMap)
        ensures
            m@ == self@,
    {
        LinkMap { entries: self.pairs() }
    }
}

} // verus!
