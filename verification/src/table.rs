//! The variables of one device at one instant: a table from the name of a
//! variable to its value.

use vstd::prelude::*;
use crate::text::{
    comes_before, precedes, precedes_is_irreflexive, precedes_is_total, precedes_is_transitive, same_text,
};

verus! {

/// What a list of pairs of strings holds, as pairs of character sequences.
pub open spec fn pairs_of(v: Seq<(String, String)>) -> Seq<(Seq<char>, Seq<char>)> {
    Seq::new(v.len(), |i: int| (v[i].0@, v[i].1@))
}

/// Whether the first components of `pairs` stand in strictly ascending order.
pub open spec fn ascending(pairs: Seq<(Seq<char>, Seq<char>)>) -> bool {
    forall|i: int, j: int| 0 <= i < j < pairs.len() ==> precedes(#[trigger] pairs[i].0, #[trigger] pairs[j].0)
}

/// Whether `pairs` lists the entries of `m`: every pair is an entry of `m`,
/// and every key of `m` is the first component of some pair.
pub open spec fn lists(pairs: Seq<(Seq<char>, Seq<char>)>, m: Map<Seq<char>, Seq<char>>) -> bool {
    &&& forall|i: int| 0 <= i < pairs.len() ==> m.contains_key(#[trigger] pairs[i].0) && m[pairs[i].0] == pairs[i].1
    &&& forall|k: Seq<char>| #[trigger] m.contains_key(k) ==> exists|i: int| 0 <= i < pairs.len() && #[trigger] pairs[i].0 == k
}

/// Whether `a` and `b` hold the same pairs, in whatever order.
pub open spec fn same_items(a: Seq<(Seq<char>, Seq<char>)>, b: Seq<(Seq<char>, Seq<char>)>) -> bool {
    forall|x: (Seq<char>, Seq<char>)| a.contains(x) <==> b.contains(x)
}

proof fn lemma_insert_keeps_order(
    o: Seq<(Seq<char>, Seq<char>)>,
    src: Seq<(Seq<char>, Seq<char>)>,
    n: int,
    p: int,
)
    requires
        0 <= n < src.len(),
        0 <= p <= o.len(),
        distinct_names(src),
        ascending(o),
        same_items(o, src.take(n)),
        forall|j: int| 0 <= j < p ==> !precedes(src[n].0, #[trigger] o[j].0),
        p < o.len() ==> precedes(src[n].0, o[p].0),
    ensures
        ascending(o.insert(p, src[n])),
        same_items(o.insert(p, src[n]), src.take(n + 1)),
{
    let x = src[n];
    let new = o.insert(p, x);
    assert forall|j: int| 0 <= j < o.len() implies (#[trigger] o[j]).0 != x.0 by {
        assert(o.contains(o[j]));
        assert(src.take(n).contains(o[j]));
        let e = choose|e: int| 0 <= e < src.take(n).len() && src.take(n)[e] == o[j];
        assert(src[e].0 != src[n].0);
    }
    assert forall|i: int, j: int| 0 <= i < j < new.len() implies precedes(
        #[trigger] new[i].0,
        #[trigger] new[j].0,
    ) by {
        if j == p {
            assert(new[i] == o[i]);
            precedes_is_total(o[i].0, x.0);
        } else if i == p {
            assert(new[j] == o[j - 1]);
            if j - 1 > p {
                assert(precedes(o[p].0, o[j - 1].0));
                precedes_is_transitive(x.0, o[p].0, o[j - 1].0);
            }
        } else {
            let a = if i < p { i } else { i - 1 };
            let b = if j < p { j } else { j - 1 };
            assert(new[i] == o[a] && new[j] == o[b]);
            assert(precedes(o[a].0, o[b].0));
        }
    }
    let taken = src.take(n + 1);
    assert forall|y: (Seq<char>, Seq<char>)| new.contains(y) <==> taken.contains(y) by {
        if new.contains(y) {
            let j = choose|j: int| 0 <= j < new.len() && new[j] == y;
            if j == p {
                assert(taken[n] == y);
            } else {
                let b = if j < p { j } else { j - 1 };
                assert(o[b] == y);
                assert(o.contains(y));
                assert(src.take(n).contains(y));
                let e = choose|e: int| 0 <= e < src.take(n).len() && src.take(n)[e] == y;
                assert(taken[e] == y);
            }
        }
        if taken.contains(y) {
            let e = choose|e: int| 0 <= e < taken.len() && taken[e] == y;
            if e == n {
                assert(new[p] == y);
            } else {
                assert(src.take(n)[e] == y);
                assert(src.take(n).contains(y));
                assert(o.contains(y));
                let b = choose|b: int| 0 <= b < o.len() && o[b] == y;
                let j = if b < p { b } else { b + 1 };
                assert(new[j] == y);
            }
        }
    }
}

proof fn lemma_same_items_lists(
    got: Seq<(Seq<char>, Seq<char>)>,
    src: Seq<(Seq<char>, Seq<char>)>,
    m: Map<Seq<char>, Seq<char>>,
)
    requires
        same_items(got, src),
        lists(src, m),
    ensures
        lists(got, m),
{
    assert forall|i: int| 0 <= i < got.len() implies m.contains_key(#[trigger] got[i].0) && m[got[i].0]
        == got[i].1 by {
        assert(got.contains(got[i]));
        assert(src.contains(got[i]));
        let e = choose|e: int| 0 <= e < src.len() && src[e] == got[i];
        assert(m.contains_key(src[e].0));
    }
    assert forall|k: Seq<char>| #[trigger] m.contains_key(k) implies exists|i: int|
        0 <= i < got.len() && #[trigger] got[i].0 == k by {
        let e = choose|e: int| 0 <= e < src.len() && #[trigger] src[e].0 == k;
        assert(src.contains(src[e]));
        assert(got.contains(src[e]));
        let j = choose|j: int| 0 <= j < got.len() && got[j] == src[e];
        assert(got[j].0 == k);
    }
}

/// A table from names to values. No name occurs twice.
#[derive(Debug)]
pub struct VariableTable {
    entries: Vec<(String, String)>,
}

impl View for VariableTable {
    type V = Map<Seq<char>, Seq<char>>;

    closed spec fn view(&self) -> Map<Seq<char>, Seq<char>> {
        let pairs = pairs_of(self.entries@);
        Map::new(
            |k: Seq<char>| exists|i: int| 0 <= i < pairs.len() && #[trigger] pairs[i].0 == k,
            |k: Seq<char>| pairs[choose|i: int| 0 <= i < pairs.len() && #[trigger] pairs[i].0 == k].1,
        )
    }
}

/// The first components of `pairs`.
spec fn names_of(pairs: Seq<(Seq<char>, Seq<char>)>) -> Set<Seq<char>> {
    Set::new(|k: Seq<char>| exists|i: int| 0 <= i < pairs.len() && #[trigger] pairs[i].0 == k)
}

proof fn lemma_names_count(pairs: Seq<(Seq<char>, Seq<char>)>)
    requires
        distinct_names(pairs),
    ensures
        names_of(pairs).finite(),
        names_of(pairs).len() == pairs.len(),
    decreases pairs.len(),
{
    if pairs.len() == 0 {
        assert(names_of(pairs) =~= Set::<Seq<char>>::empty());
    } else {
        let head = pairs.drop_last();
        let last = pairs.last().0;
        assert forall|i: int, j: int| 0 <= i < j < head.len() implies #[trigger] head[i].0
            != #[trigger] head[j].0 by {
            assert(head[i] == pairs[i] && head[j] == pairs[j]);
        }
        lemma_names_count(head);
        assert(!names_of(head).contains(last)) by {
            if names_of(head).contains(last) {
                let i = choose|i: int| 0 <= i < head.len() && #[trigger] head[i].0 == last;
                assert(pairs[i].0 == pairs[pairs.len() - 1].0);
            }
        }
        assert(names_of(pairs) =~= names_of(head).insert(last)) by {
            assert forall|k: Seq<char>| names_of(pairs).contains(k) implies names_of(head).insert(last).contains(
                k,
            ) by {
                let i = choose|i: int| 0 <= i < pairs.len() && #[trigger] pairs[i].0 == k;
                if i < head.len() {
                    assert(head[i].0 == k);
                }
            }
            assert forall|k: Seq<char>| names_of(head).insert(last).contains(k) implies names_of(pairs).contains(
                k,
            ) by {
                if k == last {
                    assert(pairs[pairs.len() - 1].0 == k);
                } else {
                    let i = choose|i: int| 0 <= i < head.len() && #[trigger] head[i].0 == k;
                    assert(pairs[i].0 == k);
                }
            }
        }
    }
}

/// Whether no two pairs share their first component.
pub open spec fn distinct_names(pairs: Seq<(Seq<char>, Seq<char>)>) -> bool {
    forall|i: int, j: int| 0 <= i < j < pairs.len() ==> #[trigger] pairs[i].0 != #[trigger] pairs[j].0
}

impl VariableTable {
    #[verifier::type_invariant]
    spec fn well_formed(&self) -> bool {
        distinct_names(pairs_of(self.entries@))
    }

    proof fn lemma_lists(&self)
        requires
            self.well_formed(),
        ensures
            lists(pairs_of(self.entries@), self@),
            self@.dom().finite(),
            self@.dom().len() == self.entries@.len(),
    {
        let pairs = pairs_of(self.entries@);
        assert forall|i: int| 0 <= i < pairs.len() implies self@.contains_key(#[trigger] pairs[i].0)
            && self@[pairs[i].0] == pairs[i].1 by {
            let k = pairs[i].0;
            let c = choose|c: int| 0 <= c < pairs.len() && #[trigger] pairs[c].0 == k;
            assert(c == i);
        }
        lemma_names_count(pairs);
        assert(self@.dom() =~= names_of(pairs));
    }

    /// An empty table.
    pub fn new() -> (table: VariableTable)
        ensures
            table@ == Map::<Seq<char>, Seq<char>>::empty(),
    {
        let table = VariableTable { entries: Vec::new() };
        assert(table@ =~= Map::<Seq<char>, Seq<char>>::empty());
        table
    }

    /// The number of entries.
    pub fn len(&self) -> (n: usize)
        ensures
            self@.dom().finite(),
            n == self@.dom().len(),
    {
        proof {
            use_type_invariant(self);
            self.lemma_lists();
        }
        self.entries.len()
    }

    fn position(&self, name: &str) -> (found: Option<usize>)
        ensures
            match found {
                Some(i) => i < self.entries@.len() && self.entries@[i as int].0@ == name@,
                None => forall|i: int| 0 <= i < self.entries@.len() ==> self.entries@[i].0@ != name@,
            },
    {
        let mut i: usize = 0;
        while i < self.entries.len()
            invariant
                i <= self.entries@.len(),
                forall|j: int| 0 <= j < i ==> self.entries@[j].0@ != name@,
            decreases self.entries@.len() - i,
        {
            if same_text(self.entries[i].0.as_str(), name) {
                return Some(i);
            }
            i = i + 1;
        }
        None
    }

    /// Whether the table has an entry under `name`.
    pub fn contains(&self, name: &str) -> (found: bool)
        ensures
            found == self@.contains_key(name@),
    {
        proof {
            use_type_invariant(self);
            self.lemma_lists();
        }
        let at = self.position(name);
        proof {
            let pairs = pairs_of(self.entries@);
            if at is Some {
                assert(pairs[at->0 as int].0 == name@);
            }
        }
        at.is_some()
    }

    /// The value under `name`, if the table has one.
    pub fn get(&self, name: &str) -> (value: Option<String>)
        ensures
            match value {
                Some(v) => self@.contains_key(name@) && self@[name@] == v@,
                None => !self@.contains_key(name@),
            },
    {
        proof {
            use_type_invariant(self);
            self.lemma_lists();
        }
        match self.position(name) {
            Some(i) => {
                assert(pairs_of(self.entries@)[i as int].0 == name@);
                Some(self.entries[i].1.clone())
            },
            None => None,
        }
    }

    /// Puts `value` under `name`. A value that stood there before is
    /// replaced.
    pub fn insert(&mut self, name: String, value: String)
        ensures
            final(self)@ == old(self)@.insert(name@, value@),
    {
        proof {
            use_type_invariant(&*self);
            self.lemma_lists();
        }
        let ghost before = pairs_of(self.entries@);
        let at = self.position(name.as_str());
        let ghost key = name@;
        let ghost val = value@;
        match at {
            Some(i) => {
                let mut entries: Vec<(String, String)> = Vec::new();
                core::mem::swap(&mut self.entries, &mut entries);
                entries.set(i, (name, value));
                proof {
                    let after = pairs_of(entries@);
                    assert(after =~= before.update(i as int, (key, val)));
                    assert forall|a: int, b: int| 0 <= a < b < after.len() implies #[trigger] after[a].0
                        != #[trigger] after[b].0 by {
                        assert(after[a].0 == before[a].0);
                        assert(after[b].0 == before[b].0);
                    }
                }
                core::mem::swap(&mut self.entries, &mut entries);
            },
            None => {
                let mut entries: Vec<(String, String)> = Vec::new();
                core::mem::swap(&mut self.entries, &mut entries);
                entries.push((name, value));
                proof {
                    let after = pairs_of(entries@);
                    assert(after =~= before.push((key, val)));
                    assert forall|a: int, b: int| 0 <= a < b < after.len() implies #[trigger] after[a].0
                        != #[trigger] after[b].0 by {
                        assert(after[a].0 == before[a].0);
                        if b < before.len() {
                            assert(after[b].0 == before[b].0);
                        }
                    }
                }
                core::mem::swap(&mut self.entries, &mut entries);
            },
        }
        proof {
            use_type_invariant(&*self);
            self.lemma_lists();
            let after = pairs_of(self.entries@);
            let want = old(self)@.insert(key, val);
            assert(after =~= if at is Some {
                before.update(at->0 as int, (key, val))
            } else {
                before.push((key, val))
            });
            assert forall|k: Seq<char>| self@.contains_key(k) <==> want.contains_key(k) by {
                if self@.contains_key(k) {
                    let i = choose|i: int| 0 <= i < after.len() && #[trigger] after[i].0 == k;
                    if k != key {
                        assert(before[i].0 == k);
                    }
                }
                if want.contains_key(k) && k != key {
                    let i = choose|i: int| 0 <= i < before.len() && #[trigger] before[i].0 == k;
                    assert(after[i].0 == k);
                }
                if k == key {
                    match at {
                        Some(i) => {
                            assert(after[i as int].0 == k);
                        },
                        None => {
                            assert(after[after.len() - 1].0 == k);
                        },
                    }
                }
            }
            assert forall|k: Seq<char>| self@.contains_key(k) implies self@[k] == want[k] by {
                let i = choose|i: int| 0 <= i < after.len() && #[trigger] after[i].0 == k;
                if k != key {
                    assert(before[i].0 == k);
                    assert(before[i].1 == after[i].1);
                } else {
                    match at {
                        Some(j) => {
                            assert(after[j as int].0 == k);
                        },
                        None => {
                            assert(after[after.len() - 1].0 == k);
                        },
                    }
                }
            }
            assert(self@ =~= want);
        }
    }

    /// The entries in ascending order of their names.
    pub fn sorted(&self) -> (list: Vec<(String, String)>)
        ensures
            ascending(pairs_of(list@)),
            lists(pairs_of(list@), self@),
    {
        proof {
            use_type_invariant(self);
            self.lemma_lists();
        }
        let ghost src = pairs_of(self.entries@);
        let mut out: Vec<(String, String)> = Vec::new();
        let mut n: usize = 0;
        assert(same_items(pairs_of(out@), src.take(0)));
        while n < self.entries.len()
            invariant
                n <= self.entries@.len(),
                src == pairs_of(self.entries@),
                distinct_names(src),
                ascending(pairs_of(out@)),
                same_items(pairs_of(out@), src.take(n as int)),
            decreases self.entries@.len() - n,
        {
            let name = self.entries[n].0.clone();
            let value = self.entries[n].1.clone();
            let ghost o = pairs_of(out@);
            let ghost x = src[n as int];
            assert(x == (name@, value@));
            let mut p: usize = 0;
            while p < out.len() && !comes_before(name.as_str(), out[p].0.as_str())
                invariant
                    p <= out@.len(),
                    o == pairs_of(out@),
                    forall|j: int| 0 <= j < p ==> !precedes(name@, #[trigger] o[j].0),
                decreases out@.len() - p,
            {
                assert(o[p as int].0 == out@[p as int].0@);
                p = p + 1;
            }
            assert(p < o.len() ==> precedes(name@, o[p as int].0));
            out.insert(p, (name, value));
            proof {
                assert(pairs_of(out@) =~= o.insert(p as int, x));
                lemma_insert_keeps_order(o, src, n as int, p as int);
            }
            n = n + 1;
        }
        proof {
            assert(src.take(n as int) == src);
            lemma_same_items_lists(pairs_of(out@), src, self@);
        }
        out
    }

    /// Takes the entry under `name` out of the table and returns its value.
    pub fn remove(&mut self, name: &str) -> (value: Option<String>)
        ensures
            final(self)@ == old(self)@.remove(name@),
            match value {
                Some(v) => old(self)@.contains_key(name@) && old(self)@[name@] == v@,
                None => !old(self)@.contains_key(name@),
            },
    {
        proof {
            use_type_invariant(&*self);
            self.lemma_lists();
        }
        let ghost before = pairs_of(self.entries@);
        match self.position(name) {
            Some(i) => {
                assert(before[i as int].0 == name@);
                let mut entries: Vec<(String, String)> = Vec::new();
                core::mem::swap(&mut self.entries, &mut entries);
                let gone = entries.remove(i);
                proof {
                    let after = pairs_of(entries@);
                    assert(after =~= before.remove(i as int));
                    assert forall|a: int, b: int| 0 <= a < b < after.len() implies #[trigger] after[a].0
                        != #[trigger] after[b].0 by {
                        let x = if a < i { a } else { a + 1 };
                        let y = if b < i { b } else { b + 1 };
                        assert(after[a].0 == before[x].0);
                        assert(after[b].0 == before[y].0);
                    }
                }
                core::mem::swap(&mut self.entries, &mut entries);
                proof {
                    let after = pairs_of(self.entries@);
                    assert(after =~= before.remove(i as int));
                    use_type_invariant(&*self);
                    self.lemma_lists();
                    let want = old(self)@.remove(name@);
                    assert forall|k: Seq<char>| self@.contains_key(k) <==> want.contains_key(k) by {
                        if self@.contains_key(k) {
                            let a = choose|a: int| 0 <= a < after.len() && #[trigger] after[a].0 == k;
                            let x = if a < i { a } else { a + 1 };
                            assert(before[x].0 == k);
                            assert(before[i as int].0 == name@);
                        }
                        if want.contains_key(k) {
                            let x = choose|x: int| 0 <= x < before.len() && #[trigger] before[x].0 == k;
                            let a = if x < i { x } else { x - 1 };
                            assert(after[a].0 == k);
                        }
                    }
                    assert forall|k: Seq<char>| self@.contains_key(k) implies self@[k] == want[k] by {
                        let a = choose|a: int| 0 <= a < after.len() && #[trigger] after[a].0 == k;
                        let x = if a < i { a } else { a + 1 };
                        assert(before[x].0 == k);
                        assert(before[x].1 == after[a].1);
                    }
                    assert(self@ =~= want);
                }
                Some(gone.1)
            },
            None => {
                assert(self@ =~= old(self)@.remove(name@));
                None
            },
        }
    }
}

/// The sorted listing of a table is the only one: two lists in ascending
/// order that list the same table are the same list.
pub proof fn ascending_listing_is_unique(
    a: Seq<(Seq<char>, Seq<char>)>,
    b: Seq<(Seq<char>, Seq<char>)>,
    m: Map<Seq<char>, Seq<char>>,
)
    requires
        ascending(a),
        ascending(b),
        lists(a, m),
        lists(b, m),
    ensures
        a == b,
    decreases a.len(),
{
    if a.len() == 0 {
        if b.len() > 0 {
            assert(m.contains_key(b[0].0));
            let i = choose|i: int| 0 <= i < a.len() && #[trigger] a[i].0 == b[0].0;
        }
        assert(a =~= b);
    } else {
        assert(m.contains_key(a[0].0));
        let j = choose|j: int| 0 <= j < b.len() && #[trigger] b[j].0 == a[0].0;
        assert(m.contains_key(b[0].0));
        let i = choose|i: int| 0 <= i < a.len() && #[trigger] a[i].0 == b[0].0;
        if j > 0 {
            // then b[0] comes before a[0], which is the least of a
            assert(precedes(b[0].0, b[j].0));
            if i > 0 {
                assert(precedes(a[0].0, a[i].0));
                precedes_is_transitive(a[0].0, b[0].0, a[0].0);
            }
            precedes_is_irreflexive(a[0].0);
        }
        assert(b[0].0 == a[0].0);
        assert(m[a[0].0] == a[0].1 && m[b[0].0] == b[0].1);
        let key = a[0].0;
        let rest = m.remove(key);
        let ta = a.skip(1);
        let tb = b.skip(1);
        lemma_tail_lists(a, m);
        lemma_tail_lists(b, m);
        ascending_listing_is_unique(ta, tb, rest);
        assert(a =~= seq![a[0]] + ta);
        assert(b =~= seq![b[0]] + tb);
    }
}

proof fn lemma_tail_lists(a: Seq<(Seq<char>, Seq<char>)>, m: Map<Seq<char>, Seq<char>>)
    requires
        a.len() > 0,
        ascending(a),
        lists(a, m),
    ensures
        ascending(a.skip(1)),
        lists(a.skip(1), m.remove(a[0].0)),
{
    let t = a.skip(1);
    let rest = m.remove(a[0].0);
    assert forall|i: int, j: int| 0 <= i < j < t.len() implies precedes(#[trigger] t[i].0, #[trigger] t[j].0) by {
        assert(t[i] == a[i + 1] && t[j] == a[j + 1]);
        assert(precedes(a[i + 1].0, a[j + 1].0));
    }
    assert forall|i: int| 0 <= i < t.len() implies rest.contains_key(#[trigger] t[i].0) && rest[t[i].0]
        == t[i].1 by {
        assert(t[i] == a[i + 1]);
        assert(precedes(a[0].0, a[i + 1].0));
        precedes_is_irreflexive(a[0].0);
        assert(m.contains_key(a[i + 1].0));
    }
    assert forall|k: Seq<char>| #[trigger] rest.contains_key(k) implies exists|i: int|
        0 <= i < t.len() && #[trigger] t[i].0 == k by {
        assert(m.contains_key(k));
        let i = choose|i: int| 0 <= i < a.len() && #[trigger] a[i].0 == k;
        assert(i > 0);
        assert(t[i - 1].0 == k);
    }
}

} // verus!
