//! The per-endpoint price list: endpoint names mapped to prices in GATE tokens.

use vstd::prelude::*;

verus! {

/// The map that a list of (name, price) entries stands for; a later entry for
/// the same name overrides an earlier one.
pub open spec fn entries_map(s: Seq<(String, u32)>) -> Map<Seq<char>, u32>
    decreases s.len(),
{
    if s.len() == 0 {
        Map::empty()
    } else {
        entries_map(s.drop_last()).insert(s.last().0@, s.last().1)
    }
}

/// No endpoint name occurs twice in the list.
pub open spec fn names_distinct(s: Seq<(String, u32)>) -> bool {
    forall|i: int, j: int| 0 <= i < j < s.len() ==> (#[trigger] s[i]).0@ != (#[trigger] s[j]).0@
}

proof fn lemma_entries_lookup(s: Seq<(String, u32)>, i: int)
    requires
        names_distinct(s),
        0 <= i < s.len(),
    ensures
        entries_map(s).contains_key(s[i].0@),
        entries_map(s)[s[i].0@] == s[i].1,
    decreases s.len(),
{
    if i < s.len() - 1 {
        let d = s.drop_last();
        assert(d[i] == s[i]);
        assert(names_distinct(d)) by {
            assert forall|a: int, b: int| 0 <= a < b < d.len() implies (#[trigger] d[a]).0@ != (
            #[trigger] d[b]).0@ by {
                assert(d[a] == s[a] && d[b] == s[b]);
            }
        }
        lemma_entries_lookup(d, i);
        assert(s[i].0@ != s[s.len() - 1].0@);
    }
}

proof fn lemma_entries_absent(s: Seq<(String, u32)>, k: Seq<char>)
    requires
        forall|i: int| 0 <= i < s.len() ==> (#[trigger] s[i]).0@ != k,
    ensures
        !entries_map(s).contains_key(k),
    decreases s.len(),
{
    if s.len() > 0 {
        let d = s.drop_last();
        assert forall|i: int| 0 <= i < d.len() implies (#[trigger] d[i]).0@ != k by {
            assert(d[i] == s[i]);
        }
        lemma_entries_absent(d, k);
        assert(s.last() == s[s.len() - 1]);
    }
}

proof fn lemma_entries_update(s: Seq<(String, u32)>, i: int, e: (String, u32))
    requires
        names_distinct(s),
        0 <= i < s.len(),
        s[i].0@ == e.0@,
    ensures
        entries_map(s.update(i, e)) == entries_map(s).insert(e.0@, e.1),
    decreases s.len(),
{
    let u = s.update(i, e);
    let d = s.drop_last();
    if i == s.len() - 1 {
        assert(u.drop_last() =~= d);
        assert(entries_map(u) =~= entries_map(s).insert(e.0@, e.1));
    } else {
        assert(u.drop_last() =~= d.update(i, e));
        assert(names_distinct(d)) by {
            assert forall|a: int, b: int| 0 <= a < b < d.len() implies (#[trigger] d[a]).0@ != (
            #[trigger] d[b]).0@ by {
                assert(d[a] == s[a] && d[b] == s[b]);
            }
        }
        assert(d[i] == s[i]);
        lemma_entries_update(d, i, e);
        assert(s[i].0@ != s[s.len() - 1].0@);
        assert(u.last() == s.last());
        assert(entries_map(u) =~= entries_map(s).insert(e.0@, e.1));
    }
}

/// Prices configured per endpoint name.
pub struct PriceTable {
    entries: Vec<(String, u32)>,
}

impl View for PriceTable {
    type V = Map<Seq<char>, u32>;

    closed spec fn view(&self) -> Map<Seq<char>, u32> {
        entries_map(self.entries@)
    }
}

impl PriceTable {
    /// The list holds each endpoint name once.
    pub closed spec fn wf(&self) -> bool {
        names_distinct(self.entries@)
    }

    /// A list with no configured price.
    pub fn new() -> (t: PriceTable)
        ensures
            t.wf(),
            t@ == Map::<Seq<char>, u32>::empty(),
    {
        PriceTable { entries: Vec::new() }
    }

    /// The configured price of `endpoint`, if any.
    pub fn get(&self, endpoint: &String) -> (r: Option<u32>)
        requires
            self.wf(),
        ensures
            r == (if self@.contains_key(endpoint@) {
                Some(self@[endpoint@])
            } else {
                None::<u32>
            }),
    {
        let n = self.entries.len();
        for j in 0..n
            invariant
                n == self.entries@.len(),
                self.wf(),
                forall|t: int| 0 <= t < j ==> (#[trigger] self.entries@[t]).0@ != endpoint@,
        {
            if self.entries[j].0 == *endpoint {
                proof {
                    lemma_entries_lookup(self.entries@, j as int);
                }
                return Some(self.entries[j].1);
            }
        }
        proof {
            lemma_entries_absent(self.entries@, endpoint@);
        }
        None
    }

    /// Sets the price of `endpoint`, replacing any earlier one.
    pub fn set(&mut self, endpoint: String, price: u32)
        requires
            old(self).wf(),
        ensures
            final(self).wf(),
            final(self)@ == old(self)@.insert(endpoint@, price),
    {
        let n = self.entries.len();
        for j in 0..n
            invariant
                n == self.entries@.len(),
                self.entries@ == old(self).entries@,
                names_distinct(self.entries@),
                forall|t: int| 0 <= t < j ==> (#[trigger] self.entries@[t]).0@ != endpoint@,
        {
            if self.entries[j].0 == endpoint {
                let ghost e = (endpoint, price);
                proof {
                    lemma_entries_update(self.entries@, j as int, e);
                }
                let ghost before = self.entries@;
                self.entries.set(j, (endpoint, price));
                assert(self.entries@ =~= before.update(j as int, e));
                assert(names_distinct(self.entries@)) by {
                    assert forall|a: int, b: int|
                        0 <= a < b < self.entries@.len() implies (
                    #[trigger] self.entries@[a]).0@ != (#[trigger] self.entries@[b]).0@ by {
                        if a != j && b != j {
                            assert(before[a].0@ != before[b].0@);
                        } else if a == j {
                            assert(before[j as int].0@ != before[b].0@);
                        } else {
                            assert(before[a].0@ != before[j as int].0@);
                        }
                    }
                }
                return;
            }
        }
        let ghost before = self.entries@;
        self.entries.push((endpoint, price));
        assert(self.entries@.drop_last() =~= before);
        assert(names_distinct(self.entries@)) by {
            assert forall|a: int, b: int| 0 <= a < b < self.entries@.len() implies (
            #[trigger] self.entries@[a]).0@ != (#[trigger] self.entries@[b]).0@ by {
                if b < before.len() {
                    assert(before[a].0@ != before[b].0@);
                } else {
                    assert(self.entries@[a] == before[a]);
                }
            }
        }
    }
}

} // verus!
