use vstd::prelude::*;
use crate::text::string_of;

verus! {

/// A table from names (NPC ids, item ids) to values. A name entered twice
/// keeps only its latest value.
#[derive(Debug, Clone)]
pub struct NameMap<V> {
    entries: Vec<(String, V)>,
}

/// The value stored under `k` in a list of entries: the last entry with that
/// name wins.
pub open spec fn lookup<V>(s: Seq<(String, V)>, k: Seq<char>) -> Option<V>
    decreases s.len(),
{
    if s.len() == 0 {
        None
    } else if s.last().0@ == k {
        Some(s.last().1)
    } else {
        lookup(s.drop_last(), k)
    }
}

impl<V> NameMap<V> {
    /// The value stored under `k`, if any.
    pub closed spec fn get_spec(&self, k: Seq<char>) -> Option<V> {
        lookup(self.entries@, k)
    }

    pub fn new() -> (m: Self)
        ensures
            forall|k: Seq<char>| #[trigger] m.get_spec(k) is None,
    {
        NameMap { entries: Vec::new() }
    }

    /// Position of the last entry named `k`, if there is one.
    fn find_last(&self, k: &str) -> (r: Option<usize>)
        ensures
            match r {
                Some(i) => i < self.entries@.len() && self.entries@[i as int].0@ == k@
                    && forall|j: int| i < j < self.entries@.len() ==> #[trigger] self.entries@[j].0@ != k@,
                None => forall|j: int| 0 <= j < self.entries@.len() ==> #[trigger] self.entries@[j].0@ != k@,
            },
    {
        let key = string_of(k);
        let mut i: usize = self.entries.len();
        while i > 0
            invariant
                key@ == k@,
                i <= self.entries@.len(),
                forall|j: int| i <= j < self.entries@.len() ==> #[trigger] self.entries@[j].0@ != k@,
            decreases i,
        {
            if self.entries[i - 1].0 == key {
                return Some(i - 1);
            }
            i -= 1;
        }
        None
    }

    proof fn lemma_lookup_last(s: Seq<(String, V)>, k: Seq<char>, i: int)
        requires
            0 <= i < s.len(),
            s[i].0@ == k,
            forall|j: int| i < j < s.len() ==> #[trigger] s[j].0@ != k,
        ensures
            lookup(s, k) == Some(s[i].1),
        decreases s.len(),
    {
        if i < s.len() - 1 {
            assert(s.last() == s[s.len() - 1]);
            assert forall|j: int| i < j < s.drop_last().len() implies #[trigger] s.drop_last()[j].0@ != k by {
                assert(s.drop_last()[j] == s[j]);
            }
            Self::lemma_lookup_last(s.drop_last(), k, i);
        }
    }

    proof fn lemma_lookup_none(s: Seq<(String, V)>, k: Seq<char>)
        requires
            forall|j: int| 0 <= j < s.len() ==> #[trigger] s[j].0@ != k,
        ensures
            lookup(s, k) is None,
        decreases s.len(),
    {
        if s.len() > 0 {
            assert(s.last() == s[s.len() - 1]);
            assert forall|j: int| 0 <= j < s.drop_last().len() implies #[trigger] s.drop_last()[j].0@ != k by {
                assert(s.drop_last()[j] == s[j]);
            }
            Self::lemma_lookup_none(s.drop_last(), k);
        }
    }

    /// The value stored under `k`.
    pub fn get(&self, k: &str) -> (r: Option<&V>)
        ensures
            match r {
                Some(v) => self.get_spec(k@) == Some(*v),
                None => self.get_spec(k@) is None,
            },
    {
        match self.find_last(k) {
            Some(i) => {
                proof { Self::lemma_lookup_last(self.entries@, k@, i as int); }
                Some(&self.entries[i].1)
            }
            None => {
                proof { Self::lemma_lookup_none(self.entries@, k@); }
                None
            }
        }
    }

    /// Stores `v` under `k`, replacing any earlier value.
    pub fn insert(&mut self, k: String, v: V)
        ensures
            forall|k2: Seq<char>| #[trigger] final(self).get_spec(k2)
                == if k2 == k@ { Some(v) } else { old(self).get_spec(k2) },
    {
        let ghost old_entries = self.entries@;
        match self.find_last(k.as_str()) {
            Some(i) => {
                self.entries.set(i, (k, v));
                proof {
                    let s = self.entries@;
                    assert forall|k2: Seq<char>| #[trigger] lookup(s, k2)
                        == if k2 == k@ { Some(v) } else { lookup(old_entries, k2) } by {
                        Self::lemma_lookup_update(old_entries, i as int, k@, v, k2);
                    }
                }
            }
            None => {
                self.entries.push((k, v));
                proof {
                    let s = self.entries@;
                    assert(s.drop_last() =~= old_entries);
                }
            }
        }
    }

    proof fn lemma_lookup_update(s: Seq<(String, V)>, i: int, k: Seq<char>, v: V, k2: Seq<char>)
        requires
            0 <= i < s.len(),
            s[i].0@ == k,
            forall|j: int| i < j < s.len() ==> #[trigger] s[j].0@ != k,
        ensures
            forall|name: String| #[trigger] name@ == k ==>
                lookup(s.update(i, (name, v)), k2) == if k2 == k { Some(v) } else { lookup(s, k2) },
        decreases s.len(),
    {
        assert forall|name: String| #[trigger] name@ == k implies
            lookup(s.update(i, (name, v)), k2) == if k2 == k { Some(v) } else { lookup(s, k2) } by {
            let t = s.update(i, (name, v));
            if i == s.len() - 1 {
                assert(t.drop_last() =~= s.drop_last());
            } else {
                assert(t.drop_last() =~= s.drop_last().update(i, (name, v)));
                assert forall|j: int| i < j < s.drop_last().len() implies #[trigger] s.drop_last()[j].0@ != k by {
                    assert(s.drop_last()[j] == s[j]);
                }
                Self::lemma_lookup_update(s.drop_last(), i, k, v, k2);
                assert(t.last() == s.last());
            }
        }
    }

    proof fn lemma_lookup_some(s: Seq<(String, V)>, k: Seq<char>)
        ensures
            lookup(s, k) is Some <==> exists|j: int| 0 <= j < s.len() && #[trigger] s[j].0@ == k,
        decreases s.len(),
    {
        if s.len() > 0 {
            Self::lemma_lookup_some(s.drop_last(), k);
            if lookup(s.drop_last(), k) is Some {
                let j = choose|j: int| 0 <= j < s.drop_last().len() && #[trigger] s.drop_last()[j].0@ == k;
                assert(s[j].0@ == k);
            }
            if exists|j: int| 0 <= j < s.len() && #[trigger] s[j].0@ == k {
                let j = choose|j: int| 0 <= j < s.len() && #[trigger] s[j].0@ == k;
                if j < s.len() - 1 {
                    assert(s.drop_last()[j].0@ == k);
                }
            }
        }
    }

    /// The names that have a value, each listed once or more.
    pub fn names(&self) -> (r: Vec<String>)
        ensures
            forall|k: Seq<char>| #[trigger] self.get_spec(k) is Some <==> exists|i: int| 0 <= i < r.len() && r@[i]@ == k,
    {
        let mut r: Vec<String> = Vec::new();
        let mut i: usize = 0;
        while i < self.entries.len()
            invariant
                i <= self.entries.len(),
                r.len() == i,
                forall|j: int| 0 <= j < i ==> (#[trigger] r@[j])@ == self.entries@[j].0@,
            decreases self.entries.len() - i,
        {
            r.push(self.entries[i].0.clone());
            i = i + 1;
        }
        proof {
            assert forall|k: Seq<char>| #[trigger] self.get_spec(k) is Some <==> exists|i: int| 0 <= i < r.len() && r@[i]@ == k by {
                Self::lemma_lookup_some(self.entries@, k);
                if exists|i: int| 0 <= i < r.len() && r@[i]@ == k {
                    let i = choose|i: int| 0 <= i < r.len() && r@[i]@ == k;
                    assert(self.entries@[i].0@ == k);
                }
                if self.get_spec(k) is Some {
                    let j = choose|j: int| 0 <= j < self.entries@.len() && #[trigger] self.entries@[j].0@ == k;
                    assert(r@[j]@ == k);
                }
            }
        }
        r
    }
}

} // verus!
