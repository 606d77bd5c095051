//! Association maps from account-id strings to values, the shape every
//! ledger and registry in this crate shares.  A map is a vector of
//! key/value entries with pairwise-distinct keys; its abstraction is the
//! finite `Map` from key views to values.

use vstd::prelude::*;

verus! {

/// The finite map an entry sequence stands for: later entries win,
/// although with distinct keys each key occurs once.
pub open spec fn map_of<V>(s: Seq<(String, V)>) -> Map<Seq<char>, V>
    decreases s.len(),
{
    if s.len() == 0 {
        Map::empty()
    } else {
        map_of(s.drop_last()).insert(s.last().0@, s.last().1)
    }
}

/// No two entries share a key.
pub open spec fn distinct_keys<V>(s: Seq<(String, V)>) -> bool {
    forall|i: int, j: int| 0 <= i < j < s.len() ==> s[i].0@ != s[j].0@
}

pub proof fn lemma_map_of_contains<V>(s: Seq<(String, V)>, k: Seq<char>)
    ensures
        map_of(s).contains_key(k) <==> (exists|i: int| 0 <= i < s.len() && s[i].0@ == k),
    decreases s.len(),
{
    if s.len() > 0 {
        lemma_map_of_contains(s.drop_last(), k);
        if s.last().0@ == k {
            assert(s[s.len() - 1].0@ == k);
        } else {
            if exists|i: int| 0 <= i < s.len() && s[i].0@ == k {
                let i = choose|i: int| 0 <= i < s.len() && s[i].0@ == k;
                assert(s.drop_last()[i] == s[i]);
            }
        }
    }
}

pub proof fn lemma_map_of_get<V>(s: Seq<(String, V)>, i: int)
    requires
        distinct_keys(s),
        0 <= i < s.len(),
    ensures
        map_of(s).contains_key(s[i].0@),
        map_of(s)[s[i].0@] == s[i].1,
    decreases s.len(),
{
    if i == s.len() - 1 {
    } else {
        assert(distinct_keys(s.drop_last()));
        assert(s.drop_last()[i] == s[i]);
        lemma_map_of_get(s.drop_last(), i);
        assert(s[i].0@ != s.last().0@);
    }
}

pub proof fn lemma_map_of_update<V>(s: Seq<(String, V)>, i: int, e: (String, V))
    requires
        distinct_keys(s),
        0 <= i < s.len(),
        e.0@ == s[i].0@,
    ensures
        distinct_keys(s.update(i, e)),
        map_of(s.update(i, e)) =~= map_of(s).insert(e.0@, e.1),
    decreases s.len(),
{
    let t = s.update(i, e);
    assert forall|p: int, q: int| 0 <= p < q < t.len() implies t[p].0@ != t[q].0@ by {
        assert(s[p].0@ != s[q].0@);
    }
    if i == s.len() - 1 {
        assert(t.drop_last() =~= s.drop_last());
        assert(t.last() == e);
    } else {
        assert(distinct_keys(s.drop_last()));
        assert(t.drop_last() =~= s.drop_last().update(i, e));
        assert(s.drop_last()[i] == s[i]);
        lemma_map_of_update(s.drop_last(), i, e);
        assert(t.last() == s.last());
        assert(s.last().0@ != e.0@);
    }
}

pub proof fn lemma_map_of_push<V>(s: Seq<(String, V)>, e: (String, V))
    requires
        distinct_keys(s),
        forall|i: int| 0 <= i < s.len() ==> s[i].0@ != e.0@,
    ensures
        distinct_keys(s.push(e)),
        map_of(s.push(e)) == map_of(s).insert(e.0@, e.1),
{
    let t = s.push(e);
    assert forall|p: int, q: int| 0 <= p < q < t.len() implies t[p].0@ != t[q].0@ by {
        if q < s.len() {
            assert(s[p].0@ != s[q].0@);
        } else {
            assert(t[q] == e);
            assert(t[p] == s[p]);
        }
    }
    assert(t.drop_last() =~= s);
    assert(t.last() == e);
}

pub proof fn lemma_map_of_remove<V>(s: Seq<(String, V)>, i: int)
    requires
        distinct_keys(s),
        0 <= i < s.len(),
    ensures
        distinct_keys(s.remove(i)),
        map_of(s.remove(i)) =~= map_of(s).remove(s[i].0@),
    decreases s.len(),
{
    let t = s.remove(i);
    assert forall|p: int, q: int| 0 <= p < q < t.len() implies t[p].0@ != t[q].0@ by {
        let p0 = if p < i { p } else { p + 1 };
        let q0 = if q < i { q } else { q + 1 };
        assert(t[p] == s[p0]);
        assert(t[q] == s[q0]);
        assert(s[p0].0@ != s[q0].0@);
    }
    if i == s.len() - 1 {
        assert(t =~= s.drop_last());
        lemma_map_of_contains(s.drop_last(), s[i].0@);
        assert(forall|j: int| 0 <= j < s.drop_last().len() ==> s.drop_last()[j] == s[j]);
        assert(!map_of(s.drop_last()).contains_key(s[i].0@));
    } else {
        assert(distinct_keys(s.drop_last()));
        assert(s.drop_last()[i] == s[i]);
        lemma_map_of_remove(s.drop_last(), i);
        assert(t.drop_last() =~= s.drop_last().remove(i));
        assert(t.last() == s.last());
        assert(s.last().0@ != s[i].0@);
    }
}

/// The balance a ledger holds under `k`: absent keys hold zero.
pub open spec fn balance_or_zero(m: Map<Seq<char>, u128>, k: Seq<char>) -> u128 {
    if m.contains_key(k) {
        m[k]
    } else {
        0
    }
}

/// A map from string keys to values of type `V`, stored as a vector of
/// entries with distinct keys.
pub struct AssocMap<V> {
    entries: Vec<(String, V)>,
}

impl<V> View for AssocMap<V> {
    type V = Map<Seq<char>, V>;

    closed spec fn view(&self) -> Map<Seq<char>, V> {
        map_of(self.entries@)
    }
}

impl<V> AssocMap<V> {
    /// Well-formed: no key occurs twice.
    pub closed spec fn wf(self) -> bool {
        distinct_keys(self.entries@)
    }

    pub fn new() -> (m: Self)
        ensures
            m.wf(),
            m@ == Map::<Seq<char>, V>::empty(),
    {
        AssocMap { entries: Vec::new() }
    }

    /// Index of the entry holding `k`, if any.
    fn index_of(&self, k: &String) -> (r: Option<usize>)
        ensures
            match r {
                Some(i) => i < self.entries@.len() && self.entries@[i as int].0@ == k@,
                None => forall|i: int| 0 <= i < self.entries@.len() ==> self.entries@[i].0@ != k@,
            },
    {
        let n = self.entries.len();
        for i in 0..n
            invariant
                n == self.entries@.len(),
                forall|j: int| 0 <= j < i ==> self.entries@[j].0@ != k@,
        {
            if self.entries[i].0 == *k {
                return Some(i);
            }
        }
        None
    }

    pub fn contains_key(&self, k: &String) -> (b: bool)
        ensures
            b == self@.contains_key(k@),
    {
        proof {
            lemma_map_of_contains(self.entries@, k@);
        }
        self.index_of(k).is_some()
    }

    pub fn get(&self, k: &String) -> (r: Option<&V>)
        requires
            self.wf(),
        ensures
            match r {
                Some(v) => self@.contains_key(k@) && *v == self@[k@],
                None => !self@.contains_key(k@),
            },
    {
        proof {
            lemma_map_of_contains(self.entries@, k@);
        }
        match self.index_of(k) {
            Some(i) => {
                proof {
                    lemma_map_of_get(self.entries@, i as int);
                }
                Some(&self.entries[i].1)
            },
            None => None,
        }
    }

    /// Insert or replace the value under `k`.
    pub fn insert(&mut self, k: String, v: V)
        requires
            old(self).wf(),
        ensures
            final(self).wf(),
            final(self)@ == old(self)@.insert(k@, v),
    {
        let ghost kk = k@;
        let _ = self.remove(&k);
        let ghost s0 = self.entries@;
        proof {
            lemma_map_of_contains(s0, kk);
        }
        self.entries.push((k, v));
        proof {
            let e = self.entries@.last();
            assert(self.entries@ == s0.push(e));
            assert(e.0@ == kk);
            lemma_map_of_push(s0, e);
            assert(old(self)@.remove(kk).insert(kk, e.1) =~= old(self)@.insert(kk, e.1));
        }
    }

    /// Remove the entry under `k`, returning its value.
    pub fn remove(&mut self, k: &String) -> (r: Option<V>)
        requires
            old(self).wf(),
        ensures
            final(self).wf(),
            final(self)@ == old(self)@.remove(k@),
            match r {
                Some(v) => old(self)@.contains_key(k@) && v == old(self)@[k@],
                None => !old(self)@.contains_key(k@),
            },
    {
        proof {
            lemma_map_of_contains(self.entries@, k@);
        }
        match self.index_of(k) {
            Some(i) => {
                proof {
                    lemma_map_of_get(self.entries@, i as int);
                    lemma_map_of_remove(self.entries@, i as int);
                }
                let e = self.entries.remove(i);
                Some(e.1)
            },
            None => {
                proof {
                    assert(self@ =~= self@.remove(k@));
                }
                None
            },
        }
    }

    pub fn is_empty(&self) -> (b: bool)
        ensures
            b == (self@ == Map::<Seq<char>, V>::empty()),
    {
        proof {
            if self.entries@.len() > 0 {
                lemma_map_of_contains(self.entries@, self.entries@[0].0@);
            } else {
                assert(self@ =~= Map::<Seq<char>, V>::empty());
            }
        }
        self.entries.is_empty()
    }

    /// Some key of the map, if it is not empty.  Which key comes first is
    /// an implementation detail, so nothing more is promised of it.
    pub fn first_key(&self) -> (r: Option<&String>)
        ensures
            match r {
                Some(k) => self@.contains_key(k@),
                None => self@ == Map::<Seq<char>, V>::empty(),
            },
    {
        if self.entries.len() > 0 {
            proof {
                lemma_map_of_contains(self.entries@, self.entries@[0].0@);
            }
            Some(&self.entries[0].0)
        } else {
            proof {
                assert(self@ =~= Map::<Seq<char>, V>::empty());
            }
            None
        }
    }
}

impl AssocMap<u128> {
    /// The balance under `k`, zero when the key is absent.
    pub fn get_or_zero(&self, k: &String) -> (r: u128)
        requires
            self.wf(),
        ensures
            r == balance_or_zero(self@, k@),
    {
        match self.get(k) {
            Some(v) => *v,
            None => 0,
        }
    }
}

} // verus!
