//! The two process-wide stores behind rate limiting: a map from rate-limit
//! key to the last-activity timestamp, and the set of currently held mutex
//! keys.  Both are association lists with unique keys; their mathematical
//! models are a `Map<Seq<char>, u64>` and a `Set<Seq<char>>`.

use vstd::prelude::*;

verus! {

/// The map described by an association list, later pairs winning.
pub open spec fn map_of(s: Seq<(String, u64)>) -> Map<Seq<char>, u64>
    decreases s.len(),
{
    if s.len() == 0 {
        Map::empty()
    } else {
        map_of(s.drop_last()).insert(s.last().0@, s.last().1)
    }
}

/// The set described by a list of keys.
pub open spec fn set_of(s: Seq<String>) -> Set<Seq<char>>
    decreases s.len(),
{
    if s.len() == 0 {
        Set::empty()
    } else {
        set_of(s.drop_last()).insert(s.last()@)
    }
}

pub open spec fn keys_unique(s: Seq<(String, u64)>) -> bool {
    forall|i: int, j: int| 0 <= i < j < s.len() ==> s[i].0@ != s[j].0@
}

pub open spec fn elems_unique(s: Seq<String>) -> bool {
    forall|i: int, j: int| 0 <= i < j < s.len() ==> s[i]@ != s[j]@
}

proof fn lemma_map_of_contains(s: Seq<(String, u64)>, k: Seq<char>)
    ensures
        map_of(s).contains_key(k) <==> exists|i: int| 0 <= i < s.len() && s[i].0@ == k,
    decreases s.len(),
{
    if s.len() > 0 {
        lemma_map_of_contains(s.drop_last(), k);
        if map_of(s).contains_key(k) {
            if s.last().0@ != k {
                let i = choose|i: int| 0 <= i < s.drop_last().len() && s.drop_last()[i].0@ == k;
                assert(s[i].0@ == k);
            }
        } else {
            assert(forall|i: int| 0 <= i < s.len() - 1 ==> s.drop_last()[i] == s[i]);
        }
    }
}

proof fn lemma_map_of_index(s: Seq<(String, u64)>, i: int)
    requires
        keys_unique(s),
        0 <= i < s.len(),
    ensures
        map_of(s).contains_key(s[i].0@),
        map_of(s)[s[i].0@] == s[i].1,
    decreases s.len(),
{
    lemma_map_of_contains(s, s[i].0@);
    if i < s.len() - 1 {
        assert(s.last().0@ != s[i].0@);
        assert(s.drop_last()[i] == s[i]);
        lemma_map_of_index(s.drop_last(), i);
    }
}

proof fn lemma_map_insert_commute(m: Map<Seq<char>, u64>, k1: Seq<char>, v1: u64, k2: Seq<char>, v2: u64)
    requires
        k1 != k2,
    ensures
        m.insert(k1, v1).insert(k2, v2) == m.insert(k2, v2).insert(k1, v1),
{
    assert(m.insert(k1, v1).insert(k2, v2) =~= m.insert(k2, v2).insert(k1, v1));
}

proof fn lemma_map_of_update(s: Seq<(String, u64)>, i: int, p: (String, u64))
    requires
        keys_unique(s),
        0 <= i < s.len(),
        p.0@ == s[i].0@,
    ensures
        map_of(s.update(i, p)) == map_of(s).insert(p.0@, p.1),
    decreases s.len(),
{
    let t = s.update(i, p);
    if i == s.len() - 1 {
        assert(t.drop_last() =~= s.drop_last());
        assert(t.last() == p);
    } else {
        assert(t.drop_last() =~= s.drop_last().update(i, p));
        assert(s.drop_last()[i] == s[i]);
        lemma_map_of_update(s.drop_last(), i, p);
        assert(s.last().0@ != p.0@);
        lemma_map_insert_commute(map_of(s.drop_last()), p.0@, p.1, s.last().0@, s.last().1);
        assert(t.last() == s.last());
    }
}

proof fn lemma_set_of_contains(s: Seq<String>, k: Seq<char>)
    ensures
        set_of(s).contains(k) <==> exists|i: int| 0 <= i < s.len() && s[i]@ == k,
    decreases s.len(),
{
    if s.len() > 0 {
        lemma_set_of_contains(s.drop_last(), k);
        if set_of(s).contains(k) {
            if s.last()@ != k {
                let i = choose|i: int| 0 <= i < s.drop_last().len() && s.drop_last()[i]@ == k;
                assert(s[i]@ == k);
            }
        } else {
            assert(forall|i: int| 0 <= i < s.len() - 1 ==> s.drop_last()[i] == s[i]);
        }
    }
}

proof fn lemma_set_of_remove(s: Seq<String>, i: int)
    requires
        elems_unique(s),
        0 <= i < s.len(),
    ensures
        set_of(s.remove(i)) == set_of(s).remove(s[i]@),
    decreases s.len(),
{
    let t = s.remove(i);
    if i == s.len() - 1 {
        assert(t =~= s.drop_last());
        lemma_set_of_contains(s.drop_last(), s[i]@);
        assert(!set_of(s.drop_last()).contains(s[i]@));
        assert(set_of(s.drop_last()) =~= set_of(s).remove(s[i]@));
    } else {
        assert(t.drop_last() =~= s.drop_last().remove(i));
        assert(s.drop_last()[i] == s[i]);
        lemma_set_of_remove(s.drop_last(), i);
        assert(t.last() == s.last());
        assert(s.last()@ != s[i]@);
        assert(set_of(s.drop_last()).remove(s[i]@).insert(s.last()@)
            =~= set_of(s.drop_last()).insert(s.last()@).remove(s[i]@));
    }
}

/// Last-activity timestamps, in milliseconds on a monotonic clock, keyed by
/// rate-limit key.  Entries are never evicted; an insert for a present key
/// overwrites its timestamp.
pub struct LimitCache {
    entries: Vec<(String, u64)>,
}

impl View for LimitCache {
    type V = Map<Seq<char>, u64>;

    closed spec fn view(&self) -> Map<Seq<char>, u64> {
        map_of(self.entries@)
    }
}

impl LimitCache {
    pub closed spec fn wf(&self) -> bool {
        keys_unique(self.entries@)
    }

    pub fn new() -> (r: LimitCache)
        ensures
            r.wf(),
            r@ == Map::<Seq<char>, u64>::empty(),
    {
        LimitCache { entries: Vec::new() }
    }

    fn position(&self, key: &str) -> (r: Option<usize>)
        ensures
            r matches Some(i) ==> i < self.entries@.len() && self.entries@[i as int].0@ == key@,
            r is None ==> forall|i: int| 0 <= i < self.entries@.len() ==> self.entries@[i].0@ != key@,
    {
        let k = key.to_owned();
        let n = self.entries.len();
        for i in 0..n
            invariant
                k@ == key@,
                n == self.entries@.len(),
                forall|j: int| 0 <= j < i ==> self.entries@[j].0@ != key@,
        {
            if k.eq(&self.entries[i].0) {
                return Some(i);
            }
        }
        None
    }

    /// The timestamp recorded under `key`, if one is present.
    pub fn get_ms(&self, key: &str) -> (r: Option<u64>)
        requires
            self.wf(),
        ensures
            r matches Some(v) ==> self@.contains_key(key@) && self@[key@] == v,
            r is None ==> !self@.contains_key(key@),
    {
        proof {
            lemma_map_of_contains(self.entries@, key@);
        }
        match self.position(key) {
            Some(i) => {
                proof {
                    lemma_map_of_index(self.entries@, i as int);
                }
                Some(self.entries[i].1)
            }
            None => None,
        }
    }

    /// Record `now` as the last activity under `key`, overwriting any earlier
    /// timestamp.
    pub fn set_ms(&mut self, key: &str, now: u64)
        requires
            old(self).wf(),
        ensures
            final(self).wf(),
            final(self)@ == old(self)@.insert(key@, now),
    {
        let owned = key.to_owned();
        match self.position(key) {
            Some(i) => {
                proof {
                    lemma_map_of_update(self.entries@, i as int, (owned, now));
                }
                self.entries.set(i, (owned, now));
            }
            None => {
                let ghost s = self.entries@;
                self.entries.push((owned, now));
                proof {
                    assert(self.entries@.drop_last() =~= s);
                }
            }
        }
    }
}

/// The set of mutex keys currently held by an executing invocation.
pub struct MutexKeys {
    held: Vec<String>,
}

impl View for MutexKeys {
    type V = Set<Seq<char>>;

    closed spec fn view(&self) -> Set<Seq<char>> {
        set_of(self.held@)
    }
}

impl MutexKeys {
    pub closed spec fn wf(&self) -> bool {
        elems_unique(self.held@)
    }

    pub fn new() -> (r: MutexKeys)
        ensures
            r.wf(),
            r@ == Set::<Seq<char>>::empty(),
    {
        MutexKeys { held: Vec::new() }
    }

    fn position(&self, key: &str) -> (r: Option<usize>)
        ensures
            r matches Some(i) ==> i < self.held@.len() && self.held@[i as int]@ == key@,
            r is None ==> forall|i: int| 0 <= i < self.held@.len() ==> self.held@[i]@ != key@,
    {
        let k = key.to_owned();
        let n = self.held.len();
        for i in 0..n
            invariant
                k@ == key@,
                n == self.held@.len(),
                forall|j: int| 0 <= j < i ==> self.held@[j]@ != key@,
        {
            if k.eq(&self.held[i]) {
                return Some(i);
            }
        }
        None
    }

    /// Whether `key` is currently held.
    pub fn holds(&self, key: &str) -> (r: bool)
        ensures
            r == self@.contains(key@),
    {
        proof {
            lemma_set_of_contains(self.held@, key@);
        }
        self.position(key).is_some()
    }

    /// Add `key` to the held set.
    pub fn add(&mut self, key: &str)
        requires
            old(self).wf(),
            !old(self)@.contains(key@),
        ensures
            final(self).wf(),
            final(self)@ == old(self)@.insert(key@),
    {
        let ghost s = self.held@;
        proof {
            lemma_set_of_contains(s, key@);
        }
        self.held.push(key.to_owned());
        proof {
            assert(self.held@.drop_last() =~= s);
        }
    }

    /// Drop `key` from the held set; a key that is not held is left alone.
    pub fn drop_key(&mut self, key: &str)
        requires
            old(self).wf(),
        ensures
            final(self).wf(),
            final(self)@ == old(self)@.remove(key@),
    {
        proof {
            lemma_set_of_contains(self.held@, key@);
        }
        match self.position(key) {
            Some(i) => {
                proof {
                    lemma_set_of_remove(self.held@, i as int);
                }
                let _ = self.held.remove(i);
                proof {
                    assert forall|a: int, b: int| 0 <= a < b < self.held@.len() implies self.held@[a]@ != self.held@[b]@ by {
                    }
                }
            }
            None => {
                proof {
                    assert(self@ =~= self@.remove(key@));
                }
            }
        }
    }
}

} // verus!
