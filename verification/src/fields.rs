//! A mapping of field name to [`FieldValue`], with
//! overwrite-on-duplicate-key semantics. It carries the additional
//! fields configured on an appender and the structured attributes of a
//! record, and is viewed in contracts as a mathematical map from the
//! key's characters to the stored value.

use vstd::prelude::*;
use crate::value::FieldValue;

verus! {

/// Keys of the entry sequence are pairwise distinct.
pub open spec fn keys_unique(s: Seq<(String, FieldValue)>) -> bool {
    forall|i: int, j: int| 0 <= i < j < s.len() ==> s[i].0@ != s[j].0@
}

/// The mathematical map described by an entry sequence: entries are
/// folded in order, so on a duplicate key the later entry wins.
pub open spec fn map_of(s: Seq<(String, FieldValue)>) -> Map<Seq<char>, FieldValue>
    decreases s.len(),
{
    if s.len() == 0 {
        Map::empty()
    } else {
        map_of(s.drop_last()).insert(s.last().0@, s.last().1)
    }
}

/// A mapping of field name to value; duplicate insertion overwrites.
#[derive(Debug)]
pub struct FieldMap {
    pub entries: Vec<(String, FieldValue)>,
}

impl View for FieldMap {
    type V = Map<Seq<char>, FieldValue>;

    open spec fn view(&self) -> Map<Seq<char>, FieldValue> {
        map_of(self.entries@)
    }
}

/// A key is in the map exactly when some entry holds it.
pub proof fn lemma_map_of_contains(s: Seq<(String, FieldValue)>, k: Seq<char>)
    ensures
        map_of(s).contains_key(k) <==> exists|i: int| 0 <= i < s.len() && s[i].0@ == k,
    decreases s.len(),
{
    if s.len() > 0 {
        lemma_map_of_contains(s.drop_last(), k);
        if s.last().0@ == k {
            assert(s[s.len() - 1].0@ == k);
        } else if map_of(s).contains_key(k) {
            let i = choose|i: int| 0 <= i < s.drop_last().len() && s.drop_last()[i].0@ == k;
            assert(s[i].0@ == k);
        } else {
            assert(forall|i: int| 0 <= i < s.len() - 1 ==> s.drop_last()[i] == s[i]);
        }
    }
}

/// With unique keys, the map's value at an entry's key is that entry's
/// value.
pub proof fn lemma_map_of_at(s: Seq<(String, FieldValue)>, i: int)
    requires
        keys_unique(s),
        0 <= i < s.len(),
    ensures
        map_of(s).contains_key(s[i].0@),
        map_of(s)[s[i].0@] == s[i].1,
    decreases s.len(),
{
    if i == s.len() - 1 {
    } else {
        assert(forall|j: int| 0 <= j < s.len() - 1 ==> s.drop_last()[j] == s[j]);
        lemma_map_of_at(s.drop_last(), i);
        assert(s[i].0@ != s.last().0@);
    }
}

/// Replacing the entry at `i` by one with the same key updates the map
/// at that key alone.
pub proof fn lemma_map_of_update(s: Seq<(String, FieldValue)>, i: int, e: (String, FieldValue))
    requires
        keys_unique(s),
        0 <= i < s.len(),
        e.0@ == s[i].0@,
    ensures
        map_of(s.update(i, e)) == map_of(s).insert(e.0@, e.1),
    decreases s.len(),
{
    let t = s.update(i, e);
    if i == s.len() - 1 {
        assert(t.drop_last() =~= s.drop_last());
        assert(t.last() == e);
        assert(map_of(s.drop_last()).insert(s.last().0@, s.last().1).insert(e.0@, e.1)
            =~= map_of(s.drop_last()).insert(e.0@, e.1));
    } else {
        assert(forall|j: int| 0 <= j < s.len() - 1 ==> s.drop_last()[j] == s[j]);
        lemma_map_of_update(s.drop_last(), i, e);
        assert(t.drop_last() =~= s.drop_last().update(i, e));
        assert(t.last() == s.last());
        assert(s[i].0@ != s.last().0@);
        assert(map_of(s.drop_last()).insert(e.0@, e.1).insert(s.last().0@, s.last().1)
            =~= map_of(s.drop_last()).insert(s.last().0@, s.last().1).insert(e.0@, e.1));
    }
}

/// With unique keys the map holds exactly one pair per entry.
pub proof fn lemma_map_of_card(s: Seq<(String, FieldValue)>)
    requires
        keys_unique(s),
    ensures
        map_of(s).dom().finite(),
        map_of(s).dom().len() == s.len(),
    decreases s.len(),
{
    if s.len() > 0 {
        assert(forall|j: int| 0 <= j < s.len() - 1 ==> s.drop_last()[j] == s[j]);
        lemma_map_of_card(s.drop_last());
        lemma_map_of_contains(s.drop_last(), s.last().0@);
        assert(!map_of(s.drop_last()).contains_key(s.last().0@));
        assert(map_of(s).dom() =~= map_of(s.drop_last()).dom().insert(s.last().0@));
    }
}

impl FieldMap {
    /// Well-formed: no two entries share a key.
    pub open spec fn wf(self) -> bool {
        keys_unique(self.entries@)
    }

    /// The empty mapping.
    pub fn new() -> (r: FieldMap)
        ensures
            r.wf(),
            r@ == Map::<Seq<char>, FieldValue>::empty(),
            r.entries@.len() == 0,
    {
        FieldMap { entries: Vec::new() }
    }

    /// The position of the entry holding `key`, if any.
    fn index_of(&self, key: &String) -> (r: Option<usize>)
        ensures
            match r {
                Some(i) => i < self.entries@.len() && self.entries@[i as int].0@ == key@,
                None => forall|j: int| 0 <= j < self.entries@.len() ==> self.entries@[j].0@ != key@,
            },
    {
        let n = self.entries.len();
        let mut i: usize = 0;
        while i < n
            invariant
                i <= n,
                n == self.entries@.len(),
                forall|j: int| 0 <= j < i ==> self.entries@[j].0@ != key@,
            decreases n - i,
        {
            if self.entries[i].0 == *key {
                return Some(i);
            }
            i += 1;
        }
        None
    }

    /// Inserts `value` under `key`; an existing entry with the same key
    /// is overwritten.
    pub fn insert(&mut self, key: String, value: FieldValue)
        requires
            old(self).wf(),
        ensures
            final(self).wf(),
            final(self)@ == old(self)@.insert(key@, value),
    {
        match self.index_of(&key) {
            Some(i) => {
                proof {
                    lemma_map_of_update(self.entries@, i as int, (key, value));
                }
                self.entries.set(i, (key, value));
            }
            None => {
                proof {
                    assert(self.entries@.push((key, value)).drop_last() =~= self.entries@);
                }
                self.entries.push((key, value));
            }
        }
    }

    /// Merges `other` into `self`; on a shared key the incoming value
    /// wins.
    pub fn extend(&mut self, other: FieldMap)
        requires
            old(self).wf(),
        ensures
            final(self).wf(),
            final(self)@ == old(self)@.union_prefer_right(other@),
    {
        let mut rest = other;
        let ghost all = rest.entries@;
        let n = rest.entries.len();
        let mut i: usize = 0;
        while i < n
            invariant
                i <= n,
                n == all.len(),
                rest.entries@ == all.skip(i as int),
                self.wf(),
                self@ == old(self)@.union_prefer_right(map_of(all.take(i as int))),
            decreases n - i,
        {
            let (k, v) = self.take_front(&mut rest);
            proof {
                assert(all.skip(i as int)[0] == all[i as int]);
                assert(all.skip(i as int).skip(1) =~= all.skip(i + 1));
                assert(all.take(i + 1).drop_last() =~= all.take(i as int));
                assert(all.take(i + 1).last() == all[i as int]);
                assert(old(self)@.union_prefer_right(map_of(all.take(i as int))).insert(k@, v)
                    =~= old(self)@.union_prefer_right(map_of(all.take(i + 1))));
            }
            self.insert(k, v);
            i += 1;
        }
        proof {
            assert(all.take(n as int) =~= all);
        }
    }

    /// Removes and returns the first entry of `other`.
    fn take_front(&self, other: &mut FieldMap) -> (r: (String, FieldValue))
        requires
            old(other).entries@.len() > 0,
        ensures
            r == old(other).entries@[0],
            final(other).entries@ == old(other).entries@.skip(1),
    {
        let r = other.entries.remove(0);
        proof {
            assert(old(other).entries@.remove(0) =~= old(other).entries@.skip(1));
        }
        r
    }

    /// An exact copy of the mapping.
    pub fn duplicate(&self) -> (r: FieldMap)
        ensures
            r.entries@ == self.entries@,
            r@ == self@,
            r.wf() == self.wf(),
    {
        let n = self.entries.len();
        let mut out: Vec<(String, FieldValue)> = Vec::new();
        let mut i: usize = 0;
        while i < n
            invariant
                i <= n,
                n == self.entries@.len(),
                out@ == self.entries@.take(i as int),
            decreases n - i,
        {
            let e = &self.entries[i];
            let copy = (e.0.clone(), e.1.duplicate());
            proof {
                assert(self.entries@.take(i + 1).drop_last() =~= self.entries@.take(i as int));
                assert(self.entries@.take(i + 1).last() == self.entries@[i as int]);
            }
            out.push(copy);
            i += 1;
        }
        proof {
            assert(self.entries@.take(n as int) =~= self.entries@);
        }
        FieldMap { entries: out }
    }

    /// The value stored under `key`, if any.
    pub fn get(&self, key: &String) -> (r: Option<&FieldValue>)
        requires
            self.wf(),
        ensures
            match r {
                Some(v) => self@.contains_key(key@) && *v == self@[key@],
                None => !self@.contains_key(key@),
            },
    {
        match self.index_of(key) {
            Some(i) => {
                proof {
                    lemma_map_of_at(self.entries@, i as int);
                }
                Some(&self.entries[i].1)
            }
            None => {
                proof {
                    lemma_map_of_contains(self.entries@, key@);
                }
                None
            }
        }
    }

    /// The number of fields held.
    pub fn num_fields(&self) -> (n: usize)
        requires
            self.wf(),
        ensures
            n == self@.dom().len(),
    {
        proof {
            lemma_map_of_card(self.entries@);
        }
        self.entries.len()
    }
}

/// Inserting under the same key twice retains only the last value.
pub proof fn lemma_insert_overwrites(
    m: Map<Seq<char>, FieldValue>,
    k: Seq<char>,
    v1: FieldValue,
    v2: FieldValue,
)
    ensures
        m.insert(k, v1).insert(k, v2) == m.insert(k, v2),
        m.insert(k, v1).insert(k, v2)[k] == v2,
{
    assert(m.insert(k, v1).insert(k, v2) =~= m.insert(k, v2));
}

/// Inserting under two different keys retains both values.
pub proof fn lemma_insert_two_keys(
    m: Map<Seq<char>, FieldValue>,
    k1: Seq<char>,
    k2: Seq<char>,
    v1: FieldValue,
    v2: FieldValue,
)
    requires
        k1 != k2,
    ensures
        m.insert(k1, v1).insert(k2, v2).contains_key(k1),
        m.insert(k1, v1).insert(k2, v2).contains_key(k2),
        m.insert(k1, v1).insert(k2, v2)[k1] == v1,
        m.insert(k1, v1).insert(k2, v2)[k2] == v2,
{
}

} // verus!
