//! A small association map from 48-bit addresses to per-tag state.
//!
//! Both workers keep per-tag bookkeeping: the scanner its staleness
//! inventory, the broker client its pending batches.  Keys are the
//! plain 48-bit address values; an entry's presence is itself
//! information (the tag is attached, or has been seen).  The map is an
//! association list with unique keys, so that one address never holds
//! two entries.

use vstd::prelude::*;

verus! {

/// Whether some entry holds `k`.
pub open spec fn spec_assoc_has<V>(s: Seq<(u64, V)>, k: u64) -> bool
    decreases s.len(),
{
    s.len() > 0 && (s[0].0 == k || spec_assoc_has(s.skip(1), k))
}

/// The state the first entry holding `k` carries.
pub open spec fn spec_assoc_get<V>(s: Seq<(u64, V)>, k: u64) -> Option<V>
    decreases s.len(),
{
    if s.len() == 0 {
        None
    } else if s[0].0 == k {
        Some(s[0].1)
    } else {
        spec_assoc_get(s.skip(1), k)
    }
}

/// A map from address to per-tag state.
pub struct TagMap<V> {
    entries: Vec<(u64, V)>,
}

impl<V> TagMap<V> {
    /// The entries in insertion order.
    pub closed spec fn spec_entries(&self) -> Seq<(u64, V)> {
        self.entries@
    }

    /// The keys in insertion order.
    pub open spec fn spec_keys(&self) -> Seq<u64> {
        self.spec_entries().map_values(|e: (u64, V)| e.0)
    }

    /// No key is held twice.
    pub open spec fn wf(&self) -> bool {
        forall|i: int, j: int|
            0 <= i < j < self.spec_entries().len() ==> self.spec_entries()[i].0
                != self.spec_entries()[j].0
    }

    /// Whether some entry holds `k`.
    pub open spec fn spec_contains(&self, k: u64) -> bool {
        spec_assoc_has(self.spec_entries(), k)
    }

    /// The state held for `k`.
    pub open spec fn spec_get(&self, k: u64) -> Option<V> {
        spec_assoc_get(self.spec_entries(), k)
    }

    pub fn new() -> (r: TagMap<V>)
        ensures
            r.wf(),
            r.spec_entries() == Seq::<(u64, V)>::empty(),
    {
        TagMap { entries: Vec::new() }
    }

    pub fn len(&self) -> (r: usize)
        ensures
            r == self.spec_entries().len(),
    {
        self.entries.len()
    }

    fn index_of(&self, k: u64) -> (r: Option<usize>)
        ensures
            r matches Some(i) ==> i < self.spec_entries().len() && self.spec_entries()[i as int].0
                == k && (forall|j: int| 0 <= j < i ==> self.spec_entries()[j].0 != k),
            r is None ==> forall|j: int|
                0 <= j < self.spec_entries().len() ==> self.spec_entries()[j].0 != k,
    {
        let mut i: usize = 0;
        while i < self.entries.len()
            invariant
                i <= self.spec_entries().len(),
                forall|j: int| 0 <= j < i ==> self.spec_entries()[j].0 != k,
            decreases self.spec_entries().len() - i,
        {
            if self.entries[i].0 == k {
                return Some(i);
            }
            i = i + 1;
        }
        None
    }

    pub fn contains_key(&self, k: u64) -> (r: bool)
        ensures
            r == self.spec_contains(k),
    {
        match self.index_of(k) {
            Some(i) => {
                proof {
                    lemma_assoc_first_hit(self.spec_entries(), i as int, k);
                }
                true
            },
            None => {
                proof {
                    lemma_assoc_absent(self.spec_entries(), k);
                }
                false
            },
        }
    }

    pub fn get(&self, k: u64) -> (r: Option<&V>)
        ensures
            match r {
                Some(v) => self.spec_get(k) == Some(*v) && self.spec_contains(k),
                None => self.spec_get(k) is None && !self.spec_contains(k),
            },
    {
        match self.index_of(k) {
            Some(i) => {
                proof {
                    lemma_assoc_first_hit(self.spec_entries(), i as int, k);
                }
                Some(&self.entries[i].1)
            },
            None => {
                proof {
                    lemma_assoc_absent(self.spec_entries(), k);
                }
                None
            },
        }
    }

    /// Puts `v` under `k`: an existing entry is replaced in place, a
    /// new key is appended, and no other key's state moves.
    pub fn insert(&mut self, k: u64, v: V)
        requires
            old(self).wf(),
        ensures
            final(self).wf(),
            final(self).spec_get(k) == Some(v),
            final(self).spec_contains(k),
            forall|k2: u64| k2 != k ==> final(self).spec_get(k2) == old(self).spec_get(k2),
            forall|k2: u64|
                k2 != k ==> final(self).spec_contains(k2) == old(self).spec_contains(k2),
            old(self).spec_contains(k) ==> final(self).spec_keys() == old(self).spec_keys(),
            !old(self).spec_contains(k) ==> final(self).spec_keys() == old(self).spec_keys().push(
                k,
            ),
    {
        let ghost pre = self.entries@;
        match self.index_of(k) {
            Some(i) => {
                let entry = &mut self.entries[i];
                entry.1 = v;
                proof {
                    let post = self.entries@;
                    assert(post =~= pre.update(i as int, (k, v)));
                    assert(post.map_values(|e: (u64, V)| e.0) =~= pre.map_values(
                        |e: (u64, V)| e.0,
                    ));
                    lemma_assoc_first_hit(pre, i as int, k);
                    lemma_assoc_first_hit(post, i as int, k);
                    assert forall|k2: u64| k2 != k implies spec_assoc_get(post, k2)
                        == spec_assoc_get(pre, k2) && spec_assoc_has(post, k2) == spec_assoc_has(
                        pre,
                        k2,
                    ) by {
                        lemma_assoc_update_other(pre, i as int, (k, v), k2);
                    }
                }
            },
            None => {
                self.entries.push((k, v));
                proof {
                    let post = self.entries@;
                    assert(post =~= pre.push((k, v)));
                    assert(post.map_values(|e: (u64, V)| e.0) =~= pre.map_values(
                        |e: (u64, V)| e.0,
                    ).push(k));
                    lemma_assoc_first_hit(post, pre.len() as int, k);
                    lemma_assoc_absent(pre, k);
                    assert forall|k2: u64| k2 != k implies spec_assoc_get(post, k2)
                        == spec_assoc_get(pre, k2) && spec_assoc_has(post, k2) == spec_assoc_has(
                        pre,
                        k2,
                    ) by {
                        lemma_assoc_push_other(pre, (k, v), k2);
                    }
                }
            },
        }
    }

    /// Drops the entry under `k`, if any, leaving every other key's
    /// state in place.
    pub fn remove(&mut self, k: u64)
        requires
            old(self).wf(),
        ensures
            final(self).wf(),
            final(self).spec_get(k) is None,
            !final(self).spec_contains(k),
            forall|k2: u64| k2 != k ==> final(self).spec_get(k2) == old(self).spec_get(k2),
            forall|k2: u64|
                k2 != k ==> final(self).spec_contains(k2) == old(self).spec_contains(k2),
            old(self).spec_contains(k) ==> final(self).spec_entries().len() == old(
                self,
            ).spec_entries().len() - 1,
            !old(self).spec_contains(k) ==> final(self).spec_entries() == old(self).spec_entries(),
    {
        let ghost pre = self.entries@;
        match self.index_of(k) {
            Some(i) => {
                self.entries.remove(i);
                proof {
                    let post = self.entries@;
                    assert(post =~= pre.remove(i as int));
                    lemma_assoc_first_hit(pre, i as int, k);
                    assert forall|j: int| 0 <= j < post.len() implies post[j].0 != k by {
                        if j < i {
                            assert(post[j] == pre[j]);
                        } else {
                            assert(post[j] == pre[j + 1]);
                        }
                    }
                    lemma_assoc_absent(post, k);
                    assert forall|p: int, q: int| 0 <= p < q < post.len() implies post[p].0
                        != post[q].0 by {
                        assert(post[p] == if p < i {
                            pre[p]
                        } else {
                            pre[p + 1]
                        });
                        assert(post[q] == if q < i {
                            pre[q]
                        } else {
                            pre[q + 1]
                        });
                    }
                    assert forall|k2: u64| k2 != k implies spec_assoc_get(post, k2)
                        == spec_assoc_get(pre, k2) && spec_assoc_has(post, k2) == spec_assoc_has(
                        pre,
                        k2,
                    ) by {
                        lemma_assoc_remove_other(pre, i as int, k2);
                    }
                }
            },
            None => {
                proof {
                    lemma_assoc_absent(pre, k);
                }
            },
        }
    }

    /// The key of the entry at `i`, for walking every tag.
    pub fn key_at(&self, i: usize) -> (r: u64)
        requires
            i < self.spec_entries().len(),
        ensures
            r == self.spec_keys()[i as int],
    {
        self.entries[i].0
    }

    /// The state of the entry at `i`.
    pub fn value_at(&self, i: usize) -> (r: &V)
        requires
            i < self.spec_entries().len(),
        ensures
            *r == self.spec_entries()[i as int].1,
    {
        &self.entries[i].1
    }
}

/// A key first held at `i` is found with that entry's state.
pub proof fn lemma_assoc_first_hit<V>(s: Seq<(u64, V)>, i: int, k: u64)
    requires
        0 <= i < s.len(),
        s[i].0 == k,
        forall|j: int| 0 <= j < i ==> s[j].0 != k,
    ensures
        spec_assoc_has(s, k),
        spec_assoc_get(s, k) == Some(s[i].1),
    decreases i,
{
    if i > 0 {
        assert forall|j: int| 0 <= j < i - 1 implies s.skip(1)[j].0 != k by {
            assert(s.skip(1)[j] == s[j + 1]);
        }
        assert(s.skip(1)[i - 1] == s[i]);
        lemma_assoc_first_hit(s.skip(1), i - 1, k);
    }
}

/// A key held by no entry is not found.
pub proof fn lemma_assoc_absent<V>(s: Seq<(u64, V)>, k: u64)
    requires
        forall|j: int| 0 <= j < s.len() ==> s[j].0 != k,
    ensures
        !spec_assoc_has(s, k),
        spec_assoc_get(s, k) is None,
    decreases s.len(),
{
    if s.len() > 0 {
        assert forall|j: int| 0 <= j < s.skip(1).len() implies s.skip(1)[j].0 != k by {
            assert(s.skip(1)[j] == s[j + 1]);
        }
        lemma_assoc_absent(s.skip(1), k);
    }
}

/// Replacing the entry of one key leaves every other key's state.
proof fn lemma_assoc_update_other<V>(s: Seq<(u64, V)>, i: int, e: (u64, V), k2: u64)
    requires
        0 <= i < s.len(),
        s[i].0 != k2,
        e.0 != k2,
    ensures
        spec_assoc_get(s.update(i, e), k2) == spec_assoc_get(s, k2),
        spec_assoc_has(s.update(i, e), k2) == spec_assoc_has(s, k2),
    decreases s.len(),
{
    let t = s.update(i, e);
    if i == 0 {
        assert(t[0] == e);
        assert(t.skip(1) =~= s.skip(1));
    } else {
        assert(t[0] == s[0]);
        assert(t.skip(1) =~= s.skip(1).update(i - 1, e));
        assert(s.skip(1)[i - 1] == s[i]);
        if s[0].0 != k2 {
            lemma_assoc_update_other(s.skip(1), i - 1, e, k2);
        }
    }
}

/// Appending one key leaves every other key's state.
proof fn lemma_assoc_push_other<V>(s: Seq<(u64, V)>, e: (u64, V), k2: u64)
    requires
        e.0 != k2,
    ensures
        spec_assoc_get(s.push(e), k2) == spec_assoc_get(s, k2),
        spec_assoc_has(s.push(e), k2) == spec_assoc_has(s, k2),
    decreases s.len(),
{
    let t = s.push(e);
    if s.len() == 0 {
        assert(t[0] == e);
        assert(t.skip(1) =~= Seq::<(u64, V)>::empty());
        assert(!spec_assoc_has(t.skip(1), k2));
        assert(spec_assoc_get(t.skip(1), k2) is None);
    } else {
        assert(t[0] == s[0]);
        assert(t.skip(1) =~= s.skip(1).push(e));
        if s[0].0 != k2 {
            lemma_assoc_push_other(s.skip(1), e, k2);
        }
    }
}

/// Dropping the entry of one key leaves every other key's state.
proof fn lemma_assoc_remove_other<V>(s: Seq<(u64, V)>, i: int, k2: u64)
    requires
        0 <= i < s.len(),
        s[i].0 != k2,
    ensures
        spec_assoc_get(s.remove(i), k2) == spec_assoc_get(s, k2),
        spec_assoc_has(s.remove(i), k2) == spec_assoc_has(s, k2),
    decreases s.len(),
{
    let t = s.remove(i);
    if i == 0 {
        assert(t =~= s.skip(1));
    } else {
        assert(t[0] == s[0]);
        assert(t.skip(1) =~= s.skip(1).remove(i - 1));
        assert(s.skip(1)[i - 1] == s[i]);
        if s[0].0 != k2 {
            lemma_assoc_remove_other(s.skip(1), i - 1, k2);
        }
    }
}

} // verus!
