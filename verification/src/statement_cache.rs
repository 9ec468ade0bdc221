use vstd::prelude::*;

verus! {

/// A prepared statement held by the cache: the remote identifier the
/// server knows the statement by, and the column names it described.
#[derive(Debug)]
pub struct CachedStatement {
    /// remote statement identifier
    pub id: u64,
    /// column metadata
    pub columns: Vec<String>,
}

impl CachedStatement {
    /// Copy this statement description.
    pub fn duplicate(&self) -> (r: Self)
        ensures
            r.id == self.id,
            r.columns@ == self.columns@,
    {
        let mut columns: Vec<String> = Vec::new();
        let mut i: usize = 0;
        while i < self.columns.len()
            invariant
                i <= self.columns@.len(),
                columns@.len() == i,
                forall|j: int| 0 <= j < i ==> columns@[j] == self.columns@[j],
            decreases self.columns@.len() - i,
        {
            columns.push(self.columns[i].clone());
            i = i + 1;
        }
        proof {
            assert(columns@ =~= self.columns@);
        }
        CachedStatement { id: self.id, columns }
    }
}

/// What one cache entry looks like in specifications: the normalized
/// key text, the remote identifier, and the column metadata.
pub type CacheEntry = (Seq<char>, u64, Seq<Seq<char>>);

/// View of a statement's column metadata.
pub open spec fn columns_view(columns: Seq<String>) -> Seq<Seq<char>> {
    columns.map_values(|c: String| c@)
}

/// View of one stored pair.
pub open spec fn entry_view(p: (String, CachedStatement)) -> CacheEntry {
    (p.0@, p.1.id, columns_view(p.1.columns@))
}

/// Position of the first entry with key `k`, or -1 when absent.
pub open spec fn spec_key_index(s: Seq<CacheEntry>, k: Seq<char>) -> int
    decreases s.len(),
{
    if s.len() == 0 {
        -1
    } else if s[0].0 == k {
        0
    } else {
        let rest = spec_key_index(s.drop_first(), k);
        if rest == -1 {
            -1
        } else {
            rest + 1
        }
    }
}

pub proof fn lemma_key_index_props(s: Seq<CacheEntry>, k: Seq<char>)
    ensures
        -1 <= spec_key_index(s, k) < s.len(),
        spec_key_index(s, k) >= 0 ==> s[spec_key_index(s, k)].0 == k,
        spec_key_index(s, k) == -1 ==> forall|j: int| 0 <= j < s.len() ==> s[j].0 != k,
        spec_key_index(s, k) >= 0 ==> forall|j: int|
            0 <= j < spec_key_index(s, k) ==> s[j].0 != k,
    decreases s.len(),
{
    if s.len() > 0 && s[0].0 != k {
        lemma_key_index_props(s.drop_first(), k);
        let rest = spec_key_index(s.drop_first(), k);
        if rest == -1 {
            assert forall|j: int| 0 <= j < s.len() implies s[j].0 != k by {
                if j > 0 {
                    assert(s.drop_first()[j - 1] == s[j]);
                }
            }
        } else {
            assert(s[rest + 1] == s.drop_first()[rest]);
            assert forall|j: int| 0 <= j < rest + 1 implies s[j].0 != k by {
                if j > 0 {
                    assert(s.drop_first()[j - 1] == s[j]);
                }
            }
        }
    }
}

/// The effect of touching the entry at `j`: it moves to the
/// most-recently-used end, everything else keeps its order.
pub open spec fn spec_touch(s: Seq<CacheEntry>, j: int) -> Seq<CacheEntry> {
    s.remove(j).push(s[j])
}

/// Bounded, recency-ordered map from normalized query text to a remote
/// prepared-statement handle. Index 0 is the least recently used entry;
/// the back is the most recently used. The cache itself never performs
/// I/O: eviction's protocol side effects are the connection's concern.
pub struct StatementCache {
    capacity: usize,
    entries: Vec<(String, CachedStatement)>,
    /// how many lookups (`get` calls) were ever made; ghost bookkeeping
    /// that lets callers state how often a path touched the cache
    lookups: Ghost<nat>,
}

impl StatementCache {
    /// Recency-ordered entries, least recently used first.
    pub closed spec fn view(&self) -> Seq<CacheEntry> {
        self.entries@.map_values(|p: (String, CachedStatement)| entry_view(p))
    }

    /// Fixed capacity chosen at construction.
    pub closed spec fn spec_capacity(&self) -> usize {
        self.capacity
    }

    /// Number of lookups made so far.
    pub closed spec fn spec_lookups(&self) -> nat {
        self.lookups@
    }

    /// Well-formed: within capacity, and keys are distinct.
    pub open spec fn wf(&self) -> bool {
        &&& self@.len() <= self.spec_capacity()
        &&& forall|a: int, b: int|
            0 <= a < b < self@.len() ==> (#[trigger] self@[a]).0 != (#[trigger] self@[b]).0
    }

    /// An empty cache with the given capacity.
    pub fn new(capacity: usize) -> (r: Self)
        ensures
            r@ =~= Seq::<CacheEntry>::empty(),
            r.spec_capacity() == capacity,
            r.spec_lookups() == 0,
            r.wf(),
    {
        StatementCache { capacity, entries: Vec::new(), lookups: Ghost(0nat) }
    }

    /// Number of resident entries.
    pub fn len(&self) -> (r: usize)
        ensures
            r == self@.len(),
    {
        self.entries.len()
    }

    /// The capacity chosen at construction.
    pub fn capacity(&self) -> (r: usize)
        ensures
            r == self.spec_capacity(),
    {
        self.capacity
    }

    /// Look the key up without I/O. A hit returns the stored handle and
    /// marks the entry most recently used; a miss changes nothing. Either
    /// way the lookup is counted.
    pub fn get(&mut self, key: &str) -> (r: Option<CachedStatement>)
        requires
            old(self).wf(),
        ensures
            final(self).wf(),
            final(self).spec_capacity() == old(self).spec_capacity(),
            final(self).spec_lookups() == old(self).spec_lookups() + 1,
            final(self)@.len() == old(self)@.len(),
            spec_key_index(old(self)@, key@) == -1 ==> r is None && final(self)@ == old(self)@,
            spec_key_index(old(self)@, key@) >= 0 ==> {
                let j = spec_key_index(old(self)@, key@);
                &&& r matches Some(st)
                &&& st.id == old(self)@[j].1
                &&& columns_view(st.columns@) == old(self)@[j].2
                &&& final(self)@ == spec_touch(old(self)@, j)
            },
    {
        proof {
            lemma_key_index_props(self@, key@);
        }
        self.lookups = Ghost(self.lookups@ + 1);
        let ghost s0 = self@;
        let ghost cap = self.spec_capacity();
        let ghost looked = self.spec_lookups();
        let mut i: usize = 0;
        while i < self.entries.len()
            invariant
                s0 == old(self)@,
                cap == old(self).spec_capacity(),
                looked == old(self).spec_lookups() + 1,
                self@ == s0,
                self.spec_capacity() == cap,
                self.spec_lookups() == looked,
                self.wf(),
                self.entries@.len() == s0.len(),
                i <= s0.len(),
                forall|j: int| 0 <= j < i ==> s0[j].0 != key@,
            decreases s0.len() - i,
        {
            assert(entry_view(self.entries@[i as int]) == s0[i as int]);
            if crate::string_util::str_eq(self.entries[i].0.as_str(), key) {
                proof {
                    crate::statement_cache::lemma_key_index_of(s0, key@, i as int);
                }
                let entry = self.entries.remove(i);
                let found = entry.1.duplicate();
                self.entries.push(entry);
                proof {
                    assert(self.spec_capacity() == cap);
                    assert(self.spec_lookups() == looked);
                    let moved = spec_touch(s0, i as int);
                    assert(self@ =~= moved);
                    let n = s0.len() as int;
                    assert forall|a: int, b: int| 0 <= a < b < n implies (#[trigger] moved[a]).0
                        != (#[trigger] moved[b]).0 by {
                        let ai = if a < i as int {
                            a
                        } else if a < n - 1 {
                            a + 1
                        } else {
                            i as int
                        };
                        let bi = if b < i as int {
                            b
                        } else if b < n - 1 {
                            b + 1
                        } else {
                            i as int
                        };
                        assert(moved[a] == s0[ai] && moved[b] == s0[bi]);
                    }
                }
                return Some(found);
            }
            i = i + 1;
        }
        None
    }

    /// Admit a new entry as most recently used. The caller keeps the
    /// cache within capacity by evicting first, through `remove_lru`.
    pub fn insert(&mut self, key: String, statement: CachedStatement) -> (r: ())
        requires
            old(self).wf(),
            old(self)@.len() < old(self).spec_capacity(),
            spec_key_index(old(self)@, key@) == -1,
        ensures
            final(self).wf(),
            final(self).spec_capacity() == old(self).spec_capacity(),
            final(self).spec_lookups() == old(self).spec_lookups(),
            final(self)@ == old(self)@.push((key@, statement.id, columns_view(statement.columns@))),
    {
        proof {
            lemma_key_index_props(self@, key@);
        }
        let ghost s0 = self@;
        let ghost new_entry = (key@, statement.id, columns_view(statement.columns@));
        self.entries.push((key, statement));
        proof {
            assert(self@ =~= s0.push(new_entry));
        }
    }

    /// Pop the least-recently-used entry: a pure data-structure
    /// operation, deliberately free of the protocol side effects that
    /// must accompany an eviction.
    pub fn remove_lru(&mut self) -> (r: Option<CachedStatement>)
        requires
            old(self).wf(),
        ensures
            final(self).wf(),
            final(self).spec_capacity() == old(self).spec_capacity(),
            final(self).spec_lookups() == old(self).spec_lookups(),
            old(self)@.len() == 0 ==> r is None && final(self)@ == old(self)@,
            old(self)@.len() > 0 ==> {
                &&& r matches Some(st)
                &&& st.id == old(self)@[0].1
                &&& columns_view(st.columns@) == old(self)@[0].2
                &&& final(self)@ == old(self)@.drop_first()
            },
    {
        if self.entries.len() == 0 {
            return None;
        }
        let ghost s0 = self@;
        let entry = self.entries.remove(0);
        proof {
            assert(self@ =~= s0.drop_first());
        }
        Some(entry.1)
    }
}

/// If `s[j]` is the first entry carrying key `k`, then `j` is exactly
/// what `spec_key_index` finds.
pub proof fn lemma_key_index_of(s: Seq<CacheEntry>, k: Seq<char>, j: int)
    requires
        0 <= j < s.len(),
        s[j].0 == k,
        forall|a: int| 0 <= a < j ==> s[a].0 != k,
    ensures
        spec_key_index(s, k) == j,
    decreases j,
{
    if j > 0 {
        assert forall|a: int| 0 <= a < j - 1 implies s.drop_first()[a].0 != k by {
            assert(s.drop_first()[a] == s[a + 1]);
        }
        assert(s.drop_first()[j - 1] == s[j]);
        lemma_key_index_of(s.drop_first(), k, j - 1);
    }
}

/// A key no entry carries is not found.
pub proof fn lemma_key_index_absent(s: Seq<CacheEntry>, k: Seq<char>)
    requires
        forall|a: int| 0 <= a < s.len() ==> (#[trigger] s[a]).0 != k,
    ensures
        spec_key_index(s, k) == -1,
    decreases s.len(),
{
    if s.len() > 0 {
        assert forall|a: int| 0 <= a < s.drop_first().len() implies (#[trigger] s.drop_first()[a]).0
            != k by {
            assert(s.drop_first()[a] == s[a + 1]);
        }
        lemma_key_index_absent(s.drop_first(), k);
    }
}


/// One access to the cache: a key already present is touched to the
/// most-recently-used end; a fresh key is admitted there. `get` on a
/// hit realizes the first arm, `insert` the second.
pub open spec fn spec_access(s: Seq<CacheEntry>, e: CacheEntry) -> Seq<CacheEntry> {
    let j = spec_key_index(s, e.0);
    if j >= 0 {
        spec_touch(s, j)
    } else {
        s.push(e)
    }
}

/// The cache contents after a sequence of accesses, starting empty.
pub open spec fn spec_apply_accesses(ops: Seq<CacheEntry>) -> Seq<CacheEntry>
    decreases ops.len(),
{
    if ops.len() == 0 {
        Seq::empty()
    } else {
        spec_access(spec_apply_accesses(ops.drop_last()), ops.last())
    }
}

/// Position of the last access to key `k`, or -1 when never accessed.
pub open spec fn spec_last_access(ops: Seq<CacheEntry>, k: Seq<char>) -> int
    decreases ops.len(),
{
    if ops.len() == 0 {
        -1
    } else if ops.last().0 == k {
        ops.len() - 1
    } else {
        spec_last_access(ops.drop_last(), k)
    }
}

proof fn lemma_last_access_bound(ops: Seq<CacheEntry>, k: Seq<char>)
    ensures
        -1 <= spec_last_access(ops, k) < ops.len(),
    decreases ops.len(),
{
    if ops.len() > 0 && ops.last().0 != k {
        lemma_last_access_bound(ops.drop_last(), k);
    }
}

/// The law of recency order: after any sequence of accesses starting
/// from an empty cache, the entries' keys are distinct, each resident
/// key was accessed, and the entries stand in the order of their last
/// access — so the entry at the front is the least recently accessed
/// one, which is exactly what `remove_lru` evicts.
pub proof fn lemma_lru_recency_order(ops: Seq<CacheEntry>)
    ensures
        ({
            let s = spec_apply_accesses(ops);
            &&& forall|a: int, b: int|
                0 <= a < b < s.len() ==> (#[trigger] s[a]).0 != (#[trigger] s[b]).0
            &&& forall|a: int| 0 <= a < s.len() ==> spec_last_access(ops, (#[trigger] s[a]).0) >= 0
            &&& forall|p: int, q: int|
                0 <= p < q < s.len() ==> spec_last_access(ops, (#[trigger] s[p]).0)
                    < spec_last_access(ops, (#[trigger] s[q]).0)
        }),
    decreases ops.len(),
{
    if ops.len() > 0 {
        let pre_ops = ops.drop_last();
        lemma_lru_recency_order(pre_ops);
        let s0 = spec_apply_accesses(pre_ops);
        let e = ops.last();
        let s = spec_apply_accesses(ops);
        let j = spec_key_index(s0, e.0);
        lemma_key_index_props(s0, e.0);
        assert forall|k: Seq<char>| k != e.0 implies spec_last_access(ops, k)
            == spec_last_access(pre_ops, k) by {}
        assert(spec_last_access(ops, e.0) == ops.len() - 1);
        if j >= 0 {
            assert(s =~= s0.remove(j).push(s0[j]));
            let n = s0.len() as int;
            assert forall|a: int| 0 <= a < s.len() implies (#[trigger] s[a]) == (if a < j {
                s0[a]
            } else if a < n - 1 {
                s0[a + 1]
            } else {
                s0[j]
            }) by {}
            assert forall|a: int| 0 <= a < s.len() - 1 implies (#[trigger] s[a]).0 != e.0 by {
                if a < j {
                } else {
                    assert(s[a] == s0[a + 1]);
                }
            }
            assert forall|a: int|
                0 <= a < s.len() implies spec_last_access(ops, (#[trigger] s[a]).0) >= 0 by {
                if a < s.len() - 1 {
                    lemma_last_access_bound(pre_ops, s[a].0);
                }
            }
            assert forall|p: int, q: int|
                0 <= p < q < s.len() implies spec_last_access(ops, (#[trigger] s[p]).0)
                    < spec_last_access(ops, (#[trigger] s[q]).0) by {
                let pk = s[p].0;
                let qk = s[q].0;
                assert(pk != e.0);
                lemma_last_access_bound(pre_ops, pk);
                if q < s.len() - 1 {
                    assert(qk != e.0);
                } else {
                    assert(qk == e.0);
                }
            }
            assert forall|a: int, b: int|
                0 <= a < b < s.len() implies (#[trigger] s[a]).0 != (#[trigger] s[b]).0 by {
                if b < s.len() - 1 {
                } else {
                    assert(s[a].0 != e.0);
                }
            }
        } else {
            assert(s =~= s0.push(e));
            assert forall|a: int| 0 <= a < s.len() - 1 implies (#[trigger] s[a]).0 != e.0 by {
                assert(s[a] == s0[a]);
            }
            assert forall|a: int|
                0 <= a < s.len() implies spec_last_access(ops, (#[trigger] s[a]).0) >= 0 by {
                if a < s.len() - 1 {
                    lemma_last_access_bound(pre_ops, s[a].0);
                }
            }
            assert forall|p: int, q: int|
                0 <= p < q < s.len() implies spec_last_access(ops, (#[trigger] s[p]).0)
                    < spec_last_access(ops, (#[trigger] s[q]).0) by {
                let pk = s[p].0;
                assert(pk != e.0);
                lemma_last_access_bound(pre_ops, pk);
                if q < s.len() - 1 {
                    assert(s[q].0 != e.0);
                }
            }
            assert forall|a: int, b: int|
                0 <= a < b < s.len() implies (#[trigger] s[a]).0 != (#[trigger] s[b]).0 by {
                if b < s.len() - 1 {
                } else {
                    assert(s[a].0 != e.0);
                }
            }
        }
    }
}

/// Admitting distinct fresh keys never evicts: a cache filled from
/// empty with distinct keys holds exactly those entries, so filling a
/// cache of capacity `C` with `C` distinct keys needs no eviction, and
/// only an access beyond that makes `remove_lru`'s least-recently-used
/// entry leave.
pub proof fn lemma_distinct_fill(ops: Seq<CacheEntry>)
    requires
        forall|a: int, b: int|
            0 <= a < b < ops.len() ==> (#[trigger] ops[a]).0 != (#[trigger] ops[b]).0,
    ensures
        spec_apply_accesses(ops).len() == ops.len(),
        forall|a: int|
            0 <= a < ops.len() ==> #[trigger] spec_apply_accesses(ops)[a] == ops[a],
    decreases ops.len(),
{
    if ops.len() > 0 {
        let pre_ops = ops.drop_last();
        assert forall|a: int, b: int|
            0 <= a < b < pre_ops.len() implies (#[trigger] pre_ops[a]).0 != (
        #[trigger] pre_ops[b]).0 by {
            assert(pre_ops[a] == ops[a] && pre_ops[b] == ops[b]);
        }
        lemma_distinct_fill(pre_ops);
        let s0 = spec_apply_accesses(pre_ops);
        let e = ops.last();
        lemma_key_index_props(s0, e.0);
        let j = spec_key_index(s0, e.0);
        if j >= 0 {
            assert(s0[j] == ops[j]);
            assert(ops[j].0 == ops[ops.len() - 1].0);
            assert(false);
        }
        assert forall|a: int|
            0 <= a < ops.len() implies #[trigger] spec_apply_accesses(ops)[a] == ops[a] by {
            if a < ops.len() - 1 {
                assert(spec_apply_accesses(ops)[a] == s0[a]);
            }
        }
    }
}

} // verus!
