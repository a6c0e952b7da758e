//! A bounded LRU cache from SQL text to prepared-statement handles.
//!
//! The most recently used entry sits at the back; on overflow the front
//! (least recently used) entry is evicted. Capacity 0 disables the cache
//! entirely: every lookup misses and nothing is ever retained.

use vstd::prelude::*;
use crate::text::str_eq;

verus! {

/// The model of a prepared-statement handle.
pub ghost struct PreparedStatementModel {
    pub id: u64,
    pub n_params: usize,
    pub columns: Seq<Seq<char>>,
}

/// A cheaply cloneable description of a server-side prepared statement:
/// an identifier for the driver-side handle, the number of parameters the
/// statement expects, and its column names.
pub struct PreparedStatement {
    pub id: u64,
    pub n_params: usize,
    pub columns: Vec<String>,
}

impl View for PreparedStatement {
    type V = PreparedStatementModel;

    open spec fn view(&self) -> PreparedStatementModel {
        PreparedStatementModel {
            id: self.id,
            n_params: self.n_params,
            columns: self.columns.deep_view(),
        }
    }
}

fn clone_columns(v: &Vec<String>) -> (r: Vec<String>)
    ensures
        r.deep_view() == v.deep_view(),
{
    let mut r: Vec<String> = Vec::new();
    let mut i: usize = 0;
    while i < v.len()
        invariant
            0 <= i <= v.len(),
            r@.len() == i,
            r.deep_view() == v.deep_view().subrange(0, i as int),
        decreases v.len() - i,
    {
        r.push(v[i].clone());
        proof {
            assert(r.deep_view() =~~= v.deep_view().subrange(0, i as int + 1));
        }
        i = i + 1;
    }
    proof {
        assert(v.deep_view().subrange(0, v.len() as int) =~~= v.deep_view());
    }
    r
}

impl Clone for PreparedStatement {
    /// A clone carries the same metadata as the original handle.
    fn clone(&self) -> (r: Self)
        ensures
            r@ == self@,
    {
        PreparedStatement {
            id: self.id,
            n_params: self.n_params,
            columns: clone_columns(&self.columns),
        }
    }
}

/// The model of the cache: its bound and its entries, least recently used
/// first.
pub ghost struct CacheModel {
    pub capacity: usize,
    pub entries: Seq<(Seq<char>, PreparedStatementModel)>,
}

/// The position of the first entry keyed `k` at or after position `i`.
pub open spec fn key_index_from(
    s: Seq<(Seq<char>, PreparedStatementModel)>,
    k: Seq<char>,
    i: int,
) -> Option<int>
    decreases s.len() - i,
{
    if i < 0 || i >= s.len() {
        None
    } else if s[i].0 == k {
        Some(i)
    } else {
        key_index_from(s, k, i + 1)
    }
}

/// The position of the entry keyed `k`, if one is present.
pub open spec fn spec_key_index(
    s: Seq<(Seq<char>, PreparedStatementModel)>,
    k: Seq<char>,
) -> Option<int> {
    key_index_from(s, k, 0)
}

/// No two entries share a key.
pub open spec fn unique_keys(s: Seq<(Seq<char>, PreparedStatementModel)>) -> bool {
    forall|i: int, j: int| 0 <= i < j < s.len() ==> (#[trigger] s[i]).0 != (#[trigger] s[j]).0
}

proof fn lemma_key_index_from(s: Seq<(Seq<char>, PreparedStatementModel)>, k: Seq<char>, i: int)
    requires
        0 <= i <= s.len(),
    ensures
        match key_index_from(s, k, i) {
            Some(j) => i <= j < s.len() && s[j].0 == k && (forall|m: int|
                i <= m < j ==> (#[trigger] s[m]).0 != k),
            None => forall|m: int| i <= m < s.len() ==> (#[trigger] s[m]).0 != k,
        },
    decreases s.len() - i,
{
    if i < s.len() && s[i].0 != k {
        lemma_key_index_from(s, k, i + 1);
    }
}

/// Moving the entry at `i` to the back keeps keys unique.
proof fn lemma_promote_preserves_unique(s: Seq<(Seq<char>, PreparedStatementModel)>, i: int)
    requires
        unique_keys(s),
        0 <= i < s.len(),
    ensures
        unique_keys(s.remove(i).push(s[i])),
{
    let t = s.remove(i).push(s[i]);
    s.remove_ensures(i);
    assert forall|m: int, n: int| 0 <= m < n < t.len() implies (#[trigger] t[m]).0 != (
    #[trigger] t[n]).0 by {
        let om = if m < i {
            m
        } else {
            m + 1
        };
        if n == t.len() - 1 {
            assert(t[n] == s[i]);
            if m < i {
                assert(t[m] == s[m]);
            } else {
                assert(t[m] == s[m + 1]);
            }
        } else {
            let on = if n < i {
                n
            } else {
                n + 1
            };
            assert(t[m] == s[om]);
            assert(t[n] == s[on]);
        }
    }
}

/// Removing an entry keeps keys unique, and when the entry at `i` carried
/// the key `k` of interest, no entry of the remainder carries it.
proof fn lemma_remove_key(s: Seq<(Seq<char>, PreparedStatementModel)>, i: int)
    requires
        unique_keys(s),
        0 <= i < s.len(),
    ensures
        unique_keys(s.remove(i)),
        forall|m: int| 0 <= m < s.len() - 1 ==> (#[trigger] s.remove(i)[m]).0 != s[i].0,
{
    s.remove_ensures(i);
    let t = s.remove(i);
    assert forall|m: int, n: int| 0 <= m < n < t.len() implies (#[trigger] t[m]).0 != (
    #[trigger] t[n]).0 by {
        let om = if m < i {
            m
        } else {
            m + 1
        };
        let on = if n < i {
            n
        } else {
            n + 1
        };
        assert(t[m] == s[om]);
        assert(t[n] == s[on]);
    }
    assert forall|m: int| 0 <= m < t.len() implies (#[trigger] t[m]).0 != s[i].0 by {
        let om = if m < i {
            m
        } else {
            m + 1
        };
        assert(t[m] == s[om]);
    }
}

/// The bounded LRU mapping SQL text to prepared-statement handles.
pub struct StatementCache {
    capacity: usize,
    entries: Vec<(String, PreparedStatement)>,
}

impl View for StatementCache {
    type V = CacheModel;

    closed spec fn view(&self) -> CacheModel {
        CacheModel {
            capacity: self.capacity,
            entries: Seq::new(
                self.entries@.len(),
                |i: int| (self.entries@[i].0@, self.entries@[i].1@),
            ),
        }
    }
}

impl StatementCache {
    /// The cache never holds more entries than its bound, and never two
    /// entries for the same SQL text.
    pub open spec fn wf(&self) -> bool {
        self@.entries.len() <= self@.capacity && unique_keys(self@.entries)
    }

    /// An empty cache with the given bound.
    pub fn new(capacity: usize) -> (r: StatementCache)
        ensures
            r@.capacity == capacity,
            r@.entries == Seq::<(Seq<char>, PreparedStatementModel)>::empty(),
            r.wf(),
    {
        let r = StatementCache { capacity, entries: Vec::new() };
        proof {
            assert(r@.entries =~= Seq::<(Seq<char>, PreparedStatementModel)>::empty());
        }
        r
    }

    /// The bound the cache was created with.
    pub fn capacity(&self) -> (r: usize)
        ensures
            r == self@.capacity,
    {
        self.capacity
    }

    /// How many statements are currently cached.
    pub fn len(&self) -> (r: usize)
        ensures
            r == self@.entries.len(),
    {
        self.entries.len()
    }

    fn find_index(&self, sql: &str) -> (r: Option<usize>)
        ensures
            match r {
                Some(j) => spec_key_index(self@.entries, sql@) == Some(j as int),
                None => spec_key_index(self@.entries, sql@) is None,
            },
    {
        let mut i: usize = 0;
        let n = self.entries.len();
        while i < n
            invariant
                0 <= i <= n,
                n == self@.entries.len(),
                key_index_from(self@.entries, sql@, 0) == key_index_from(
                    self@.entries,
                    sql@,
                    i as int,
                ),
            decreases n - i,
        {
            if str_eq(self.entries[i].0.as_str(), sql) {
                return Some(i);
            }
            i = i + 1;
        }
        None
    }

    /// Look the SQL text up. A hit returns a clone of the stored handle and
    /// promotes the entry to most recently used; a miss changes nothing.
    pub fn get(&mut self, sql: &str) -> (r: Option<PreparedStatement>)
        requires
            old(self).wf(),
        ensures
            final(self).wf(),
            final(self)@.capacity == old(self)@.capacity,
            match spec_key_index(old(self)@.entries, sql@) {
                None => r is None && final(self)@.entries == old(self)@.entries,
                Some(i) => r matches Some(st) && st@ == old(self)@.entries[i].1
                    && final(self)@.entries == old(self)@.entries.remove(i).push(
                    old(self)@.entries[i],
                ),
            },
    {
        match self.find_index(sql) {
            None => None,
            Some(j) => {
                let ghost om = self@.entries;
                let ghost ji = j as int;
                proof {
                    lemma_key_index_from(om, sql@, 0);
                }
                let e = self.entries.remove(j);
                let st = e.1.clone();
                self.entries.push(e);
                proof {
                    om.remove_ensures(ji);
                    assert(self@.entries =~= om.remove(ji).push(om[ji]));
                    lemma_promote_preserves_unique(om, ji);
                }
                Some(st)
            },
        }
    }

    /// Store a handle for the SQL text. An existing entry for the same text
    /// is replaced; on overflow the least recently used entry is evicted;
    /// with capacity 0 nothing is stored at all.
    pub fn insert(&mut self, sql: String, stmt: PreparedStatement)
        requires
            old(self).wf(),
        ensures
            final(self).wf(),
            final(self)@.capacity == old(self)@.capacity,
            ({
                let base = match spec_key_index(old(self)@.entries, sql@) {
                    None => old(self)@.entries,
                    Some(i) => old(self)@.entries.remove(i),
                };
                let evicted = if base.len() >= old(self)@.capacity {
                    base.drop_first()
                } else {
                    base
                };
                if old(self)@.capacity == 0 {
                    final(self)@.entries == old(self)@.entries
                } else {
                    final(self)@.entries == evicted.push((sql@, stmt@))
                }
            }),
    {
        if self.capacity == 0 {
            return ;
        }
        let ghost om = self@.entries;
        proof {
            lemma_key_index_from(om, sql@, 0);
        }
        match self.find_index(&sql) {
            Some(j) => {
                let ghost ji = j as int;
                self.entries.remove(j);
                proof {
                    om.remove_ensures(ji);
                    assert(self@.entries =~= om.remove(ji));
                    lemma_remove_key(om, ji);
                }
            },
            None => {},
        }
        let ghost base = self@.entries;
        if self.entries.len() >= self.capacity {
            self.entries.remove(0);
            proof {
                base.remove_ensures(0);
                assert(self@.entries =~= base.remove(0));
                assert(base.remove(0) =~= base.drop_first());
                lemma_remove_key(base, 0);
            }
        }
        let ghost evicted = self@.entries;
        self.entries.push((sql, stmt));
        proof {
            assert(self@.entries =~= evicted.push((sql@, stmt@)));
        }
    }
}

} // verus!
