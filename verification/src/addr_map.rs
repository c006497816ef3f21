//! An address-keyed table held in strictly ascending lexicographic key
//! order. All per-participant records (deposits, commitments, reveals, tier
//! assignments) live in such tables, which makes listing deterministic.

use vstd::prelude::*;
use crate::strings::{lex_lt, str_lt, str_eq, lemma_lex_lt_trichotomy, lemma_lex_lt_transitive,
    lemma_lex_lt_irreflexive};

verus! {

/// One record of an address-keyed table.
pub struct AddrEntry<V> {
    pub key: String,
    pub val: V,
}

/// An address-keyed table, keys strictly ascending.
pub struct AddrMap<V> {
    pub entries: Vec<AddrEntry<V>>,
}

/// The value stored under a key in a run of entries: the first match wins
/// (in a well-formed table there is at most one).
pub open spec fn seq_get<V>(s: Seq<AddrEntry<V>>, k: Seq<char>) -> Option<V>
    decreases s.len(),
{
    if s.len() == 0 {
        None
    } else if s[0].key@ == k {
        Some(s[0].val)
    } else {
        seq_get(s.drop_first(), k)
    }
}

/// If no entry holds the key, the lookup yields nothing.
pub proof fn lemma_seq_get_absent<V>(s: Seq<AddrEntry<V>>, k: Seq<char>)
    requires
        forall|i: int| 0 <= i < s.len() ==> s[i].key@ != k,
    ensures
        seq_get(s, k) is None,
    decreases s.len(),
{
    if s.len() != 0 {
        assert(forall|i: int|
            0 <= i < s.drop_first().len() ==> s.drop_first()[i] == s[i + 1]);
        lemma_seq_get_absent(s.drop_first(), k);
    }
}

/// The first entry holding the key decides the lookup.
pub proof fn lemma_seq_get_at<V>(s: Seq<AddrEntry<V>>, k: Seq<char>, i: int)
    requires
        0 <= i < s.len(),
        s[i].key@ == k,
        forall|j: int| 0 <= j < i ==> s[j].key@ != k,
    ensures
        seq_get(s, k) == Some(s[i].val),
    decreases s.len(),
{
    if i > 0 {
        assert(forall|j: int|
            0 <= j < s.drop_first().len() ==> s.drop_first()[j] == s[j + 1]);
        lemma_seq_get_at(s.drop_first(), k, i - 1);
    }
}

impl<V> AddrMap<V> {
    /// The keys, in storage (ascending) order.
    pub open spec fn key_seq(self) -> Seq<Seq<char>> {
        Seq::new(self.entries@.len(), |i: int| self.entries@[i].key@)
    }

    /// Keys are strictly ascending, hence distinct.
    pub open spec fn wf(self) -> bool {
        forall|i: int, j: int|
            0 <= i < j < self.entries@.len() ==> lex_lt(
                self.entries@[i].key@,
                self.entries@[j].key@,
            )
    }

    pub open spec fn spec_len(self) -> nat {
        self.entries@.len()
    }

    /// The value stored under a key, if any.
    pub open spec fn spec_get(self, k: Seq<char>) -> Option<V> {
        seq_get(self.entries@, k)
    }

    pub open spec fn spec_contains(self, k: Seq<char>) -> bool {
        self.spec_get(k) is Some
    }

    /// In a well-formed table, the entry at each position decides the lookup
    /// of its own key.
    pub proof fn lemma_get_at_index(self, i: int)
        requires
            self.wf(),
            0 <= i < self.entries@.len(),
        ensures
            self.spec_get(self.entries@[i].key@) == Some(self.entries@[i].val),
    {
        assert forall|j: int| 0 <= j < i implies self.entries@[j].key@
            != self.entries@[i].key@ by {
            lemma_lex_lt_irreflexive(self.entries@[i].key@);
        }
        lemma_seq_get_at(self.entries@, self.entries@[i].key@, i);
    }

    /// In a well-formed table the keys are pairwise distinct.
    pub proof fn lemma_keys_distinct(self)
        requires
            self.wf(),
        ensures
            forall|i: int, j: int|
                0 <= i < self.entries@.len() && 0 <= j < self.entries@.len() && i != j
                    ==> self.key_seq()[i] != self.key_seq()[j],
    {
        assert forall|i: int, j: int|
            0 <= i < self.entries@.len() && 0 <= j < self.entries@.len() && i
                != j implies self.key_seq()[i] != self.key_seq()[j] by {
            if i < j {
                lemma_lex_lt_irreflexive(self.entries@[i].key@);
            } else {
                lemma_lex_lt_irreflexive(self.entries@[j].key@);
            }
        }
    }

    /// An empty table.
    pub fn new() -> (r: Self)
        ensures
            r.wf(),
            r.spec_len() == 0,
            forall|k: Seq<char>| r.spec_get(k) is None,
    {
        AddrMap { entries: Vec::new() }
    }

    pub fn len(&self) -> (r: usize)
        ensures
            r == self.spec_len(),
    {
        self.entries.len()
    }

    /// The key at a position, positions being in ascending key order.
    pub fn key_at(&self, i: usize) -> (r: &String)
        requires
            i < self.spec_len(),
        ensures
            r@ == self.key_seq()[i as int],
    {
        &self.entries[i].key
    }

    /// The value at a position.
    pub fn val_at(&self, i: usize) -> (r: &V)
        requires
            i < self.spec_len(),
        ensures
            *r == self.entries@[i as int].val,
    {
        &self.entries[i].val
    }

    /// Looks a key up.
    pub fn get(&self, k: &str) -> (r: Option<&V>)
        requires
            self.wf(),
        ensures
            (match self.spec_get(k@) {
                Some(v) => r matches Some(rv) && *rv == v,
                None => r is None,
            }),
    {
        let n = self.entries.len();
        let mut i: usize = 0;
        while i < n
            invariant
                self.wf(),
                n == self.spec_len(),
                i <= n,
                forall|j: int| 0 <= j < i ==> self.entries@[j].key@ != k@,
            decreases n - i,
        {
            if str_eq(self.entries[i].key.as_str(), k) {
                proof {
                    lemma_seq_get_at(self.entries@, k@, i as int);
                }
                return Some(&self.entries[i].val);
            }
            i = i + 1;
        }
        proof {
            lemma_seq_get_absent(self.entries@, k@);
        }
        None
    }

    /// Inserts or overwrites the record under a key (last write wins).
    pub fn insert(&mut self, k: &str, v: V)
        requires
            old(self).wf(),
        ensures
            final(self).wf(),
            final(self).spec_get(k@) == Some(v),
            forall|k2: Seq<char>| k2 != k@ ==> final(self).spec_get(k2)
                == old(self).spec_get(k2),
            old(self).spec_contains(k@) ==> final(self).key_seq() == old(self).key_seq(),
            !old(self).spec_contains(k@) ==> exists|p: int|
                0 <= p <= old(self).spec_len() && final(self).key_seq()
                    == old(self).key_seq().insert(p, k@),
            final(self).spec_len() == if old(self).spec_contains(k@) {
                old(self).spec_len()
            } else {
                old(self).spec_len() + 1
            },
    {
        let n = self.entries.len();
        let mut p: usize = 0;
        while p < n
            invariant
                n == self.spec_len(),
                p <= n,
                forall|j: int| 0 <= j < p ==> lex_lt(self.entries@[j].key@, k@),
            ensures
                p <= n,
                forall|j: int| 0 <= j < p ==> lex_lt(self.entries@[j].key@, k@),
                p < n ==> !lex_lt(self.entries@[p as int].key@, k@),
            decreases n - p,
        {
            if !str_lt(self.entries[p].key.as_str(), k) {
                break;
            }
            p = p + 1;
        }
        proof {
            assert forall|j: int| p <= j < n implies !lex_lt(
                self.entries@[j].key@,
                k@,
            ) by {
                if p < j {
                    if lex_lt(self.entries@[j].key@, k@) {
                        lemma_lex_lt_transitive(
                            self.entries@[p as int].key@,
                            self.entries@[j].key@,
                            k@,
                        );
                    }
                }
            }
        }
        if p < n && str_eq(self.entries[p].key.as_str(), k) {
            let ghost pre = self.entries@;
            proof {
                assert forall|j: int| 0 <= j < p implies pre[j].key@ != k@ by {
                    lemma_lex_lt_irreflexive(k@);
                }
                lemma_seq_get_at(pre, k@, p as int);
            }
            let old_entry = self.entries.remove(p);
            self.entries.insert(p, AddrEntry { key: old_entry.key, val: v });
            proof {
                assert(self.entries@.len() == pre.len());
                assert(forall|i: int| 0 <= i < pre.len() && i != p ==> self.entries@[i]
                    == pre[i]);
                self.lemma_after_overwrite(pre, k@, p as int, v);
                assert(self.key_seq() =~= old(self).key_seq());
            }
        } else {
            proof {
                assert forall|j: int| p <= j < n implies lex_lt(
                    k@,
                    self.entries@[j].key@,
                ) by {
                    lemma_lex_lt_trichotomy(k@, self.entries@[j].key@);
                    if self.entries@[j].key@ == k@ {
                        if j == p {
                            lemma_lex_lt_irreflexive(k@);
                        } else {
                            lemma_lex_lt_transitive(
                                self.entries@[p as int].key@,
                                self.entries@[j].key@,
                                k@,
                            );
                            lemma_lex_lt_irreflexive(self.entries@[p as int].key@);
                        }
                    }
                }
                assert forall|j: int| 0 <= j < n implies self.entries@[j].key@ != k@ by {
                    lemma_lex_lt_irreflexive(k@);
                }
                lemma_seq_get_absent(self.entries@, k@);
            }
            let ghost pre = self.entries@;
            self.entries.insert(p, AddrEntry { key: k.to_owned(), val: v });
            proof {
                self.lemma_after_fresh_insert(pre, k@, p as int, v);
                assert(self.key_seq() =~= old(self).key_seq().insert(p as int, k@));
                assert(exists|q: int|
                    0 <= q <= old(self).spec_len() && self.key_seq() == old(self).key_seq().insert(
                        q,
                        k@,
                    )) by {
                    assert(0 <= p as int <= old(self).spec_len() && self.key_seq() == old(
                        self,
                    ).key_seq().insert(p as int, k@));
                }
            }
        }
    }

    proof fn lemma_after_overwrite(self, pre: Seq<AddrEntry<V>>, k: Seq<char>, p: int, v: V)
        requires
            0 <= p < pre.len(),
            pre[p].key@ == k,
            forall|i: int, j: int| 0 <= i < j < pre.len() ==> lex_lt(pre[i].key@, pre[j].key@),
            self.entries@.len() == pre.len(),
            forall|i: int| 0 <= i < pre.len() && i != p ==> self.entries@[i] == pre[i],
            self.entries@[p].key@ == k,
            self.entries@[p].val == v,
        ensures
            self.wf(),
            self.spec_get(k) == Some(v),
            forall|k2: Seq<char>| k2 != k ==> self.spec_get(k2) == seq_get(pre, k2),
    {
        assert forall|i: int, j: int|
            0 <= i < j < self.entries@.len() implies lex_lt(
            self.entries@[i].key@,
            self.entries@[j].key@,
        ) by {
            assert(self.entries@[i].key@ == pre[i].key@);
            assert(self.entries@[j].key@ == pre[j].key@);
        }
        assert forall|j: int| 0 <= j < p implies self.entries@[j].key@ != k by {
            lemma_lex_lt_irreflexive(k);
        }
        lemma_seq_get_at(self.entries@, k, p);
        assert forall|k2: Seq<char>| k2 != k implies self.spec_get(k2) == seq_get(
            pre,
            k2,
        ) by {
            Self::lemma_seq_get_pointwise(self.entries@, pre, k2);
        }
    }

    proof fn lemma_after_fresh_insert(self, pre: Seq<AddrEntry<V>>, k: Seq<char>, p: int, v: V)
        requires
            0 <= p <= pre.len(),
            forall|i: int, j: int| 0 <= i < j < pre.len() ==> lex_lt(pre[i].key@, pre[j].key@),
            forall|j: int| 0 <= j < p ==> lex_lt(pre[j].key@, k),
            forall|j: int| p <= j < pre.len() ==> lex_lt(k, pre[j].key@),
            self.entries@.len() == pre.len() + 1,
            forall|i: int| 0 <= i < p ==> self.entries@[i] == pre[i],
            forall|i: int| p < i < self.entries@.len() ==> self.entries@[i] == pre[i - 1],
            self.entries@[p].key@ == k,
            self.entries@[p].val == v,
        ensures
            self.wf(),
            self.spec_get(k) == Some(v),
            forall|k2: Seq<char>| k2 != k ==> self.spec_get(k2) == seq_get(pre, k2),
    {
        assert forall|i: int, j: int|
            0 <= i < j < self.entries@.len() implies lex_lt(
            self.entries@[i].key@,
            self.entries@[j].key@,
        ) by {
            if j < p {
                assert(self.entries@[i] == pre[i]);
                assert(self.entries@[j] == pre[j]);
            } else if j == p {
                assert(self.entries@[i] == pre[i]);
            } else if i < p {
                assert(self.entries@[i].key@ == pre[i].key@);
                assert(self.entries@[j].key@ == pre[j - 1].key@);
                lemma_lex_lt_transitive(pre[i].key@, k, pre[j - 1].key@);
            } else if i == p {
                assert(self.entries@[j] == pre[j - 1]);
            } else {
                assert(self.entries@[i] == pre[i - 1]);
                assert(self.entries@[j] == pre[j - 1]);
            }
        }
        assert forall|j: int| 0 <= j < p implies self.entries@[j].key@ != k by {
            lemma_lex_lt_irreflexive(k);
        }
        lemma_seq_get_at(self.entries@, k, p);
        assert forall|k2: Seq<char>| k2 != k implies self.spec_get(k2) == seq_get(
            pre,
            k2,
        ) by {
            Self::lemma_seq_get_insert_other(pre, self.entries@, k2, p);
        }
    }

    proof fn lemma_seq_get_pointwise(a: Seq<AddrEntry<V>>, b: Seq<AddrEntry<V>>, k: Seq<char>)
        requires
            a.len() == b.len(),
            forall|i: int| 0 <= i < a.len() && a[i].key@ == k ==> b[i].key@ == k && b[i].val
                == a[i].val,
            forall|i: int| 0 <= i < a.len() && b[i].key@ == k ==> a[i].key@ == k,
        ensures
            seq_get(a, k) == seq_get(b, k),
        decreases a.len(),
    {
        if a.len() != 0 && a[0].key@ != k {
            assert(forall|i: int| 0 <= i < a.drop_first().len() ==> a.drop_first()[i]
                == a[i + 1]);
            assert(forall|i: int| 0 <= i < b.drop_first().len() ==> b.drop_first()[i]
                == b[i + 1]);
            Self::lemma_seq_get_pointwise(a.drop_first(), b.drop_first(), k);
        }
    }

    proof fn lemma_seq_get_insert_other(
        pre: Seq<AddrEntry<V>>,
        post: Seq<AddrEntry<V>>,
        k2: Seq<char>,
        p: int,
    )
        requires
            0 <= p <= pre.len(),
            post.len() == pre.len() + 1,
            forall|i: int| 0 <= i < p ==> post[i] == pre[i],
            forall|i: int| p < i < post.len() ==> post[i] == pre[i - 1],
            post[p].key@ != k2,
        ensures
            seq_get(post, k2) == seq_get(pre, k2),
        decreases pre.len(),
    {
        if p == 0 {
            assert(forall|i: int| 0 <= i < pre.len() ==> post.drop_first()[i] == pre[i]);
            assert(post.drop_first() =~= pre);
        } else {
            if post[0].key@ != k2 {
                assert(forall|i: int| 0 <= i < p - 1 ==> post.drop_first()[i]
                    == pre.drop_first()[i]);
                assert(forall|i: int| p - 1 < i < post.drop_first().len()
                    ==> post.drop_first()[i] == pre.drop_first()[i - 1]);
                assert(post.drop_first()[p - 1] == post[p]);
                Self::lemma_seq_get_insert_other(
                    pre.drop_first(),
                    post.drop_first(),
                    k2,
                    p - 1,
                );
            }
        }
    }
}

} // verus!
