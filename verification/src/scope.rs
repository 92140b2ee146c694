//! Lexical-scope tracking.
//!
//! The scope is a multiset of currently-shadowed names, held as the list of
//! shadow tokens in force: shadowing a name pushes one occurrence, leaving a
//! scope removes one.  A name shadows the receiver's property of that name
//! iff it occurs at least once.  Its mathematical view is the map from name
//! to positive occurrence count.
use vstd::prelude::*;
use crate::config::Config;

verus! {

/// The rewriting pass's working state: the configuration, the scope, and the
/// property names collected so far inside probe-marked calls.
pub struct BindThisVisit {
    pub config: Config,
    pub scope: Vec<String>,
    pub cached_props: Vec<String>,
}

/// Occurrences of `k` in `s`.
pub open spec fn seq_count(s: Seq<String>, k: Seq<char>) -> nat
    decreases s,
{
    if s.len() == 0 {
        0
    } else {
        seq_count(s.drop_last(), k) + if s.last()@ == k {
            1nat
        } else {
            0nat
        }
    }
}

/// Shadowing `k` once: its count rises by one (entering at one if absent).
pub open spec fn scope_add(m: Map<Seq<char>, nat>, k: Seq<char>) -> Map<Seq<char>, nat> {
    m.insert(
        k,
        if m.contains_key(k) {
            m[k] + 1
        } else {
            1nat
        },
    )
}

/// Unshadowing `k` once: its count falls by one, leaving the map at zero;
/// a no-op when absent.
pub open spec fn scope_remove(m: Map<Seq<char>, nat>, k: Seq<char>) -> Map<Seq<char>, nat> {
    if m.contains_key(k) {
        if m[k] > 1 {
            m.insert(k, (m[k] - 1) as nat)
        } else {
            m.remove(k)
        }
    } else {
        m
    }
}

/// A scope view holds only positive counts.
pub open spec fn scope_wf(m: Map<Seq<char>, nat>) -> bool {
    forall|k: Seq<char>| m.contains_key(k) ==> m[k] >= 1
}

proof fn lemma_count_push(s: Seq<String>, v: String, k: Seq<char>)
    ensures
        seq_count(s.push(v), k) == seq_count(s, k) + if v@ == k {
            1nat
        } else {
            0nat
        },
{
    assert(s.push(v).drop_last() =~= s);
    assert(s.push(v).last() == v);
}

proof fn lemma_count_concat(a: Seq<String>, b: Seq<String>, k: Seq<char>)
    ensures
        seq_count(a + b, k) == seq_count(a, k) + seq_count(b, k),
    decreases b,
{
    if b.len() == 0 {
        assert(a + b =~= a);
    } else {
        lemma_count_concat(a, b.drop_last(), k);
        assert((a + b).drop_last() =~= a + b.drop_last());
        assert((a + b).last() == b.last());
    }
}

proof fn lemma_count_remove(s: Seq<String>, i: int, k: Seq<char>)
    requires
        0 <= i < s.len(),
    ensures
        seq_count(s.remove(i), k) + if s[i]@ == k {
            1nat
        } else {
            0nat
        } == seq_count(s, k),
{
    let left = s.subrange(0, i);
    let mid = s.subrange(i, i + 1);
    let right = s.subrange(i + 1, s.len() as int);
    assert(s.remove(i) =~= left + right);
    assert(s =~= (left + mid) + right);
    lemma_count_concat(left, right, k);
    lemma_count_concat(left + mid, right, k);
    lemma_count_concat(left, mid, k);
    assert(mid.len() == 1);
    assert(mid.last() == s[i]);
    assert(mid.drop_last() =~= Seq::<String>::empty());
    assert(seq_count(mid.drop_last(), k) == 0);
    assert(seq_count(mid, k) == if s[i]@ == k {
        1nat
    } else {
        0nat
    });
}

proof fn lemma_count_zero_iff(s: Seq<String>, k: Seq<char>)
    ensures
        (seq_count(s, k) == 0) <==> (forall|i: int| 0 <= i < s.len() ==> s[i]@ != k),
    decreases s,
{
    if s.len() > 0 {
        lemma_count_zero_iff(s.drop_last(), k);
        assert(forall|i: int| 0 <= i < s.len() - 1 ==> s[i] == s.drop_last()[i]);
        assert(s.last() == s[s.len() - 1]);
    }
}

impl BindThisVisit {
    /// The scope as a map from name to positive shadow count.
    pub open spec fn scope_view(&self) -> Map<Seq<char>, nat> {
        Map::new(
            |k: Seq<char>| seq_count(self.scope@, k) > 0,
            |k: Seq<char>| seq_count(self.scope@, k),
        )
    }

    /// A fresh state: empty scope, nothing collected yet.
    pub fn new(config: Config) -> (v: BindThisVisit)
        ensures
            v.config == config,
            v.scope_view() == Map::<Seq<char>, nat>::empty(),
            v.cached_props@.len() == 0,
    {
        let v = BindThisVisit { config, scope: Vec::new(), cached_props: Vec::new() };
        proof {
            assert(v.scope_view() =~= Map::<Seq<char>, nat>::empty());
        }
        v
    }

    /// Shadows `key` once more.
    pub fn add_scope(self: &mut BindThisVisit, key: &String)
        ensures
            final(self).scope_view() == scope_add(old(self).scope_view(), key@),
            final(self).config == old(self).config,
            final(self).cached_props == old(self).cached_props,
    {
        self.scope.push(key.clone());
        proof {
            let s0 = old(self).scope@;
            let c = self.scope@.last();
            assert(c@ == key@);
            assert forall|x: Seq<char>|
                seq_count(self.scope@, x) == seq_count(s0, x) + if key@ == x {
                    1nat
                } else {
                    0nat
                } by {
                lemma_count_push(s0, c, x);
            }
            assert(self.scope_view() =~= scope_add(old(self).scope_view(), key@));
        }
    }

    /// Removes one shadow of `key`; a no-op when it is not shadowed.
    pub fn remove_scope(self: &mut BindThisVisit, key: &String)
        ensures
            final(self).scope_view() == scope_remove(old(self).scope_view(), key@),
            final(self).config == old(self).config,
            final(self).cached_props == old(self).cached_props,
    {
        let mut i: usize = 0;
        while i < self.scope.len()
            invariant
                i <= self.scope.len(),
                forall|j: int| 0 <= j < i ==> self.scope@[j]@ != key@,
                *self == *old(self),
            decreases self.scope.len() - i,
        {
            if self.scope[i] == *key {
                let ghost s0 = self.scope@;
                self.scope.remove(i);
                proof {
                    assert forall|x: Seq<char>|
                        seq_count(self.scope@, x) + if s0[i as int]@ == x {
                            1nat
                        } else {
                            0nat
                        } == seq_count(s0, x) by {
                        lemma_count_remove(s0, i as int, x);
                    }
                    assert(self.scope_view() =~= scope_remove(old(self).scope_view(), key@));
                }
                return ;
            }
            i = i + 1;
        }
        proof {
            lemma_count_zero_iff(self.scope@, key@);
            assert(!old(self).scope_view().contains_key(key@));
        }
    }

    /// Whether `key` currently shadows the receiver's property of that name.
    pub fn has_binding(self: &mut BindThisVisit, key: &String) -> (r: bool)
        ensures
            *final(self) == *old(self),
            r == final(self).scope_view().contains_key(key@),
    {
        let mut i: usize = 0;
        while i < self.scope.len()
            invariant
                i <= self.scope.len(),
                forall|j: int| 0 <= j < i ==> self.scope@[j]@ != key@,
                *self == *old(self),
            decreases self.scope.len() - i,
        {
            if self.scope[i] == *key {
                proof {
                    lemma_count_zero_iff(self.scope@, key@);
                }
                return true;
            }
            i = i + 1;
        }
        proof {
            lemma_count_zero_iff(self.scope@, key@);
        }
        false
    }
}

/// Unshadowing right after shadowing restores the scope exactly; this is what
/// makes re-entrant shadowing nest correctly.
pub proof fn lemma_scope_add_remove(m: Map<Seq<char>, nat>, k: Seq<char>)
    requires
        scope_wf(m),
    ensures
        scope_remove(scope_add(m, k), k) == m,
{
    let added = scope_add(m, k);
    assert(added.contains_key(k));
    if m.contains_key(k) {
        assert(added[k] == m[k] + 1);
        assert(added[k] > 1);
        assert(scope_remove(added, k) =~= m);
    } else {
        assert(added[k] == 1);
        assert(scope_remove(added, k) =~= m);
    }
}

/// Every scope view holds only positive counts.
pub proof fn lemma_scope_view_wf(v: BindThisVisit)
    ensures
        scope_wf(v.scope_view()),
{
}

} // verus!
