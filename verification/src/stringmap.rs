//! A string-keyed map held as an association vector with unique keys, with a
//! `Map` view. It backs the session registry and the per-client request
//! counters, which the embedding program shares behind one lock per table.
use vstd::prelude::*;
use vstd::map::*;
use crate::text::str_eq;

verus! {

pub struct StringMap<T> {
    entries: Vec<(String, T)>,
}

/// Whether some entry has the given key.
pub open spec fn spec_has<T>(s: Seq<(String, T)>, k: Seq<char>) -> bool {
    exists|i: int| 0 <= i < s.len() && (#[trigger] s[i]).0@ == k
}

/// The position of the entry with the given key.
pub open spec fn spec_index_of<T>(s: Seq<(String, T)>, k: Seq<char>) -> int {
    choose|i: int| 0 <= i < s.len() && (#[trigger] s[i]).0@ == k
}

/// No two entries share a key.
pub open spec fn unique_keys<T>(s: Seq<(String, T)>) -> bool {
    forall|a: int, b: int| 0 <= a < b < s.len() ==> (#[trigger] s[a]).0@ != (#[trigger] s[b]).0@
}

/// With unique keys, any entry holding the key is the looked-up one.
proof fn lemma_index_unique<T>(s: Seq<(String, T)>, i: int, k: Seq<char>)
    requires
        unique_keys(s),
        0 <= i < s.len(),
        s[i].0@ == k,
    ensures
        spec_has(s, k),
        spec_index_of(s, k) == i,
{
    assert(spec_has(s, k));
    let c = spec_index_of(s, k);
    assert(0 <= c < s.len() && s[c].0@ == k);
    if c < i {
        assert(s[c].0@ != s[i].0@);
    } else if i < c {
        assert(s[i].0@ != s[c].0@);
    }
}

impl<T> StringMap<T> {
    /// Keys are unique, so every lookup has one answer.
    pub closed spec fn wf(&self) -> bool {
        unique_keys(self.entries@)
    }

    /// The map this table holds.
    pub closed spec fn view(&self) -> Map<Seq<char>, T> {
        Map::new(
            |k: Seq<char>| spec_has(self.entries@, k),
            |k: Seq<char>| self.entries@[spec_index_of(self.entries@, k)].1,
        )
    }

    pub fn new() -> (r: Self)
        ensures
            r.wf(),
            r@ == Map::<Seq<char>, T>::empty(),
    {
        let r = StringMap { entries: Vec::new() };
        proof {
            assert(r@ =~= Map::<Seq<char>, T>::empty());
        }
        r
    }

    /// Looks the key up: the mapped value where the key is present.
    pub fn get(&self, k: &str) -> (r: Option<&T>)
        requires
            self.wf(),
        ensures
            match r {
                Some(v) => self@.contains_key(k@) && *v == self@[k@],
                None => !self@.contains_key(k@),
            },
    {
        let mut i: usize = 0;
        while i < self.entries.len()
            invariant
                self.wf(),
                0 <= i <= self.entries@.len(),
                forall|j: int| 0 <= j < i ==> (#[trigger] self.entries@[j]).0@ != k@,
            decreases self.entries@.len() - i,
        {
            if str_eq(self.entries[i].0.as_str(), k) {
                proof {
                    lemma_index_unique(self.entries@, i as int, k@);
                }
                return Some(&self.entries[i].1);
            }
            i += 1;
        }
        proof {
            assert(!spec_has(self.entries@, k@));
        }
        None
    }

    /// Binds the key to the value, replacing any earlier binding.
    pub fn set(&mut self, k: String, v: T)
        requires
            old(self).wf(),
        ensures
            final(self).wf(),
            final(self)@ == old(self)@.insert(k@, v),
    {
        let _ = self.remove(k.as_str());
        let ghost s0 = self.entries@;
        let ghost m0 = self@;
        proof {
            assert(!m0.contains_key(k@));
            assert(!spec_has(s0, k@));
            assert(forall|j: int| 0 <= j < s0.len() ==> (#[trigger] s0[j]).0@ != k@);
        }
        self.entries.push((k, v));
        proof {
            let s1 = self.entries@;
            lemma_push_fresh_view(s0, s1, k@, v);
            assert_maps_equal!(self@, m0.insert(k@, v), q => {
                if q == k@ {
                    lemma_index_unique(s1, s1.len() - 1, k@);
                } else {
                    if spec_has(s1, q) {
                        let c = spec_index_of(s1, q);
                        assert(s1[c].0@ == q);
                        assert(c < s0.len());
                        assert(s0[c] == s1[c]);
                        lemma_index_unique(s0, c, q);
                        lemma_index_unique(s1, c, q);
                    }
                    if spec_has(s0, q) {
                        let c = spec_index_of(s0, q);
                        assert(s0[c].0@ == q);
                        assert(s1[c] == s0[c]);
                        lemma_index_unique(s0, c, q);
                        lemma_index_unique(s1, c, q);
                    }
                }
            });
            assert(m0.insert(k@, v) =~= old(self)@.insert(k@, v));
        }
    }

    /// Removes the key's binding; reports whether one was there. Removing an
    /// absent key changes nothing.
    pub fn remove(&mut self, k: &str) -> (r: bool)
        requires
            old(self).wf(),
        ensures
            final(self).wf(),
            r == old(self)@.contains_key(k@),
            final(self)@ == old(self)@.remove(k@),
    {
        let ghost s0 = self.entries@;
        let mut i: usize = 0;
        while i < self.entries.len()
            invariant
                self.wf(),
                self.entries@ == s0,
                old(self).entries@ == s0,
                0 <= i <= self.entries@.len(),
                forall|j: int| 0 <= j < i ==> (#[trigger] self.entries@[j]).0@ != k@,
            decreases self.entries@.len() - i,
        {
            if str_eq(self.entries[i].0.as_str(), k) {
                proof {
                    lemma_index_unique(s0, i as int, k@);
                }
                let _ = self.entries.remove(i);
                proof {
                    let s1 = self.entries@;
                    lemma_remove_keeps_unique(s0, i as int);
                    assert(old(self)@.contains_key(k@)) by {
                        assert(spec_has(s0, k@));
                    }
                    assert_maps_equal!(self@, old(self)@.remove(k@), q => {
                        lemma_remove_other_lookup(s0, i as int, q);
                        if spec_has(s1, q) {
                            let c = spec_index_of(s1, q);
                            assert(s1[c].0@ == q);
                            lemma_index_unique(s1, c, q);
                            let c0 = if c < i as int {
                                c
                            } else {
                                c + 1
                            };
                            assert(s0[c0] == s1[c]);
                            lemma_index_unique(s0, c0, q);
                        }
                    });
                }
                return true;
            }
            i += 1;
        }
        proof {
            assert(!spec_has(s0, k@));
            assert(self@ =~= old(self)@.remove(k@));
        }
        false
    }
}

/// Removing one entry of a unique-key table keeps the keys unique.
proof fn lemma_remove_keeps_unique<T>(s: Seq<(String, T)>, i: int)
    requires
        0 <= i < s.len(),
        unique_keys(s),
    ensures
        unique_keys(s.remove(i)),
{
    let t = s.remove(i);
    assert forall|a: int, b: int| 0 <= a < b < t.len() implies (#[trigger] t[a]).0@ != (
    #[trigger] t[b]).0@ by {
        let a0 = if a < i {
            a
        } else {
            a + 1
        };
        let b0 = if b < i {
            b
        } else {
            b + 1
        };
        assert(t[a] == s[a0] && t[b] == s[b0]);
    }
}

/// After removing the entry at `i`, presence of any other key is unchanged.
proof fn lemma_remove_other_lookup<T>(s: Seq<(String, T)>, i: int, q: Seq<char>)
    requires
        0 <= i < s.len(),
        unique_keys(s),
    ensures
        q != s[i].0@ ==> (spec_has(s.remove(i), q) == spec_has(s, q)),
        q == s[i].0@ ==> !spec_has(s.remove(i), q),
{
    let t = s.remove(i);
    if q != s[i].0@ {
        if spec_has(s, q) {
            let c = spec_index_of(s, q);
            assert(s[c].0@ == q);
            assert(c != i);
            let ct = if c < i {
                c
            } else {
                c - 1
            };
            assert(t[ct] == s[c]);
            assert(spec_has(t, q));
        }
        if spec_has(t, q) {
            let c = spec_index_of(t, q);
            assert(t[c].0@ == q);
            let c0 = if c < i {
                c
            } else {
                c + 1
            };
            assert(s[c0] == t[c]);
            assert(spec_has(s, q));
        }
    } else {
        if spec_has(t, q) {
            let c = spec_index_of(t, q);
            assert(t[c].0@ == q);
            let c0 = if c < i {
                c
            } else {
                c + 1
            };
            assert(s[c0] == t[c]);
            assert(c0 != i);
            lemma_index_unique(s, c0, q);
            lemma_index_unique(s, i, q);
        }
    }
}

/// Pushing a key not yet in the table keeps keys unique.
proof fn lemma_push_fresh_view<T>(s: Seq<(String, T)>, s1: Seq<(String, T)>, k: Seq<char>, v: T)
    requires
        unique_keys(s),
        forall|j: int| 0 <= j < s.len() ==> (#[trigger] s[j]).0@ != k,
        s1.len() == s.len() + 1,
        forall|j: int| 0 <= j < s.len() ==> #[trigger] s1[j] == s[j],
        s1[s1.len() - 1].0@ == k,
        s1[s1.len() - 1].1 == v,
    ensures
        unique_keys(s1),
        spec_has(s1, k),
        s1[spec_index_of(s1, k)].1 == v,
{
    assert forall|a: int, b: int| 0 <= a < b < s1.len() implies (#[trigger] s1[a]).0@ != (
    #[trigger] s1[b]).0@ by {
        if b < s1.len() - 1 {
            assert(s1[a] == s[a] && s1[b] == s[b]);
        } else {
            assert(s1[a] == s[a]);
        }
    }
    lemma_index_unique(s1, s1.len() - 1, k);
}

} // verus!
