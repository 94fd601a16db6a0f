//! A verified map from identifier strings to copyable values: the explicit,
//! in-memory store that the gold ledger and the timing gate run against.
use vstd::prelude::*;

verus! {

/// The mathematical contents of an entry sequence; with unique keys every
/// entry is authoritative for its key.
spec fn map_of<V>(s: Seq<(String, V)>) -> Map<Seq<char>, V>
    decreases s.len(),
{
    if s.len() == 0 {
        Map::empty()
    } else {
        map_of(s.drop_last()).insert(s.last().0@, s.last().1)
    }
}

/// Every key occurs in at most one entry.
spec fn unique_keys<V>(s: Seq<(String, V)>) -> bool {
    forall|i: int, j: int| 0 <= i < j < s.len() ==> s[i].0@ != s[j].0@
}

/// A key is in the contents exactly when some entry carries it.
proof fn lemma_map_of_contains<V>(s: Seq<(String, V)>, k: Seq<char>)
    ensures
        map_of(s).contains_key(k) <==> exists|i: int| 0 <= i < s.len() && s[i].0@ == k,
    decreases s.len(),
{
    if s.len() > 0 {
        lemma_map_of_contains(s.drop_last(), k);
        if s.last().0@ == k {
            assert(s[s.len() - 1].0@ == k);
        } else {
            if map_of(s).contains_key(k) {
                let i = choose|i: int| 0 <= i < s.drop_last().len() && s.drop_last()[i].0@ == k;
                assert(s[i].0@ == k);
            }
            if exists|i: int| 0 <= i < s.len() && s[i].0@ == k {
                let i = choose|i: int| 0 <= i < s.len() && s[i].0@ == k;
                assert(s.drop_last()[i].0@ == k);
            }
        }
    }
}

/// With unique keys, the contents map each present key to its entry's value.
proof fn lemma_map_of_value<V>(s: Seq<(String, V)>, i: int)
    requires
        unique_keys(s),
        0 <= i < s.len(),
    ensures
        map_of(s).contains_key(s[i].0@),
        map_of(s)[s[i].0@] == s[i].1,
    decreases s.len(),
{
    lemma_map_of_contains(s, s[i].0@);
    if i < s.len() - 1 {
        assert(s.last().0@ != s[i].0@);
        assert(s.drop_last()[i] == s[i]);
        lemma_map_of_value(s.drop_last(), i);
    }
}

/// A map from strings to values, kept as an entry list with unique keys.
pub struct StrMap<V> {
    entries: Vec<(String, V)>,
}

impl<V> View for StrMap<V> {
    type V = Map<Seq<char>, V>;

    closed spec fn view(&self) -> Map<Seq<char>, V> {
        map_of(self.entries@)
    }
}

impl<V: Copy> StrMap<V> {
    /// The representation keeps every key in at most one entry.
    pub closed spec fn wf(self) -> bool {
        unique_keys(self.entries@)
    }

    /// An empty map.
    pub fn new() -> (m: StrMap<V>)
        ensures
            m.wf(),
            m@ == Map::<Seq<char>, V>::empty(),
    {
        StrMap { entries: Vec::new() }
    }

    /// Look a key up.
    pub fn get(&self, key: &String) -> (r: Option<V>)
        requires
            self.wf(),
        ensures
            r == if self@.contains_key(key@) {
                Some(self@[key@])
            } else {
                None::<V>
            },
    {
        let n = self.entries.len();
        let mut i: usize = 0;
        while i < n
            invariant
                self.wf(),
                n == self.entries@.len(),
                i <= n,
                forall|j: int| 0 <= j < i ==> self.entries@[j].0@ != key@,
            decreases n - i,
        {
            let entry = &self.entries[i];
            if entry.0 == *key {
                proof {
                    lemma_map_of_value(self.entries@, i as int);
                }
                return Some(entry.1);
            }
            i += 1;
        }
        proof {
            lemma_map_of_contains(self.entries@, key@);
        }
        None
    }

    /// Insert or overwrite a key's value.
    pub fn set(&mut self, key: String, value: V)
        requires
            old(self).wf(),
        ensures
            final(self).wf(),
            final(self)@ == old(self)@.insert(key@, value),
    {
        let n = self.entries.len();
        let mut i: usize = 0;
        while i < n
            invariant
                self.wf(),
                self.entries@ == old(self).entries@,
                n == self.entries@.len(),
                i <= n,
                forall|j: int| 0 <= j < i ==> self.entries@[j].0@ != key@,
            decreases n - i,
        {
            let entry = &self.entries[i];
            if entry.0 == *&key {
                self.entries[i] = (key, value);
                proof {
                    let pre = old(self).entries@;
                    let post = self.entries@;
                    assert forall|a: int, b: int| 0 <= a < b < post.len() implies post[a].0@
                        != post[b].0@ by {
                        assert(pre[a].0@ != pre[b].0@);
                    }
                    let target = map_of(pre).insert(key@, value);
                    assert forall|k: Seq<char>|
                        #[trigger] map_of(post).contains_key(k) == target.contains_key(k) && (
                        map_of(post).contains_key(k) ==> map_of(post)[k] == target[k]) by {
                        lemma_map_of_contains(pre, k);
                        lemma_map_of_contains(post, k);
                        if k == key@ {
                            lemma_map_of_value(post, i as int);
                        } else {
                            if map_of(pre).contains_key(k) {
                                let a = choose|a: int| 0 <= a < pre.len() && pre[a].0@ == k;
                                lemma_map_of_value(pre, a);
                                assert(post[a].0@ == k);
                                lemma_map_of_value(post, a);
                            }
                            if map_of(post).contains_key(k) {
                                let a = choose|a: int| 0 <= a < post.len() && post[a].0@ == k;
                                lemma_map_of_value(post, a);
                                assert(pre[a].0@ == k);
                                lemma_map_of_value(pre, a);
                            }
                        }
                    }
                    assert(map_of(post) =~= target);
                }
                return ;
            }
            i += 1;
        }
        proof {
            lemma_map_of_contains(self.entries@, key@);
        }
        self.entries.push((key, value));
        proof {
            let pre = old(self).entries@;
            let post = self.entries@;
            assert(post.drop_last() =~= pre);
            assert forall|a: int, b: int| 0 <= a < b < post.len() implies post[a].0@
                != post[b].0@ by {
                if b < post.len() - 1 {
                    assert(pre[a].0@ != pre[b].0@);
                } else {
                    assert(pre[a].0@ != key@);
                }
            }
        }
    }

    /// Remove a key; removing an absent key changes nothing.
    pub fn remove(&mut self, key: &String)
        requires
            old(self).wf(),
        ensures
            final(self).wf(),
            final(self)@ == old(self)@.remove(key@),
    {
        let n = self.entries.len();
        let mut i: usize = 0;
        while i < n
            invariant
                self.wf(),
                self.entries@ == old(self).entries@,
                n == self.entries@.len(),
                i <= n,
                forall|j: int| 0 <= j < i ==> self.entries@[j].0@ != key@,
            decreases n - i,
        {
            let entry = &self.entries[i];
            if entry.0 == *key {
                self.entries.remove(i);
                proof {
                    let pre = old(self).entries@;
                    let post = self.entries@;
                    assert forall|a: int, b: int| 0 <= a < b < post.len() implies post[a].0@
                        != post[b].0@ by {
                        let a0 = if a < i as int { a } else { a + 1 };
                        let b0 = if b < i as int { b } else { b + 1 };
                        assert(post[a] == pre[a0]);
                        assert(post[b] == pre[b0]);
                        assert(pre[a0].0@ != pre[b0].0@);
                    }
                    let target = map_of(pre).remove(key@);
                    assert forall|k: Seq<char>|
                        #[trigger] map_of(post).contains_key(k) == target.contains_key(k) && (
                        map_of(post).contains_key(k) ==> map_of(post)[k] == target[k]) by {
                        lemma_map_of_contains(pre, k);
                        lemma_map_of_contains(post, k);
                        if map_of(post).contains_key(k) {
                            let a = choose|a: int| 0 <= a < post.len() && post[a].0@ == k;
                            lemma_map_of_value(post, a);
                            let a0 = if a < i as int {
                                a
                            } else {
                                a + 1
                            };
                            assert(post[a] == pre[a0]);
                            lemma_map_of_value(pre, a0);
                            assert(pre[i as int].0@ == key@);
                            assert(a0 != i as int ==> k != key@);
                        }
                        if k != key@ && map_of(pre).contains_key(k) {
                            let a0 = choose|a0: int| 0 <= a0 < pre.len() && pre[a0].0@ == k;
                            lemma_map_of_value(pre, a0);
                            let a = if a0 < i as int {
                                a0
                            } else {
                                a0 - 1
                            };
                            assert(a0 != i as int);
                            assert(post[a] == pre[a0]);
                            lemma_map_of_value(post, a);
                        }
                    }
                    assert(map_of(post) =~= target);
                }
                return ;
            }
            i += 1;
        }
        proof {
            lemma_map_of_contains(self.entries@, key@);
            assert(final(self)@ =~= old(self)@.remove(key@));
        }
    }

    /// All keys, each once, in storage order.
    pub fn keys(&self) -> (r: Vec<String>)
        requires
            self.wf(),
        ensures
            forall|i: int| 0 <= i < r@.len() ==> self@.contains_key(#[trigger] r@[i]@),
            forall|k: Seq<char>|
                self@.contains_key(k) ==> exists|i: int| 0 <= i < r@.len() && r@[i]@ == k,
            forall|i: int, j: int| 0 <= i < j < r@.len() ==> r@[i]@ != r@[j]@,
    {
        let n = self.entries.len();
        let mut r: Vec<String> = Vec::new();
        let mut i: usize = 0;
        while i < n
            invariant
                self.wf(),
                n == self.entries@.len(),
                i <= n,
                r@.len() == i,
                forall|j: int| 0 <= j < i ==> r@[j]@ == self.entries@[j].0@,
            decreases n - i,
        {
            let entry = &self.entries[i];
            r.push(entry.0.clone());
            i += 1;
        }
        proof {
            assert forall|i: int| 0 <= i < r@.len() implies self@.contains_key(
                #[trigger] r@[i]@,
            ) by {
                lemma_map_of_value(self.entries@, i);
            }
            assert forall|k: Seq<char>| self@.contains_key(k) implies exists|i: int|
                0 <= i < r@.len() && r@[i]@ == k by {
                lemma_map_of_contains(self.entries@, k);
                let i = choose|i: int| 0 <= i < self.entries@.len() && self.entries@[i].0@ == k;
                assert(r@[i]@ == k);
            }
        }
        r
    }
}

} // verus!
