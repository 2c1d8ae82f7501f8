//! The metadata of a Kubernetes object, as far as the controllers read it.
use vstd::prelude::*;

use crate::text::{concat3, str_equal, string_views};

verus! {

/// A key and its value in a string map.
#[derive(Debug, PartialEq, Eq)]
pub struct StringPair {
    pub key: String,
    pub value: String,
}

/// A map from strings to strings, such as labels or annotations. A lookup finds the
/// first pair with the key; the map's operations never make two pairs with one key.
#[derive(Debug, PartialEq, Eq, Default)]
pub struct StringMap {
    pub entries: Vec<StringPair>,
}

/// Views of the pairs of a string map.
pub open spec fn pairs_view(entries: Seq<StringPair>) -> Seq<(Seq<char>, Seq<char>)> {
    entries.map_values(|p: StringPair| (p.key@, p.value@))
}

/// The value of the first pair with key `key`.
pub open spec fn pairs_lookup(pairs: Seq<(Seq<char>, Seq<char>)>, key: Seq<char>) -> Option<Seq<char>>
    decreases pairs.len(),
{
    if pairs.len() == 0 {
        None
    } else if pairs[0].0 == key {
        Some(pairs[0].1)
    } else {
        pairs_lookup(pairs.drop_first(), key)
    }
}

impl View for StringMap {
    type V = Seq<(Seq<char>, Seq<char>)>;

    open spec fn view(&self) -> Seq<(Seq<char>, Seq<char>)> {
        pairs_view(self.entries@)
    }
}

impl StringMap {
    /// The empty map.
    pub fn new() -> (m: StringMap)
        ensures
            m@ == Seq::<(Seq<char>, Seq<char>)>::empty(),
    {
        let m = StringMap { entries: Vec::new() };
        assert(m@ =~= Seq::<(Seq<char>, Seq<char>)>::empty());
        m
    }

    /// The value of `key`.
    pub fn get(&self, key: &str) -> (r: Option<&String>)
        ensures
            match r {
                Some(v) => pairs_lookup(self@, key@) == Some(v@),
                None => pairs_lookup(self@, key@) is None,
            },
    {
        let ghost pv = self@;
        let mut i: usize = 0;
        assert(pv.skip(0) =~= pv);
        while i < self.entries.len()
            invariant
                i <= self.entries.len(),
                pv == self@,
                pv.len() == self.entries.len(),
                pairs_lookup(pv, key@) == pairs_lookup(pv.skip(i as int), key@),
            decreases self.entries.len() - i,
        {
            assert(pv.skip(i as int)[0] == pv[i as int]);
            if str_equal(self.entries[i].key.as_str(), key) {
                return Some(&self.entries[i].value);
            }
            assert(pv.skip(i as int).drop_first() =~= pv.skip(i + 1));
            i = i + 1;
        }
        None
    }
}

/// The pairs whose key is not `key`, in order.
pub open spec fn pairs_without(pairs: Seq<(Seq<char>, Seq<char>)>, key: Seq<char>) -> Seq<(Seq<char>, Seq<char>)>
    decreases pairs.len(),
{
    if pairs.len() == 0 {
        Seq::empty()
    } else {
        let prev = pairs_without(pairs.drop_last(), key);
        if pairs.last().0 == key {
            prev
        } else {
            prev.push(pairs.last())
        }
    }
}

/// After a key is removed, a lookup of it finds nothing and a lookup of any other key
/// finds what it found before.
pub proof fn lemma_lookup_after_remove(pairs: Seq<(Seq<char>, Seq<char>)>, key: Seq<char>)
    ensures
        pairs_lookup(pairs_without(pairs, key), key) is None,
        forall|k: Seq<char>| k != key ==> pairs_lookup(pairs_without(pairs, key), k) == pairs_lookup(pairs, k),
    decreases pairs.len(),
{
    if pairs.len() > 0 {
        let init = pairs.drop_last();
        lemma_lookup_after_remove(init, key);
        assert forall|k: Seq<char>| #[trigger] pairs_lookup(pairs, k) == if pairs_lookup(init, k) is Some {
            pairs_lookup(init, k)
        } else if pairs.last().0 == k {
            Some(pairs.last().1)
        } else {
            None
        } by {
            lemma_lookup_push(init, pairs.last(), k);
            assert(init.push(pairs.last()) =~= pairs);
        }
        let w = pairs_without(init, key);
        if pairs.last().0 != key {
            assert forall|k: Seq<char>| #[trigger] pairs_lookup(w.push(pairs.last()), k) == if pairs_lookup(w, k) is Some {
                pairs_lookup(w, k)
            } else if pairs.last().0 == k {
                Some(pairs.last().1)
            } else {
                None
            } by {
                lemma_lookup_push(w, pairs.last(), k);
            }
        }
    }
}

/// A lookup in pairs with one more pair at the end finds what it found before, or else
/// the new pair when it has the key.
pub proof fn lemma_lookup_push(pairs: Seq<(Seq<char>, Seq<char>)>, p: (Seq<char>, Seq<char>), k: Seq<char>)
    ensures
        pairs_lookup(pairs.push(p), k) == if pairs_lookup(pairs, k) is Some {
            pairs_lookup(pairs, k)
        } else if p.0 == k {
            Some(p.1)
        } else {
            None
        },
    decreases pairs.len(),
{
    let q = pairs.push(p);
    if pairs.len() == 0 {
        assert(q[0] == p);
        assert(q.drop_first() =~= Seq::<(Seq<char>, Seq<char>)>::empty());
    } else {
        assert(q[0] == pairs[0]);
        assert(q.drop_first() =~= pairs.drop_first().push(p));
        lemma_lookup_push(pairs.drop_first(), p, k);
    }
}

impl StringMap {
    /// Removes `key` from the map.
    pub fn remove(&mut self, key: &str)
        ensures
            final(self)@ == pairs_without(old(self)@, key@),
    {
        let ghost all = self@;
        let mut kept: Vec<StringPair> = Vec::new();
        let mut old_entries: Vec<StringPair> = Vec::new();
        std::mem::swap(&mut old_entries, &mut self.entries);
        assert(pairs_view(old_entries@) == all);
        let mut i: usize = 0;
        while i < old_entries.len()
            invariant
                i <= old_entries.len(),
                pairs_view(old_entries@) == all,
                pairs_view(kept@) == pairs_without(all.take(i as int), key@),
            decreases old_entries.len() - i,
        {
            proof {
                assert(all.take(i + 1).drop_last() =~= all.take(i as int));
                assert(all.take(i + 1).last() == all[i as int]);
                assert(all[i as int] == (old_entries@[i as int].key@, old_entries@[i as int].value@));
            }
            if !str_equal(old_entries[i].key.as_str(), key) {
                let ghost before = pairs_view(kept@);
                kept.push(
                    StringPair {
                        key: old_entries[i].key.clone(),
                        value: old_entries[i].value.clone(),
                    },
                );
                assert(pairs_view(kept@) =~= before.push(all[i as int]));
            }
            i = i + 1;
        }
        assert(all.take(old_entries.len() as int) =~= all);
        self.entries = kept;
    }

    /// Sets `key` to `value`: the first pair with the key gets the value, or a new
    /// pair goes at the end.
    pub fn insert(&mut self, key: String, value: String)
        ensures
            pairs_lookup(final(self)@, key@) == Some(value@),
            forall|k: Seq<char>|
                k != key@ ==> pairs_lookup(final(self)@, k) == pairs_lookup(old(self)@, k),
    {
        let ghost all = self@;
        let i = self.find_pair(&key);
        let ghost kv = key@;
        let ghost vv = value@;
        if i < self.entries.len() {
            assert(all[i as int].0 == self.entries@[i as int].key@);
            self.entries.set(i, StringPair { key, value });
            assert(self@ =~= all.update(i as int, (kv, vv)));
            proof {
                assert forall|k: Seq<char>| #[trigger] pairs_lookup(self@, k) == (if k == kv {
                    Some(vv)
                } else {
                    pairs_lookup(all, k)
                }) by {
                    lemma_lookup_update_first(all, kv, vv, i as int, k);
                }
            }
        } else {
            self.entries.push(StringPair { key, value });
            assert(self@ =~= all.push((kv, vv)));
            proof {
                assert forall|k: Seq<char>| #[trigger] pairs_lookup(self@, k) == (if k == kv {
                    Some(vv)
                } else {
                    pairs_lookup(all, k)
                }) by {
                    lemma_lookup_push_new(all, kv, vv, k);
                }
            }
        }
    }
}

impl StringMap {
    /// The position of the first pair with key `key`, or the number of pairs.
    fn find_pair(&self, key: &String) -> (i: usize)
        ensures
            i <= self.entries.len(),
            forall|j: int| 0 <= j < i ==> (#[trigger] self@[j]).0 != key@,
            i < self.entries.len() ==> self@[i as int].0 == key@,
    {
        let mut i: usize = 0;
        while i < self.entries.len()
            invariant
                i <= self.entries.len(),
                forall|j: int| 0 <= j < i ==> (#[trigger] self@[j]).0 != key@,
            decreases self.entries.len() - i,
        {
            if self.entries[i].key == *key {
                return i;
            }
            i = i + 1;
        }
        i
    }
}

proof fn lemma_lookup_update_first(
    pairs: Seq<(Seq<char>, Seq<char>)>,
    key: Seq<char>,
    value: Seq<char>,
    i: int,
    k: Seq<char>,
)
    requires
        0 <= i < pairs.len(),
        pairs[i].0 == key,
        forall|j: int| 0 <= j < i ==> (#[trigger] pairs[j]).0 != key,
    ensures
        pairs_lookup(pairs.update(i, (key, value)), k) == if k == key {
            Some(value)
        } else {
            pairs_lookup(pairs, k)
        },
    decreases i,
{
    let u = pairs.update(i, (key, value));
    if i > 0 {
        assert(u.drop_first() =~= pairs.drop_first().update(i - 1, (key, value)));
        assert forall|j: int| 0 <= j < i - 1 implies (#[trigger] pairs.drop_first()[j]).0 != key by {
            assert(pairs.drop_first()[j] == pairs[j + 1]);
        }
        lemma_lookup_update_first(pairs.drop_first(), key, value, i - 1, k);
    } else {
        assert(u.drop_first() =~= pairs.drop_first());
    }
}

proof fn lemma_lookup_push_new(
    pairs: Seq<(Seq<char>, Seq<char>)>,
    key: Seq<char>,
    value: Seq<char>,
    k: Seq<char>,
)
    requires
        forall|j: int| 0 <= j < pairs.len() ==> (#[trigger] pairs[j]).0 != key,
    ensures
        pairs_lookup(pairs.push((key, value)), k) == if k == key {
            Some(value)
        } else {
            pairs_lookup(pairs, k)
        },
    decreases pairs.len(),
{
    let p = pairs.push((key, value));
    if pairs.len() > 0 {
        assert(p[0] == pairs[0]);
        assert(pairs[0].0 != key);
        assert(p.drop_first() =~= pairs.drop_first().push((key, value)));
        assert forall|j: int| 0 <= j < pairs.drop_first().len() implies (#[trigger] pairs.drop_first()[j]).0 != key by {
            assert(pairs.drop_first()[j] == pairs[j + 1]);
        }
        lemma_lookup_push_new(pairs.drop_first(), key, value, k);
    } else {
        assert(p[0] == (key, value));
        assert(p.drop_first() =~= Seq::<(Seq<char>, Seq<char>)>::empty());
        assert(pairs_lookup(p.drop_first(), k) is None);
    }
}

/// The metadata of an object.
#[derive(Debug, PartialEq, Eq, Default)]
pub struct ObjectMeta {
    pub name: Option<String>,
    pub namespace: Option<String>,
    pub labels: StringMap,
    pub annotations: StringMap,
    pub finalizers: Option<Vec<String>>,
    pub deletion_timestamp: Option<String>,
}

impl ObjectMeta {
    /// "NAMESPACE-NAME", the name under which the controllers know a namespaced object
    /// outside Kubernetes.
    pub fn name_prefixed_with_namespace(&self) -> (r: String)
        requires
            self.name is Some,
            self.namespace is Some,
        ensures
            r@ == self.namespace->0@ + "-"@ + self.name->0@,
    {
        concat3(
            self.namespace.as_ref().unwrap().as_str(),
            "-",
            self.name.as_ref().unwrap().as_str(),
        )
    }
}

/// The finalizers of an object, empty when it has none.
pub open spec fn finalizer_list(finalizers: Option<Vec<String>>) -> Seq<Seq<char>> {
    match finalizers {
        Some(f) => string_views(f@),
        None => Seq::empty(),
    }
}

} // verus!
