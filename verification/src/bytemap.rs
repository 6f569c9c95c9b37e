//! Ordered maps and sets keyed by 32-byte identifiers.
//!
//! Entries are kept sorted by key, so that walking a map visits its keys in
//! ascending byte order, as a `BTreeMap` keyed by a 32-byte array would.
use vstd::prelude::*;

use crate::bytes::{key_compare, key_lt, lemma_key_order};

verus! {

/// Keys strictly ascending, hence each key at most once.
pub open spec fn keys_sorted<W>(s: Seq<([u8; 32], W)>) -> bool {
    forall|i: int, j: int| 0 <= i < j < s.len() ==> key_lt(#[trigger] s[i].0, #[trigger] s[j].0)
}

/// The number of leading entries whose key comes before `k`.
pub open spec fn lower_bound<W>(s: Seq<([u8; 32], W)>, k: [u8; 32]) -> nat
    decreases s.len(),
{
    if s.len() == 0 {
        0
    } else if key_lt(s[0].0, k) {
        1 + lower_bound(s.drop_first(), k)
    } else {
        0
    }
}

/// The value stored under `k`, if any.
pub open spec fn map_get<W>(s: Seq<([u8; 32], W)>, k: [u8; 32]) -> Option<W> {
    let i = lower_bound(s, k) as int;
    if i < s.len() && s[i].0 == k {
        Some(s[i].1)
    } else {
        None
    }
}

/// `s` with `k` bound to `v`: the entry is replaced where `k` is present,
/// else inserted at its place in key order.
pub open spec fn map_insert<W>(s: Seq<([u8; 32], W)>, k: [u8; 32], v: W) -> Seq<([u8; 32], W)> {
    let i = lower_bound(s, k) as int;
    if i < s.len() && s[i].0 == k {
        s.update(i, (k, v))
    } else {
        s.insert(i, (k, v))
    }
}

/// `s` without the entry for `k`.
pub open spec fn map_remove<W>(s: Seq<([u8; 32], W)>, k: [u8; 32]) -> Seq<([u8; 32], W)> {
    let i = lower_bound(s, k) as int;
    if i < s.len() && s[i].0 == k {
        s.remove(i)
    } else {
        s
    }
}

/// Whether `k` has an entry.
pub open spec fn map_contains<W>(s: Seq<([u8; 32], W)>, k: [u8; 32]) -> bool {
    map_get(s, k) is Some
}

/// The lower bound of `k` is a position of `s`: every entry before it has a
/// key before `k`, and the entry at it, if any, does not.
pub proof fn lemma_lower_bound_le<W>(s: Seq<([u8; 32], W)>, k: [u8; 32])
    ensures
        lower_bound(s, k) <= s.len(),
        forall|j: int| 0 <= j < lower_bound(s, k) ==> key_lt(#[trigger] s[j].0, k),
        lower_bound(s, k) < s.len() ==> !key_lt(s[lower_bound(s, k) as int].0, k),
    decreases s.len(),
{
    if s.len() > 0 && key_lt(s[0].0, k) {
        lemma_lower_bound_le(s.drop_first(), k);
        assert forall|j: int| 0 <= j < lower_bound(s, k) implies key_lt(#[trigger] s[j].0, k) by {
            if j > 0 {
                assert(s[j] == s.drop_first()[j - 1]);
            }
        }
    }
}

/// A position `i` with every earlier key before `k` and no later-or-equal key
/// before `k` is the lower bound.
pub proof fn lemma_lower_bound_at<W>(s: Seq<([u8; 32], W)>, k: [u8; 32], i: int)
    requires
        0 <= i <= s.len(),
        forall|j: int| 0 <= j < i ==> key_lt(#[trigger] s[j].0, k),
        i < s.len() ==> !key_lt(s[i].0, k),
    ensures
        lower_bound(s, k) == i,
    decreases i,
{
    if i > 0 {
        assert(key_lt(s[0].0, k));
        assert forall|j: int| 0 <= j < i - 1 implies key_lt(#[trigger] s.drop_first()[j].0, k) by {
            assert(s.drop_first()[j] == s[j + 1]);
        }
        if i < s.len() {
            assert(s.drop_first()[i - 1] == s[i]);
        }
        lemma_lower_bound_at(s.drop_first(), k, i - 1);
    }
}

/// In a sorted map, `map_get` finds exactly the entries stored under `k`.
pub proof fn lemma_get_sorted<W>(s: Seq<([u8; 32], W)>, k: [u8; 32])
    requires
        keys_sorted(s),
    ensures
        forall|i: int| 0 <= i < s.len() && (#[trigger] s[i]).0 == k ==> map_get(s, k) == Some(s[i].1),
        map_get(s, k) is None <==> forall|i: int| 0 <= i < s.len() ==> (#[trigger] s[i]).0 != k,
{
    lemma_lower_bound_le(s, k);
    let lb = lower_bound(s, k) as int;
    assert forall|i: int| 0 <= i < s.len() && (#[trigger] s[i]).0 == k implies map_get(s, k) == Some(
        s[i].1,
    ) by {
        lemma_key_order(k, k, k);
        if i < lb {
            assert(key_lt(s[i].0, k));
        }
        if i > lb {
            let a = s[lb].0;
            lemma_key_order(a, k, k);
            assert(key_lt(s[lb].0, s[i].0));
            if a != k {
                lemma_key_order(k, a, k);
            }
        }
    }
}

/// Binding a key keeps a map sorted, and reading after it gives back what was
/// bound, while the other keys read as before.
pub proof fn lemma_insert<W>(s: Seq<([u8; 32], W)>, k: [u8; 32], v: W)
    requires
        keys_sorted(s),
    ensures
        keys_sorted(map_insert(s, k, v)),
        map_get(map_insert(s, k, v), k) == Some(v),
        forall|k2: [u8; 32]| k2 != k ==> #[trigger] map_get(map_insert(s, k, v), k2) == map_get(s, k2),
        map_get(s, k) is Some ==> map_insert(s, k, v).len() == s.len(),
        map_get(s, k) is None ==> map_insert(s, k, v).len() == s.len() + 1,
{
    lemma_lower_bound_le(s, k);
    lemma_get_sorted(s, k);
    let lb = lower_bound(s, k) as int;
    let t = map_insert(s, k, v);
    if lb < s.len() && s[lb].0 == k {
        assert(keys_sorted(t)) by {
            assert forall|i: int, j: int| 0 <= i < j < t.len() implies key_lt(
                #[trigger] t[i].0,
                #[trigger] t[j].0,
            ) by {
                assert(t[i].0 == s[i].0);
                assert(t[j].0 == s[j].0);
            }
        }
    } else {
        assert forall|j: int| lb <= j < s.len() implies key_lt(k, #[trigger] s[j].0) by {
            let a = s[lb].0;
            lemma_key_order(a, k, s[j].0);
            lemma_key_order(k, a, s[j].0);
            if j > lb {
                assert(key_lt(s[lb].0, s[j].0));
            }
        }
        assert(keys_sorted(t)) by {
            assert forall|i: int, j: int| 0 <= i < j < t.len() implies key_lt(
                #[trigger] t[i].0,
                #[trigger] t[j].0,
            ) by {
                if i < lb && j < lb {
                } else if i < lb && j == lb {
                } else if i < lb && j > lb {
                    assert(t[j] == s[j - 1]);
                    lemma_key_order(s[i].0, k, s[j - 1].0);
                } else if i == lb {
                    assert(t[j] == s[j - 1]);
                } else {
                    assert(t[i] == s[i - 1]);
                    assert(t[j] == s[j - 1]);
                }
            }
        }
    }
    lemma_get_sorted(t, k);
    assert(t[lb] == (k, v));
    assert forall|k2: [u8; 32]| k2 != k implies #[trigger] map_get(t, k2) == map_get(s, k2) by {
        lemma_get_sorted(t, k2);
        lemma_get_sorted(s, k2);
        if map_get(s, k2) is Some {
            let i = choose|i: int| 0 <= i < s.len() && (#[trigger] s[i]).0 == k2;
            if lb < s.len() && s[lb].0 == k {
                assert(t[i] == s[i]);
            } else if i < lb {
                assert(t[i] == s[i]);
            } else {
                assert(t[i + 1] == s[i]);
            }
        } else {
            assert forall|i: int| 0 <= i < t.len() implies (#[trigger] t[i]).0 != k2 by {
                if lb < s.len() && s[lb].0 == k {
                    if i != lb {
                        assert(t[i] == s[i]);
                    }
                } else if i < lb {
                    assert(t[i] == s[i]);
                } else if i > lb {
                    assert(t[i] == s[i - 1]);
                }
            }
        }
    }
}

/// Removing a key keeps a map sorted; that key then reads as absent and the
/// others as before.
pub proof fn lemma_remove<W>(s: Seq<([u8; 32], W)>, k: [u8; 32])
    requires
        keys_sorted(s),
    ensures
        keys_sorted(map_remove(s, k)),
        map_get(map_remove(s, k), k) is None,
        forall|k2: [u8; 32]| k2 != k ==> #[trigger] map_get(map_remove(s, k), k2) == map_get(s, k2),
{
    lemma_lower_bound_le(s, k);
    let lb = lower_bound(s, k) as int;
    let t = map_remove(s, k);
    if lb < s.len() && s[lb].0 == k {
        assert(keys_sorted(t)) by {
            assert forall|i: int, j: int| 0 <= i < j < t.len() implies key_lt(
                #[trigger] t[i].0,
                #[trigger] t[j].0,
            ) by {
                if i < lb {
                    assert(t[i] == s[i]);
                } else {
                    assert(t[i] == s[i + 1]);
                }
                if j < lb {
                    assert(t[j] == s[j]);
                } else {
                    assert(t[j] == s[j + 1]);
                }
            }
        }
        lemma_get_sorted(s, k);
        lemma_get_sorted(t, k);
        assert forall|i: int| 0 <= i < t.len() implies (#[trigger] t[i]).0 != k by {
            if i < lb {
                assert(t[i] == s[i]);
                lemma_key_order(s[i].0, k, k);
            } else {
                assert(t[i] == s[i + 1]);
                assert(key_lt(s[lb].0, s[i + 1].0));
                lemma_key_order(k, k, k);
            }
        }
        assert forall|k2: [u8; 32]| k2 != k implies #[trigger] map_get(t, k2) == map_get(s, k2) by {
            lemma_get_sorted(t, k2);
            lemma_get_sorted(s, k2);
            if map_get(s, k2) is Some {
                let i = choose|i: int| 0 <= i < s.len() && (#[trigger] s[i]).0 == k2;
                if i < lb {
                    assert(t[i] == s[i]);
                } else {
                    assert(t[i - 1] == s[i]);
                }
            } else {
                assert forall|i: int| 0 <= i < t.len() implies (#[trigger] t[i]).0 != k2 by {
                    if i < lb {
                        assert(t[i] == s[i]);
                    } else {
                        assert(t[i] == s[i + 1]);
                    }
                }
            }
        }
    } else {
        lemma_get_sorted(s, k);
    }
}

/// Reading a key right after binding it gives back the bound value, whatever
/// the order of the other entries.
pub proof fn lemma_insert_same<W>(s: Seq<([u8; 32], W)>, k: [u8; 32], v: W)
    ensures
        map_get(map_insert(s, k, v), k) == Some(v),
{
    lemma_lower_bound_le(s, k);
    let lb = lower_bound(s, k) as int;
    let t = map_insert(s, k, v);
    assert forall|j: int| 0 <= j < lb implies key_lt(#[trigger] t[j].0, k) by {
        assert(t[j] == s[j]);
    }
    assert(t[lb] == (k, v));
    lemma_key_order(k, k, k);
    lemma_lower_bound_at(t, k, lb);
}

proof fn lemma_same_keys_lower_bound<W>(s: Seq<([u8; 32], W)>, t: Seq<([u8; 32], W)>, k: [u8; 32])
    requires
        s.len() == t.len(),
        forall|i: int| 0 <= i < s.len() ==> (#[trigger] s[i]).0 == t[i].0,
    ensures
        lower_bound(s, k) == lower_bound(t, k),
    decreases s.len(),
{
    if s.len() > 0 {
        assert(s[0].0 == t[0].0);
        assert forall|i: int| 0 <= i < s.drop_first().len() implies (#[trigger] s.drop_first()[i]).0
            == t.drop_first()[i].0 by {
            assert(s.drop_first()[i] == s[i + 1]);
            assert(t.drop_first()[i] == t[i + 1]);
        }
        lemma_same_keys_lower_bound(s.drop_first(), t.drop_first(), k);
    }
}

/// Rebinding a key that is present leaves every other key reading as before,
/// whatever the order of the entries.
pub proof fn lemma_update_other<W>(s: Seq<([u8; 32], W)>, k: [u8; 32], v: W, k2: [u8; 32])
    requires
        map_get(s, k) is Some,
        k2 != k,
    ensures
        map_get(map_insert(s, k, v), k2) == map_get(s, k2),
{
    let t = map_insert(s, k, v);
    assert forall|i: int| 0 <= i < s.len() implies (#[trigger] s[i]).0 == t[i].0 by {
    }
    lemma_same_keys_lower_bound(s, t, k2);
}

/// Every entry after binding `k` to `v` is that binding or an entry from before.
pub proof fn lemma_insert_entries<W>(s: Seq<([u8; 32], W)>, k: [u8; 32], v: W)
    ensures
        forall|j: int| 0 <= j < map_insert(s, k, v).len() ==> #[trigger] map_insert(s, k, v)[j] == (k, v)
            || exists|i: int| 0 <= i < s.len() && s[i] == map_insert(s, k, v)[j],
{
    lemma_lower_bound_le(s, k);
    let lb = lower_bound(s, k) as int;
    let t = map_insert(s, k, v);
    assert forall|j: int| 0 <= j < t.len() implies #[trigger] t[j] == (k, v) || exists|i: int|
        0 <= i < s.len() && s[i] == t[j] by {
        if lb < s.len() && s[lb].0 == k {
            if j != lb {
                assert(s[j] == t[j]);
            }
        } else if j < lb {
            assert(s[j] == t[j]);
        } else if j > lb {
            assert(s[j - 1] == t[j]);
        }
    }
}

/// Binding a key to the value it is already bound to changes nothing.
pub proof fn lemma_rebind_same<W>(s: Seq<([u8; 32], W)>, k: [u8; 32], v: W)
    requires
        map_get(s, k) == Some(v),
    ensures
        map_insert(s, k, v) == s,
{
    let i = lower_bound(s, k) as int;
    assert(s.update(i, (k, v)) =~= s);
}

/// A value whose copy has the same view.
pub trait Duplicate: View + Sized {
    fn duplicate(&self) -> (r: Self)
        ensures
            r@ == self@,
    ;
}

impl Duplicate for () {
    fn duplicate(&self) -> (r: Self) {
        ()
    }
}

/// An ordered map from 32-byte keys to values.
pub struct ByteMap<V> {
    entries: Vec<([u8; 32], V)>,
}

impl<V: View> View for ByteMap<V> {
    type V = Seq<([u8; 32], V::V)>;

    closed spec fn view(&self) -> Seq<([u8; 32], V::V)> {
        self.entries@.map_values(|e: ([u8; 32], V)| (e.0, e.1@))
    }
}

impl<V> ByteMap<V> {
    #[verifier::type_invariant]
    closed spec fn sorted(self) -> bool {
        keys_sorted(self.entries@)
    }
}

impl<V: View> ByteMap<V> {
    /// The view lists the entries in the order they are stored.
    proof fn lemma_view_sorted(&self)
        requires
            keys_sorted(self.entries@),
        ensures
            keys_sorted(self@),
    {
        assert forall|i: int, j: int| 0 <= i < j < self@.len() implies key_lt(
            #[trigger] self@[i].0,
            #[trigger] self@[j].0,
        ) by {
            assert(self@[i].0 == self.entries@[i].0);
            assert(self@[j].0 == self.entries@[j].0);
        }
    }

    pub fn new() -> (r: Self)
        ensures
            r@ == Seq::<([u8; 32], V::V)>::empty(),
    {
        let r = ByteMap { entries: Vec::new() };
        assert(r@ =~= Seq::<([u8; 32], V::V)>::empty());
        r
    }

    /// The number of entries; the entries come in ascending key order.
    pub fn len(&self) -> (r: usize)
        ensures
            r == self@.len(),
            keys_sorted(self@),
    {
        proof {
            use_type_invariant(self);
            self.lemma_view_sorted();
        }
        self.entries.len()
    }

    /// The entry at position `i` in key order.
    pub fn entry_at(&self, i: usize) -> (r: (&[u8; 32], &V))
        requires
            i < self@.len(),
        ensures
            *r.0 == self@[i as int].0,
            r.1@ == self@[i as int].1,
    {
        let e = &self.entries[i];
        (&e.0, &e.1)
    }

    fn find(&self, k: &[u8; 32]) -> (r: usize)
        ensures
            r == lower_bound(self@, *k),
    {
        proof {
            use_type_invariant(self);
        }
        let n = self.entries.len();
        let mut i: usize = 0;
        loop
            invariant
                i <= n,
                n == self.entries@.len(),
                forall|j: int| 0 <= j < i ==> key_lt(#[trigger] self@[j].0, *k),
            ensures
                i <= n,
                forall|j: int| 0 <= j < i ==> key_lt(#[trigger] self@[j].0, *k),
                i < n ==> !key_lt(self@[i as int].0, *k),
            decreases n - i,
        {
            if i == n {
                break;
            }
            if key_compare(&self.entries[i].0, k) != -1 {
                break;
            }
            i = i + 1;
        }
        proof {
            lemma_lower_bound_at(self@, *k, i as int);
        }
        i
    }

    /// The value stored under `k`, if any.
    pub fn get(&self, k: &[u8; 32]) -> (r: Option<&V>)
        ensures
            match r {
                Some(v) => map_get(self@, *k) == Some(v@),
                None => map_get(self@, *k) is None,
            },
            keys_sorted(self@),
    {
        proof {
            use_type_invariant(self);
            self.lemma_view_sorted();
        }
        let i = self.find(k);
        if i < self.entries.len() && key_compare(&self.entries[i].0, k) == 0 {
            Some(&self.entries[i].1)
        } else {
            None
        }
    }

    pub fn contains_key(&self, k: &[u8; 32]) -> (r: bool)
        ensures
            r == map_contains(self@, *k),
    {
        self.get(k).is_some()
    }

    /// Binds `k` to `v`, replacing an earlier binding.
    pub fn insert(&mut self, k: [u8; 32], v: V)
        ensures
            final(self)@ == map_insert(old(self)@, k, v@),
            keys_sorted(final(self)@),
    {
        proof {
            use_type_invariant(&*self);
            self.lemma_view_sorted();
            lemma_insert(self@, k, v@);
        }
        let i = self.find(&k);
        let ghost old_entries = self.entries@;
        let ghost v_view = v@;
        proof {
            lemma_insert(old_entries, k, v);
            lemma_lower_bound_le(old_entries, k);
            lemma_lower_bound_le(self@, k);
            assert(lower_bound(old_entries, k) == i) by {
                assert forall|j: int| 0 <= j < i implies key_lt(#[trigger] old_entries[j].0, k) by {
                    assert(old_entries[j].0 == self@[j].0);
                }
                if i < old_entries.len() {
                    assert(old_entries[i as int].0 == self@[i as int].0);
                }
                lemma_lower_bound_at(old_entries, k, i as int);
            }
        }
        if i < self.entries.len() && key_compare(&self.entries[i].0, &k) == 0 {
            let mut entries = Vec::new();
            std::mem::swap(&mut entries, &mut self.entries);
            entries.set(i, (k, v));
            self.entries = entries;
        } else {
            let mut entries = Vec::new();
            std::mem::swap(&mut entries, &mut self.entries);
            entries.insert(i, (k, v));
            self.entries = entries;
        }
        assert(self@ =~= map_insert(old(self)@, k, v_view));
    }

    /// Removes the binding of `k`, if any.
    pub fn remove(&mut self, k: &[u8; 32])
        ensures
            final(self)@ == map_remove(old(self)@, *k),
    {
        proof {
            use_type_invariant(&*self);
        }
        let i = self.find(k);
        let ghost old_entries = self.entries@;
        proof {
            lemma_remove(old_entries, *k);
            lemma_lower_bound_le(old_entries, *k);
            lemma_lower_bound_le(self@, *k);
            assert(lower_bound(old_entries, *k) == i) by {
                assert forall|j: int| 0 <= j < i implies key_lt(#[trigger] old_entries[j].0, *k) by {
                    assert(old_entries[j].0 == self@[j].0);
                }
                if i < old_entries.len() {
                    assert(old_entries[i as int].0 == self@[i as int].0);
                }
                lemma_lower_bound_at(old_entries, *k, i as int);
            }
        }
        if i < self.entries.len() && key_compare(&self.entries[i].0, k) == 0 {
            let mut entries = Vec::new();
            std::mem::swap(&mut entries, &mut self.entries);
            entries.remove(i);
            self.entries = entries;
        }
        assert(self@ =~= map_remove(old(self)@, *k));
    }
}

impl<V: Duplicate> ByteMap<V> {
    /// A copy of the map with the same view.
    pub fn duplicate(&self) -> (r: Self)
        ensures
            r@ == self@,
    {
        proof {
            use_type_invariant(self);
        }
        let mut entries: Vec<([u8; 32], V)> = Vec::new();
        let n = self.entries.len();
        let mut i: usize = 0;
        while i < n
            invariant
                i <= n,
                n == self.entries@.len(),
                keys_sorted(self.entries@),
                entries@.len() == i,
                forall|j: int|
                    0 <= j < i ==> (#[trigger] entries@[j]).0 == self.entries@[j].0
                        && entries@[j].1@ == self.entries@[j].1@,
            decreases n - i,
        {
            let e = &self.entries[i];
            entries.push((e.0, e.1.duplicate()));
            i = i + 1;
        }
        let r = ByteMap { entries };
        assert(r@ =~= self@);
        r
    }
}

} // verus!
