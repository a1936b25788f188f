//! `QHash`: a dictionary with the interface of Qt's `QHash`, whose element
//! types are registered by implementing [`QHashPair`].
use vstd::prelude::*;
use crate::qbytearray::{bytes_of, QByteArray};

verus! {

/// Whether some entry of `s` has the key `k`.
pub open spec fn has_key<K, V>(s: Seq<(K, V)>, k: K) -> bool {
    exists|i: int| 0 <= i < s.len() && #[trigger] s[i].0 == k
}

/// Whether the keys of `s` are pairwise distinct.
pub open spec fn keys_distinct<K, V>(s: Seq<(K, V)>) -> bool {
    forall|i: int, j: int| 0 <= i < s.len() && 0 <= j < s.len() && i != j ==> #[trigger] s[i].0 != #[trigger] s[j].0
}

/// The capabilities that a key type and a value type provide so that a
/// `QHash` of them can be built. Implementing it for `QHash<Key, Value>`
/// registers the pair.
pub trait QHashPair<Key: View, Value: View>: Sized {
    /// The equality that the value type defines.
    spec fn value_eq_spec(a: Value::V, b: Value::V) -> bool;

    /// A default-constructed value.
    spec fn default_value_spec() -> Value::V;

    /// Whether two keys are equal.
    fn key_eq(a: &Key, b: &Key) -> (r: bool)
        ensures
            r == (a@ == b@),
    ;

    /// A copy of a key.
    fn clone_key(k: &Key) -> (r: Key)
        ensures
            r@ == k@,
    ;

    /// A copy of a value.
    fn clone_value(v: &Value) -> (r: Value)
        ensures
            r@ == v@,
    ;

    /// Constructs a default value.
    fn default_value() -> (r: Value)
        ensures
            r@ == Self::default_value_spec(),
    ;

    /// Compares two values with the value type's own equality.
    fn value_eq(a: &Value, b: &Value) -> (r: bool)
        ensures
            r == Self::value_eq_spec(a@, b@),
    ;

    /// Every value equals itself.
    proof fn lemma_value_eq_reflexive(v: Value::V)
        ensures
            Self::value_eq_spec(v, v),
    ;
}

/// A dictionary from `Key` to `Value`, held as a list of entries.
///
/// Each key occurs at most once. The entries keep the order in which their
/// keys were first inserted; callers should not rely on any order.
pub struct QHash<Key: View, Value: View> {
    entries: Vec<(Key, Value)>,
}

/// The views of a sequence of entries.
pub open spec fn entries_view<Key: View, Value: View>(s: Seq<(Key, Value)>) -> Seq<(Key::V, Value::V)> {
    s.map_values(|e: (Key, Value)| (e.0@, e.1@))
}

impl<Key: View, Value: View> QHash<Key, Value> {
    /// The entries, as key and value views, in the hash's own order.
    pub closed spec fn entries(&self) -> Seq<(Key::V, Value::V)> {
        entries_view(self.entries@)
    }

    #[verifier::type_invariant]
    closed spec fn well_formed(&self) -> bool {
        &&& keys_distinct(self.entries())
        &&& self.entries@.len() <= isize::MAX
    }
}

impl<Key: View, Value: View> QHash<Key, Value> where QHash<Key, Value>: QHashPair<Key, Value> {
    /// Whether the hash has an item with the key of `kv` and a value equal to its value.
    pub open spec fn holds_item(&self, kv: (Key::V, Value::V)) -> bool {
        exists|j: int|
            0 <= j < self.entries().len() && #[trigger] self.entries()[j].0 == kv.0
                && <Self as QHashPair<Key, Value>>::value_eq_spec(kv.1, self.entries()[j].1)
    }

    /// Whether the two hashes hold the same keys with equal values.
    pub open spec fn same_items(&self, other: &Self) -> bool {
        &&& self.entries().len() == other.entries().len()
        &&& forall|i: int| 0 <= i < self.entries().len() ==> #[trigger] other.holds_item(self.entries()[i])
    }

    fn find(&self, key: &Key) -> (r: Option<usize>)
        ensures
            match r {
                Some(i) => i < self.entries().len() && self.entries()[i as int].0 == key@,
                None => !has_key(self.entries(), key@),
            },
    {
        let mut i: usize = 0;
        while i < self.entries.len()
            invariant
                0 <= i <= self.entries@.len(),
                self.entries().len() == self.entries@.len(),
                forall|j: int| 0 <= j < i ==> self.entries()[j].0 != key@,
            decreases self.entries@.len() - i,
        {
            if <Self as QHashPair<Key, Value>>::key_eq(&self.entries[i].0, key) {
                return Some(i);
            }
            i = i + 1;
        }
        None
    }

    /// Moves the entries out, leaving the hash empty.
    fn take_entries(&mut self) -> (r: Vec<(Key, Value)>)
        ensures
            entries_view(r@) == old(self).entries(),
            keys_distinct(entries_view(r@)),
            r@.len() <= isize::MAX,
            final(self).entries() == Seq::<(Key::V, Value::V)>::empty(),
    {
        proof {
            use_type_invariant(&*self);
        }
        let mut taken = QHash { entries: Vec::new() };
        core::mem::swap(self, &mut taken);
        assert(self.entries() =~= Seq::<(Key::V, Value::V)>::empty());
        taken.entries
    }

    /// Removes all items from the hash.
    pub fn clear(&mut self)
        ensures
            final(self).entries() == Seq::<(Key::V, Value::V)>::empty(),
    {
        let _ = self.take_entries();
    }

    /// Inserts a new item with the key and a value of value, replacing the
    /// value of an item that has the key already.
    pub fn insert(&mut self, key: Key, value: Value)
        requires
            old(self).entries().len() < isize::MAX,
        ensures
            forall|i: int|
                0 <= i < old(self).entries().len() && #[trigger] old(self).entries()[i].0 == key@
                    ==> final(self).entries() == old(self).entries().update(i, (key@, value@)),
            !has_key(old(self).entries(), key@) ==> final(self).entries() == old(self).entries().push((key@, value@)),
    {
        let found = self.find(&key);
        let mut entries = self.take_entries();
        let ghost before = entries@;
        let ghost f = |e: (Key, Value)| (e.0@, e.1@);
        match found {
            Some(i) => {
                entries.set(i, (key, value));
                proof {
                    assert(entries_view(entries@) =~= entries_view(before).update(i as int, (key@, value@)));
                }
            },
            None => {
                entries.push((key, value));
                proof {
                    before.lemma_push_map_commute(f, entries@.last());
                    assert(entries@ == before.push(entries@.last()));
                }
            },
        }
        *self = QHash { entries };
    }

    /// Returns true if the hash contains an item with the key; otherwise returns false.
    pub fn contains(&self, key: &Key) -> (r: bool)
        ensures
            r == has_key(self.entries(), key@),
    {
        self.find(key).is_some()
    }

    /// Returns the value associated with the key if it exists.
    pub fn get(&self, key: &Key) -> (r: Option<Value>)
        ensures
            r is Some <==> has_key(self.entries(), key@),
            r matches Some(v) ==> forall|i: int|
                0 <= i < self.entries().len() && #[trigger] self.entries()[i].0 == key@ ==> v@ == self.entries()[i].1,
    {
        proof {
            use_type_invariant(self);
        }
        match self.find(key) {
            Some(i) => Some(<Self as QHashPair<Key, Value>>::clone_value(&self.entries[i].1)),
            None => None,
        }
    }

    /// Returns the value associated with the key, or a default value.
    pub fn get_or_default(&self, key: &Key) -> (r: Value)
        ensures
            !has_key(self.entries(), key@) ==> r@ == <Self as QHashPair<Key, Value>>::default_value_spec(),
            forall|i: int|
                0 <= i < self.entries().len() && #[trigger] self.entries()[i].0 == key@ ==> r@ == self.entries()[i].1,
    {
        proof {
            use_type_invariant(self);
        }
        match self.find(key) {
            Some(i) => <Self as QHashPair<Key, Value>>::clone_value(&self.entries[i].1),
            None => <Self as QHashPair<Key, Value>>::default_value(),
        }
    }

    /// Inserts copies of the key and the value, replacing the value of an
    /// item that has the key already.
    pub fn insert_clone(&mut self, key: &Key, value: &Value)
        requires
            old(self).entries().len() < isize::MAX,
        ensures
            forall|i: int|
                0 <= i < old(self).entries().len() && #[trigger] old(self).entries()[i].0 == key@
                    ==> final(self).entries() == old(self).entries().update(i, (key@, value@)),
            !has_key(old(self).entries(), key@) ==> final(self).entries() == old(self).entries().push((key@, value@)),
    {
        let k = <Self as QHashPair<Key, Value>>::clone_key(key);
        let v = <Self as QHashPair<Key, Value>>::clone_value(value);
        self.insert(k, v);
    }

    /// Removes the item that has the key from the hash.
    ///
    /// Returns true if an item was removed, otherwise returns false.
    pub fn remove(&mut self, key: &Key) -> (r: bool)
        ensures
            r == has_key(old(self).entries(), key@),
            forall|i: int|
                0 <= i < old(self).entries().len() && #[trigger] old(self).entries()[i].0 == key@
                    ==> final(self).entries() == old(self).entries().remove(i),
            !r ==> final(self).entries() == old(self).entries(),
    {
        match self.find(key) {
            Some(i) => {
                let mut entries = self.take_entries();
                let ghost before = entries@;
                let _ = entries.remove(i);
                proof {
                    assert(entries_view(entries@) =~= entries_view(before).remove(i as int));
                }
                *self = QHash { entries };
                true
            },
            None => false,
        }
    }

    /// Returns the number of items in the hash.
    pub fn len(&self) -> (r: isize)
        ensures
            r == self.entries().len(),
    {
        proof {
            use_type_invariant(self);
        }
        self.entries.len() as isize
    }

    /// Returns true if the hash contains no items; otherwise returns false.
    pub fn is_empty(&self) -> (r: bool)
        ensures
            r == (self.entries().len() == 0),
    {
        self.len() == 0
    }

    /// Returns the key of the item at position `pos`.
    pub fn get_unchecked_key(&self, pos: isize) -> (r: &Key)
        requires
            0 <= pos < self.entries().len(),
        ensures
            r@ == self.entries()[pos as int].0,
    {
        &self.entries[pos as usize].0
    }

    /// Returns the value of the item at position `pos`.
    pub fn get_unchecked_value(&self, pos: isize) -> (r: &Value)
        requires
            0 <= pos < self.entries().len(),
        ensures
            r@ == self.entries()[pos as int].1,
    {
        &self.entries[pos as usize].1
    }

    /// An iterator visiting all key-value pairs in the hash's own order.
    pub fn iter(&self) -> (r: Iter<'_, Key, Value>)
        ensures
            r.remaining() == self.entries(),
    {
        let r = Iter { hash: self, index: 0 };
        assert(r.remaining() =~= self.entries());
        r
    }
}

impl<Key: View, Value: View> Default for QHash<Key, Value> where QHash<Key, Value>: QHashPair<Key, Value> {
    /// Constructs an empty hash.
    fn default() -> (r: Self)
        ensures
            r.entries() == Seq::<(Key::V, Value::V)>::empty(),
    {
        let r = QHash { entries: Vec::new() };
        assert(r.entries() =~= Seq::<(Key::V, Value::V)>::empty());
        r
    }
}

impl<Key: View, Value: View> Clone for QHash<Key, Value> where QHash<Key, Value>: QHashPair<Key, Value> {
    /// Constructs a copy of the hash: equal entries in the same order.
    fn clone(&self) -> (r: Self)
        ensures
            r.entries() == self.entries(),
    {
        proof {
            use_type_invariant(self);
        }
        let mut entries: Vec<(Key, Value)> = Vec::new();
        let mut i: usize = 0;
        while i < self.entries.len()
            invariant
                0 <= i <= self.entries@.len(),
                self.entries().len() == self.entries@.len(),
                entries_view(entries@) == self.entries().subrange(0, i as int),
            decreases self.entries@.len() - i,
        {
            let k = <QHash<Key, Value> as QHashPair<Key, Value>>::clone_key(&self.entries[i].0);
            let v = <QHash<Key, Value> as QHashPair<Key, Value>>::clone_value(&self.entries[i].1);
            proof {
                entries@.lemma_push_map_commute(|e: (Key, Value)| (e.0@, e.1@), (k, v));
                assert(self.entries().subrange(0, i + 1) =~= self.entries().subrange(0, i as int).push((k@, v@)));
            }
            entries.push((k, v));
            i = i + 1;
        }
        assert(self.entries().subrange(0, i as int) =~= self.entries());
        QHash { entries }
    }
}

impl<Key: View, Value: View> PartialEq for QHash<Key, Value> where QHash<Key, Value>: QHashPair<Key, Value> {
    /// Two hashes are equal when they hold the same keys with equal values,
    /// in whatever order.
    fn eq(&self, other: &Self) -> (r: bool) {
        proof {
            use_type_invariant(self);
            use_type_invariant(other);
        }
        if self.len() != other.len() {
            return false;
        }
        let mut i: usize = 0;
        while i < self.entries.len()
            invariant
                0 <= i <= self.entries@.len(),
                self.entries().len() == self.entries@.len(),
                self.entries().len() == other.entries().len(),
                keys_distinct(other.entries()),
                forall|k: int| 0 <= k < i ==> #[trigger] other.holds_item(self.entries()[k]),
            decreases self.entries@.len() - i,
        {
            match other.find(&self.entries[i].0) {
                Some(j) => {
                    if !<Self as QHashPair<Key, Value>>::value_eq(&self.entries[i].1, &other.entries[j].1) {
                        proof {
                            assert forall|j2: int| 0 <= j2 < other.entries().len() && other.entries()[j2].0 == self.entries()[i as int].0
                                implies !Self::value_eq_spec(self.entries()[i as int].1, other.entries()[j2].1) by {
                                assert(j2 == j);
                            }
                            assert(!other.holds_item(self.entries()[i as int]));
                        }
                        return false;
                    }
                },
                None => {
                    assert(!other.holds_item(self.entries()[i as int]));
                    return false;
                },
            }
            i = i + 1;
        }
        true
    }
}

impl<Key: View, Value: View> vstd::std_specs::cmp::PartialEqSpecImpl for QHash<Key, Value> where QHash<Key, Value>: QHashPair<Key, Value> {
    open spec fn obeys_eq_spec() -> bool {
        true
    }

    open spec fn eq_spec(&self, other: &Self) -> bool {
        self.same_items(other)
    }
}

/// An iterator over the items of a [`QHash`].
pub struct Iter<'a, Key: View, Value: View> {
    hash: &'a QHash<Key, Value>,
    index: isize,
}

impl<'a, Key: View, Value: View> Iter<'a, Key, Value> {
    /// The items that the iterator has still to yield, in order.
    pub closed spec fn remaining(&self) -> Seq<(Key::V, Value::V)> {
        self.hash.entries().subrange(self.index as int, self.hash.entries().len() as int)
    }

    #[verifier::type_invariant]
    closed spec fn in_bounds(&self) -> bool {
        0 <= self.index <= self.hash.entries().len()
    }
}

impl<'a, Key: View, Value: View> Iter<'a, Key, Value> where QHash<Key, Value>: QHashPair<Key, Value> {
    /// Yields the next item, or `None` once every item has been yielded.
    pub fn next(&mut self) -> (r: Option<(&'a Key, &'a Value)>)
        ensures
            old(self).remaining().len() == 0 ==> r is None && final(self).remaining() == old(self).remaining(),
            old(self).remaining().len() > 0 ==> (r matches Some(kv) && (kv.0@, kv.1@) == old(self).remaining()[0]),
            old(self).remaining().len() > 0 ==> final(self).remaining() == old(self).remaining().drop_first(),
    {
        proof {
            use_type_invariant(&*self);
        }
        if self.index < self.hash.len() {
            let key = self.hash.get_unchecked_key(self.index);
            let value = self.hash.get_unchecked_value(self.index);
            let ghost before = self.remaining();
            self.index = self.index + 1;
            assert(self.remaining() =~= before.drop_first());
            Some((key, value))
        } else {
            None
        }
    }

    /// The number of items left to yield.
    pub fn len(&self) -> (r: usize)
        ensures
            r == self.remaining().len(),
    {
        proof {
            use_type_invariant(self);
        }
        (self.hash.len() - self.index) as usize
    }

    /// Bounds on the number of items left: exactly [`Iter::len`].
    pub fn size_hint(&self) -> (r: (usize, Option<usize>))
        ensures
            r.0 == self.remaining().len(),
            r.1 == Some(r.0),
    {
        let len = self.len();
        (len, Some(len))
    }
}

proof fn lemma_equal_entries_same_items<Key: View, Value: View>(a: QHash<Key, Value>, b: QHash<Key, Value>)
    where QHash<Key, Value>: QHashPair<Key, Value>
    requires
        a.entries() == b.entries(),
    ensures
        a.same_items(&b),
{
    assert forall|i: int| 0 <= i < a.entries().len() implies #[trigger] b.holds_item(a.entries()[i]) by {
        <QHash<Key, Value> as QHashPair<Key, Value>>::lemma_value_eq_reflexive(a.entries()[i].1);
        let kv = b.entries()[i];
        assert(0 <= i < b.entries().len() && b.entries()[i].0 == kv.0);
    }
}

/// Clones of a hash compare equal (`==`) to it and to each other.
pub proof fn lemma_clones_compare_equal<Key: View, Value: View>(
    h: QHash<Key, Value>,
    c1: QHash<Key, Value>,
    c2: QHash<Key, Value>,
)
    where QHash<Key, Value>: QHashPair<Key, Value>
    requires
        c1.entries() == h.entries(),
        c2.entries() == h.entries(),
    ensures
        c1.same_items(&h),
        h.same_items(&c1),
        c1.same_items(&c2),
{
    lemma_equal_entries_same_items(c1, h);
    lemma_equal_entries_same_items(h, c1);
    lemma_equal_entries_same_items(c1, c2);
}

/// What `steps` calls of [`Iter::next`] yield from an iterator whose
/// remaining items are `rem`: one item per call while any remain.
pub open spec fn yields<T>(rem: Seq<T>, steps: nat) -> Seq<T>
    decreases steps,
{
    if steps == 0 || rem.len() == 0 {
        Seq::empty()
    } else {
        seq![rem[0]].add(yields(rem.drop_first(), (steps - 1) as nat))
    }
}

/// Iterating over a hash of `n` items yields exactly its items, one per
/// call, in order: `k` calls yield `min(k, n)` items, and `n` calls all of them.
pub proof fn lemma_iteration_yields_each_item<T>(rem: Seq<T>, steps: nat)
    ensures
        yields(rem, steps).len() == if steps < rem.len() { steps as int } else { rem.len() as int },
        yields(rem, steps) == rem.take(if steps < rem.len() { steps as int } else { rem.len() as int }),
    decreases steps,
{
    if steps == 0 || rem.len() == 0 {
        assert(rem.take(0) =~= Seq::<T>::empty());
    } else {
        lemma_iteration_yields_each_item(rem.drop_first(), (steps - 1) as nat);
        let k = if steps < rem.len() { steps as int } else { rem.len() as int };
        assert(yields(rem, steps) =~= rem.take(k));
    }
}

/// `QHash<int, QByteArray>`, as `QAbstractItemModel::roleNames` uses it.
impl QHashPair<i32, QByteArray> for QHash<i32, QByteArray> {
    open spec fn value_eq_spec(a: Option<Seq<u8>>, b: Option<Seq<u8>>) -> bool {
        bytes_of(a) == bytes_of(b)
    }

    open spec fn default_value_spec() -> Option<Seq<u8>> {
        None
    }

    fn key_eq(a: &i32, b: &i32) -> (r: bool) {
        *a == *b
    }

    fn clone_key(k: &i32) -> (r: i32) {
        *k
    }

    fn clone_value(v: &QByteArray) -> (r: QByteArray) {
        v.clone()
    }

    fn default_value() -> (r: QByteArray) {
        QByteArray::new()
    }

    fn value_eq(a: &QByteArray, b: &QByteArray) -> (r: bool) {
        a.eq(b)
    }

    proof fn lemma_value_eq_reflexive(v: Option<Seq<u8>>) {
    }
}

} // verus!
