//! Attribute values stored by key: the programmer's work, the contents of
//! presets and the output pipeline all map keys made of fixtures, fixture
//! types and attributes to attribute values.
use vstd::prelude::*;

use crate::attr::{Attribute, AttributeView};
use crate::patch::{AttributeValue, FixtureId};

verus! {

/// A key of a [ValueMap]: keys are compared by their view.
pub trait ValueKey: Sized {
    /// What a key is compared by.
    type Key;

    /// What this key is compared by.
    spec fn key(&self) -> Self::Key;

    /// Both keys are the same.
    fn same_key(&self, other: &Self) -> (r: bool)
        ensures
            r == (self.key() == other.key()),
    ;

    /// A copy of this key.
    fn copy_key(&self) -> (r: Self)
        ensures
            r == *self,
    ;
}

impl ValueKey for Attribute {
    type Key = AttributeView;

    open spec fn key(&self) -> AttributeView {
        self@
    }

    fn same_key(&self, other: &Self) -> (r: bool) {
        *self == *other
    }

    fn copy_key(&self) -> (r: Self) {
        self.duplicate()
    }
}

impl ValueKey for (FixtureId, Attribute) {
    type Key = (FixtureId, AttributeView);

    open spec fn key(&self) -> (FixtureId, AttributeView) {
        (self.0, self.1@)
    }

    fn same_key(&self, other: &Self) -> (r: bool) {
        self.0 == other.0 && self.1 == other.1
    }

    fn copy_key(&self) -> (r: Self) {
        (self.0, self.1.duplicate())
    }
}

impl ValueKey for (u128, Attribute) {
    type Key = (u128, AttributeView);

    open spec fn key(&self) -> (u128, AttributeView) {
        (self.0, self.1@)
    }

    fn same_key(&self, other: &Self) -> (r: bool) {
        self.0 == other.0 && self.1 == other.1
    }

    fn copy_key(&self) -> (r: Self) {
        (self.0, self.1.duplicate())
    }
}

/// The map of a list of entries: the first entry for a key gives its value.
pub open spec fn entries_map<K: ValueKey>(s: Seq<(K, AttributeValue)>) -> Map<
    K::Key,
    AttributeValue,
>
    decreases s.len(),
{
    if s.len() == 0 {
        Map::empty()
    } else {
        let m = entries_map(s.drop_last());
        if m.contains_key(s.last().0.key()) {
            m
        } else {
            m.insert(s.last().0.key(), s.last().1)
        }
    }
}

/// The index of the first entry with this key.
pub open spec fn first_with_key<K: ValueKey>(s: Seq<(K, AttributeValue)>, k: K::Key, i: int) -> bool {
    0 <= i < s.len() && s[i].0.key() == k && forall|j: int| 0 <= j < i ==> #[trigger] s[j].0.key() != k
}

/// No entry has this key exactly when the map lacks it.
pub proof fn lemma_entries_absent<K: ValueKey>(s: Seq<(K, AttributeValue)>, k: K::Key)
    requires
        forall|j: int| 0 <= j < s.len() ==> #[trigger] s[j].0.key() != k,
    ensures
        !entries_map(s).contains_key(k),
    decreases s.len(),
{
    if s.len() > 0 {
        lemma_entries_absent(s.drop_last(), k);
    }
}

/// The map holds, for a key, the value of its first entry.
pub proof fn lemma_entries_first<K: ValueKey>(s: Seq<(K, AttributeValue)>, k: K::Key, i: int)
    requires
        first_with_key(s, k, i),
    ensures
        entries_map(s).contains_key(k),
        entries_map(s)[k] == s[i].1,
    decreases s.len(),
{
    if i == s.len() - 1 {
        lemma_entries_absent(s.drop_last(), k);
    } else {
        lemma_entries_first(s.drop_last(), k, i);
    }
}

/// The map holds every key that an entry has.
pub proof fn lemma_entries_contains<K: ValueKey>(s: Seq<(K, AttributeValue)>, k: K::Key, j: int)
    requires
        0 <= j < s.len(),
        s[j].0.key() == k,
    ensures
        entries_map(s).contains_key(k),
    decreases s.len(),
{
    if j < s.len() - 1 {
        lemma_entries_contains(s.drop_last(), k, j);
    }
}

/// A key the map holds is the key of an entry, the first with it, whose value
/// the map holds.
pub proof fn lemma_entries_present<K: ValueKey>(s: Seq<(K, AttributeValue)>, k: K::Key) -> (i: int)
    requires
        entries_map(s).contains_key(k),
    ensures
        first_with_key(s, k, i),
        s[i].1 == entries_map(s)[k],
    decreases s.len(),
{
    let t = s.drop_last();
    if entries_map(t).contains_key(k) {
        let i = lemma_entries_present(t, k);
        assert(t[i] == s[i]);
        assert forall|j: int| 0 <= j < i implies #[trigger] s[j].0.key() != k by {
            assert(t[j] == s[j]);
        }
        i
    } else {
        let i = s.len() - 1;
        assert forall|j: int| 0 <= j < i implies #[trigger] s[j].0.key() != k by {
            if s[j].0.key() == k {
                assert(t[j] == s[j]);
                lemma_entries_contains(t, k, j);
            }
        }
        i
    }
}

/// Changing the value of the first entry of a key changes the map at that key
/// alone.
pub proof fn lemma_entries_update<K: ValueKey>(
    s: Seq<(K, AttributeValue)>,
    i: int,
    e: (K, AttributeValue),
)
    requires
        first_with_key(s, e.0.key(), i),
    ensures
        entries_map(s.update(i, e)) == entries_map(s).insert(e.0.key(), e.1),
    decreases s.len(),
{
    let t = s.update(i, e);
    if i == s.len() - 1 {
        assert(t.drop_last() =~= s.drop_last());
        lemma_entries_absent(s.drop_last(), e.0.key());
        assert(entries_map(t) =~= entries_map(s).insert(e.0.key(), e.1));
    } else {
        assert(t.drop_last() =~= s.drop_last().update(i, e));
        lemma_entries_update(s.drop_last(), i, e);
        lemma_entries_first(s.drop_last(), e.0.key(), i);
        assert(entries_map(t) =~= entries_map(s).insert(e.0.key(), e.1));
    }
}

/// Values stored by key, in the order their keys were first set.
#[derive(Debug, Clone)]
pub struct ValueMap<K> {
    entries: Vec<(K, AttributeValue)>,
}

impl<K: ValueKey> ValueMap<K> {
    /// The entries, in the order their keys were first set.
    pub closed spec fn pairs(self) -> Seq<(K, AttributeValue)> {
        self.entries@
    }

    /// The value stored for each key.
    pub open spec fn map(self) -> Map<K::Key, AttributeValue> {
        entries_map(self.pairs())
    }

    /// A map with no values.
    pub fn new() -> (r: Self)
        ensures
            r.pairs().len() == 0,
            r.map() == Map::<K::Key, AttributeValue>::empty(),
    {
        ValueMap { entries: Vec::new() }
    }

    /// The entries, in the order their keys were first set.
    pub fn entries(&self) -> (r: &[(K, AttributeValue)])
        ensures
            r@ == self.pairs(),
    {
        self.entries.as_slice()
    }

    /// The number of entries.
    pub fn len(&self) -> (r: usize)
        ensures
            r == self.pairs().len(),
    {
        self.entries.len()
    }

    /// Whether no value is stored.
    pub fn is_empty(&self) -> (r: bool)
        ensures
            r == (self.pairs().len() == 0),
            r == (self.map() == Map::<K::Key, AttributeValue>::empty()),
    {
        proof {
            if self.pairs().len() > 0 {
                let k = self.pairs()[0].0.key();
                lemma_entries_first(self.pairs(), k, 0);
                assert(self.map().contains_key(k));
            }
        }
        self.entries.len() == 0
    }

    /// The value stored for `key`, if any.
    pub fn get(&self, key: &K) -> (r: Option<AttributeValue>)
        ensures
            r == (if self.map().contains_key(key.key()) {
                Some(self.map()[key.key()])
            } else {
                None
            }),
    {
        let n = self.entries.len();
        for i in 0..n
            invariant
                n == self.entries@.len(),
                forall|j: int| 0 <= j < i ==> #[trigger] self.entries@[j].0.key() != key.key(),
        {
            if self.entries[i].0.same_key(key) {
                proof {
                    lemma_entries_first(self.entries@, key.key(), i as int);
                }
                return Some(self.entries[i].1);
            }
        }
        proof {
            lemma_entries_absent(self.entries@, key.key());
        }
        None
    }

    /// Stores `value` for `key`: in place of the stored value where the key
    /// has one, else as a new last entry.
    pub fn set(&mut self, key: K, value: AttributeValue)
        ensures
            final(self).map() == old(self).map().insert(key.key(), value),
            old(self).map().contains_key(key.key()) ==> final(self).pairs().len() == old(
                self,
            ).pairs().len(),
            !old(self).map().contains_key(key.key()) ==> final(self).pairs() == old(
                self,
            ).pairs().push((key, value)),
    {
        let n = self.entries.len();
        for i in 0..n
            invariant
                n == self.entries@.len(),
                self.entries@ == old(self).entries@,
                forall|j: int| 0 <= j < i ==> #[trigger] self.entries@[j].0.key() != key.key(),
        {
            if self.entries[i].0.same_key(&key) {
                proof {
                    lemma_entries_first(self.entries@, key.key(), i as int);
                    lemma_entries_update(self.entries@, i as int, (key, value));
                }
                self.entries.set(i, (key, value));
                return ;
            }
        }
        proof {
            lemma_entries_absent(self.entries@, key.key());
            assert(self.entries@.push((key, value)).drop_last() =~= self.entries@);
        }
        self.entries.push((key, value));
    }

    /// Removes all values.
    pub fn clear(&mut self)
        ensures
            final(self).pairs().len() == 0,
            final(self).map() == Map::<K::Key, AttributeValue>::empty(),
    {
        self.entries = Vec::new();
    }

    /// A copy of this map.
    pub fn duplicate(&self) -> (r: Self)
        ensures
            r.pairs() == self.pairs(),
    {
        let mut entries: Vec<(K, AttributeValue)> = Vec::new();
        let n = self.entries.len();
        for i in 0..n
            invariant
                n == self.entries@.len(),
                entries@ == self.entries@.subrange(0, i as int),
        {
            entries.push((self.entries[i].0.copy_key(), self.entries[i].1));
            assert(entries@ =~= self.entries@.subrange(0, i + 1));
        }
        assert(entries@ =~= self.entries@);
        ValueMap { entries }
    }
}

} // verus!
