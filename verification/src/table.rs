//! A keyed table: the building block of the ledger's key spaces.
//!
//! A table maps text keys to records. Writing under a key that is already
//! present replaces the record in place; nothing is ever removed.

use vstd::prelude::*;

verus! {

/// One slot of a table: a key and the record stored under it.
struct Entry<V> {
    key: String,
    val: V,
}

/// The map that a sequence of slots stands for: later slots win over earlier
/// ones with the same key.
spec fn contents<V: View>(slots: Seq<Entry<V>>) -> Map<Seq<char>, V::V>
    decreases slots.len(),
{
    if slots.len() == 0 {
        Map::empty()
    } else {
        contents(slots.drop_last()).insert(slots.last().key@, slots.last().val@)
    }
}

/// `i` is the last slot of `slots` that holds `key`.
spec fn is_last_slot_of<V>(slots: Seq<Entry<V>>, key: Seq<char>, i: int) -> bool {
    &&& 0 <= i < slots.len()
    &&& slots[i].key@ == key
    &&& forall|j: int| i < j < slots.len() ==> (#[trigger] slots[j]).key@ != key
}

/// A key that no slot holds is absent from the contents.
proof fn lemma_absent_key<V: View>(slots: Seq<Entry<V>>, key: Seq<char>)
    requires
        forall|j: int| 0 <= j < slots.len() ==> (#[trigger] slots[j]).key@ != key,
    ensures
        !contents(slots).contains_key(key),
    decreases slots.len(),
{
    if slots.len() > 0 {
        let rest = slots.drop_last();
        assert forall|j: int| 0 <= j < rest.len() implies (#[trigger] rest[j]).key@ != key by {
            assert(rest[j] == slots[j]);
        }
        lemma_absent_key(rest, key);
        assert(slots.last() == slots[slots.len() - 1]);
    }
}

/// The contents map a key to the record of the last slot that holds it.
proof fn lemma_last_slot_wins<V: View>(slots: Seq<Entry<V>>, key: Seq<char>, i: int)
    requires
        is_last_slot_of(slots, key, i),
    ensures
        contents(slots).contains_key(key),
        contents(slots)[key] == slots[i].val@,
    decreases slots.len(),
{
    let rest = slots.drop_last();
    if i < slots.len() - 1 {
        assert(slots.last() == slots[slots.len() - 1]);
        assert forall|j: int| i < j < rest.len() implies (#[trigger] rest[j]).key@ != key by {
            assert(rest[j] == slots[j]);
        }
        assert(rest[i] == slots[i]);
        lemma_last_slot_wins(rest, key, i);
    }
}

/// Replacing the record in the last slot of a key has the effect of an insert.
proof fn lemma_replace_last_slot<V: View>(slots: Seq<Entry<V>>, i: int, fresh: Entry<V>)
    requires
        is_last_slot_of(slots, fresh.key@, i),
    ensures
        contents(slots.update(i, fresh)) == contents(slots).insert(fresh.key@, fresh.val@),
    decreases slots.len(),
{
    let rest = slots.drop_last();
    let changed = slots.update(i, fresh);
    if i == slots.len() - 1 {
        assert(changed.drop_last() == rest);
        assert(changed.last() == fresh);
        assert(contents(changed) =~= contents(slots).insert(fresh.key@, fresh.val@));
    } else {
        assert(slots.last() == slots[slots.len() - 1]);
        assert forall|j: int| i < j < rest.len() implies (#[trigger] rest[j]).key@ != fresh.key@ by {
            assert(rest[j] == slots[j]);
        }
        assert(rest[i] == slots[i]);
        lemma_replace_last_slot(rest, i, fresh);
        assert(changed.drop_last() == rest.update(i, fresh));
        assert(changed.last() == slots.last());
        assert(contents(changed) =~= contents(slots).insert(fresh.key@, fresh.val@));
    }
}

/// A table from text keys to records of type `V`.
pub struct Table<V> {
    slots: Vec<Entry<V>>,
}

impl<V: View> View for Table<V> {
    type V = Map<Seq<char>, V::V>;

    closed spec fn view(&self) -> Map<Seq<char>, V::V> {
        contents(self.slots@)
    }
}

impl<V: View> Table<V> {
    /// An empty table.
    pub fn new() -> (table: Self)
        ensures
            table@ == Map::<Seq<char>, V::V>::empty(),
    {
        Table { slots: Vec::new() }
    }

    /// The index of the last slot that holds `key`, if any slot does.
    fn find(&self, key: &String) -> (found: Option<usize>)
        ensures
            match found {
                Some(i) => is_last_slot_of(self.slots@, key@, i as int),
                None => forall|j: int|
                    0 <= j < self.slots@.len() ==> (#[trigger] self.slots@[j]).key@ != key@,
            },
    {
        let mut i: usize = self.slots.len();
        while i > 0
            invariant
                i <= self.slots@.len(),
                forall|j: int| i <= j < self.slots@.len() ==> (#[trigger] self.slots@[j]).key@ != key@,
            decreases i,
        {
            i = i - 1;
            if self.slots[i].key == *key {
                return Some(i);
            }
        }
        None
    }

    /// The record stored under `key`, if there is one.
    pub fn get(&self, key: &String) -> (found: Option<&V>)
        ensures
            match found {
                Some(val) => self@.contains_key(key@) && val@ == self@[key@],
                None => !self@.contains_key(key@),
            },
    {
        match self.find(key) {
            Some(i) => {
                proof {
                    lemma_last_slot_wins(self.slots@, key@, i as int);
                }
                Some(&self.slots[i].val)
            },
            None => {
                proof {
                    lemma_absent_key(self.slots@, key@);
                }
                None
            },
        }
    }

    /// Stores `val` under `key`, replacing whatever was stored there before.
    pub fn put(&mut self, key: String, val: V)
        ensures
            final(self)@ == old(self)@.insert(key@, val@),
    {
        let found = self.find(&key);
        let fresh = Entry { key, val };
        match found {
            Some(i) => {
                proof {
                    lemma_replace_last_slot(self.slots@, i as int, fresh);
                }
                self.slots.set(i, fresh);
            },
            None => {
                self.slots.push(fresh);
                assert(self.slots@.drop_last() == old(self).slots@);
            },
        }
    }
}

} // verus!
