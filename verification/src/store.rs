//! The record store: one table for each kind of record, in which no two
//! records share a key.
//!
//! A record is created once under its key and replaced thereafter; creating
//! a second record under a key that is taken is refused.

use vstd::prelude::*;
use crate::state::Keyed;

verus! {

/// Whether some record of `table` is stored under `key`.
pub open spec fn contains_key<R: Keyed>(table: Seq<R>, key: R::Key) -> bool {
    exists|i: int| 0 <= i < table.len() && #[trigger] table[i].key() == key
}

/// The place of a record stored under `key`, when there is one.
pub open spec fn index_of<R: Keyed>(table: Seq<R>, key: R::Key) -> int {
    choose|i: int| 0 <= i < table.len() && #[trigger] table[i].key() == key
}

/// Whether no two records of `table` share a key.
pub open spec fn distinct_keys<R: Keyed>(table: Seq<R>) -> bool {
    forall|i: int, j: int|
        0 <= i < j < table.len() ==> #[trigger] table[i].key() != #[trigger] table[j].key()
}

/// The records of `table` by their keys.
pub open spec fn by_key<R: Keyed>(table: Seq<R>) -> Map<R::Key, R> {
    Map::new(|key: R::Key| contains_key(table, key), |key: R::Key| table[index_of(table, key)])
}

/// In a table without shared keys, the place of a record is found again by
/// its key.
pub proof fn lemma_index_of_place<R: Keyed>(table: Seq<R>, i: int)
    requires
        distinct_keys(table),
        0 <= i < table.len(),
    ensures
        contains_key(table, table[i].key()),
        index_of(table, table[i].key()) == i,
{
    let j = index_of(table, table[i].key());
    assert(0 <= j < table.len() && table[j].key() == table[i].key());
    if j < i {
        assert(table[j].key() != table[i].key());
    } else if i < j {
        assert(table[i].key() != table[j].key());
    }
}

/// A key that is stored has a place, and the record there has that key.
pub proof fn lemma_index_of_key<R: Keyed>(table: Seq<R>, key: R::Key)
    requires
        contains_key(table, key),
    ensures
        0 <= index_of(table, key) < table.len(),
        table[index_of(table, key)].key() == key,
{
}

/// A record under a fresh key can be added without sharing keys, and the
/// keys stored afterwards are the old ones and the new one.
pub proof fn lemma_push_record<R: Keyed>(table: Seq<R>, record: R)
    requires
        distinct_keys(table),
        !contains_key(table, record.key()),
    ensures
        distinct_keys(table.push(record)),
        forall|key: R::Key| #[trigger]
            contains_key(table.push(record), key) <==> contains_key(table, key) || key
                == record.key(),
        forall|i: int|
            0 <= i < table.len() ==> index_of(table.push(record), #[trigger] table[i].key()) == i,
{
    let after = table.push(record);
    assert forall|i: int, j: int| 0 <= i < j < after.len() implies #[trigger] after[i].key()
        != #[trigger] after[j].key() by {
        if j == table.len() {
            assert(after[i] == table[i]);
        } else {
            assert(after[i] == table[i] && after[j] == table[j]);
        }
    }
    assert forall|key: R::Key| #[trigger]
        contains_key(after, key) <==> contains_key(table, key) || key == record.key() by {
        if contains_key(after, key) {
            let i = index_of(after, key);
            if i < table.len() {
                assert(table[i].key() == key);
            }
        }
        if contains_key(table, key) {
            let i = index_of(table, key);
            assert(after[i].key() == key);
        }
        if key == record.key() {
            assert(after[table.len() as int].key() == key);
        }
    }
    assert forall|i: int| 0 <= i < table.len() implies index_of(after, #[trigger] table[i].key())
        == i by {
        assert(after[i] == table[i]);
        lemma_index_of_place(after, i);
    }
}

/// Replacing a record by one with the same key changes neither which keys
/// are stored nor where.
pub proof fn lemma_replace_record<R: Keyed>(table: Seq<R>, i: int, record: R)
    requires
        distinct_keys(table),
        0 <= i < table.len(),
        record.key() == table[i].key(),
    ensures
        distinct_keys(table.update(i, record)),
        forall|key: R::Key| #[trigger]
            contains_key(table.update(i, record), key) <==> contains_key(table, key),
        forall|key: R::Key|
            contains_key(table, key) ==> #[trigger] index_of(table.update(i, record), key)
                == index_of(table, key),
{
    let after = table.update(i, record);
    assert forall|a: int, b: int| 0 <= a < b < after.len() implies #[trigger] after[a].key()
        != #[trigger] after[b].key() by {
        assert(after[a].key() == table[a].key());
        assert(after[b].key() == table[b].key());
    }
    assert forall|key: R::Key| #[trigger]
        contains_key(after, key) <==> contains_key(table, key) by {
        if contains_key(after, key) {
            let a = index_of(after, key);
            assert(table[a].key() == key);
        }
        if contains_key(table, key) {
            let a = index_of(table, key);
            assert(after[a].key() == key);
        }
    }
    assert forall|key: R::Key| contains_key(table, key) implies #[trigger] index_of(after, key)
        == index_of(table, key) by {
        let a = index_of(table, key);
        assert(after[a].key() == key);
        lemma_index_of_place(after, a);
    }
}

/// Adding a record under a fresh key stores it under that key and leaves
/// what is stored under the other keys as it is.
pub proof fn lemma_by_key_push<R: Keyed>(table: Seq<R>, record: R)
    requires
        distinct_keys(table),
        !contains_key(table, record.key()),
    ensures
        by_key(table.push(record)) == by_key(table).insert(record.key(), record),
{
    let after = table.push(record);
    lemma_push_record(table, record);
    lemma_index_of_place(after, table.len() as int);
    assert forall|key: R::Key| by_key(table).insert(record.key(), record).contains_key(key)
        && key != record.key() implies #[trigger] by_key(after)[key] == by_key(table)[key] by {
        lemma_index_of_key(table, key);
        let i = index_of(table, key);
        assert(after[i] == table[i]);
    }
    assert(by_key(after) =~= by_key(table).insert(record.key(), record));
}

/// Replacing a record by one with the same key stores the new one under that
/// key and leaves what is stored under the other keys as it is.
pub proof fn lemma_by_key_replace<R: Keyed>(table: Seq<R>, i: int, record: R)
    requires
        distinct_keys(table),
        0 <= i < table.len(),
        record.key() == table[i].key(),
    ensures
        by_key(table.update(i, record)) == by_key(table).insert(record.key(), record),
{
    let after = table.update(i, record);
    lemma_replace_record(table, i, record);
    lemma_index_of_place(table, i);
    assert forall|key: R::Key| by_key(table).insert(record.key(), record).contains_key(key)
        && key != record.key() implies #[trigger] by_key(after)[key] == by_key(table)[key] by {
        lemma_index_of_key(table, key);
        let k = index_of(table, key);
        assert(after[k] == table[k]);
    }
    assert(by_key(after) =~= by_key(table).insert(record.key(), record));
}

/// The records of one kind, in the order in which they were created. No
/// two of them share a key.
pub struct Table<R: Keyed> {
    records: Vec<R>,
}

impl<R: Keyed> Table<R> {
    #[verifier::type_invariant]
    spec fn keys_are_distinct(self) -> bool {
        distinct_keys(self.records@)
    }

    /// The records, oldest first.
    pub closed spec fn view(&self) -> Seq<R> {
        self.records@
    }

    /// A table without records.
    pub fn new() -> (table: Self)
        ensures
            table@ == Seq::<R>::empty(),
    {
        Table { records: Vec::new() }
    }

    /// How many records the table holds.
    pub fn len(&self) -> (n: usize)
        ensures
            n == self@.len(),
    {
        self.records.len()
    }

    /// The place of the record stored under `key`, if there is one.
    pub fn find(&self, key: &R::Key) -> (place: Option<usize>)
        ensures
            distinct_keys(self@),
            place is Some <==> contains_key(self@, *key),
            place matches Some(i) ==> i == index_of(self@, *key) && i < self@.len()
                && self@[i as int].key() == *key,
    {
        proof {
            use_type_invariant(self);
        }
        let mut i: usize = 0;
        while i < self.records.len()
            invariant
                i <= self.records.len(),
                distinct_keys(self.records@),
                forall|k: int| 0 <= k < i ==> self.records@[k].key() != *key,
            decreases self.records.len() - i,
        {
            if self.records[i].has_key(key) {
                proof {
                    lemma_index_of_place(self@, i as int);
                }
                return Some(i);
            }
            i += 1;
        }
        None
    }

    /// The record at place `i`.
    pub(crate) fn at(&self, i: usize) -> (record: &R)
        requires
            i < self@.len(),
        ensures
            *record == self@[i as int],
    {
        &self.records[i]
    }

    /// The record stored under `key`, if there is one.
    pub fn get(&self, key: &R::Key) -> (record: Option<&R>)
        ensures
            distinct_keys(self@),
            record is Some <==> contains_key(self@, *key),
            record matches Some(found) ==> *found == self@[index_of(self@, *key)] && found.key()
                == *key,
    {
        match self.find(key) {
            Some(i) => Some(&self.records[i]),
            None => None,
        }
    }

    /// Stores a new record at the end, unless its key is taken: then the
    /// table stays as it is and the record is handed back.
    pub fn create(&mut self, record: R) -> (r: Result<(), R>)
        ensures
            contains_key(old(self)@, record.key()) ==> r == Err::<(), R>(record) && final(self)@
                == old(self)@,
            !contains_key(old(self)@, record.key()) ==> r is Ok && final(self)@ == old(self)@.push(
                record,
            ),
    {
        let key = record.key_of();
        match self.find(&key) {
            Some(_) => Err(record),
            None => {
                self.append(record);
                Ok(())
            },
        }
    }

    /// Puts `record` in the place of the record stored under its key and
    /// hands out the one that was there. Without such a record the table
    /// stays as it is and `record` is handed back.
    pub fn replace(&mut self, record: R) -> (r: Result<R, R>)
        ensures
            !contains_key(old(self)@, record.key()) ==> r == Err::<R, R>(record) && final(self)@
                == old(self)@,
            contains_key(old(self)@, record.key()) ==> r == Ok::<R, R>(
                old(self)@[index_of(old(self)@, record.key())],
            ) && final(self)@ == old(self)@.update(index_of(old(self)@, record.key()), record),
    {
        let key = record.key_of();
        match self.find(&key) {
            Some(i) => Ok(self.exchange(i, record)),
            None => Err(record),
        }
    }

    /// Stores a new record at the end. Its key must be free.
    pub(crate) fn append(&mut self, record: R)
        requires
            !contains_key(old(self)@, record.key()),
        ensures
            final(self)@ == old(self)@.push(record),
    {
        proof {
            use_type_invariant(&*self);
            lemma_push_record(self.records@, record);
        }
        let mut records = Vec::new();
        std::mem::swap(&mut self.records, &mut records);
        records.push(record);
        self.records = records;
    }

    /// Puts `record` at place `i`, where a record with the same key is
    /// stored, and hands out the one that was there.
    pub(crate) fn exchange(&mut self, i: usize, record: R) -> (previous: R)
        requires
            i < old(self)@.len(),
            record.key() == old(self)@[i as int].key(),
        ensures
            previous == old(self)@[i as int],
            final(self)@ == old(self)@.update(i as int, record),
    {
        proof {
            use_type_invariant(&*self);
            lemma_replace_record(self.records@, i as int, record);
        }
        let mut record = record;
        let mut records = Vec::new();
        std::mem::swap(&mut self.records, &mut records);
        std::mem::swap(&mut records[i], &mut record);
        self.records = records;
        record
    }
}

} // verus!
