//! What the writes amount to in the store.
//!
//! The store keeps, under each key, a hash: a map from field names to values.
//! A write sets the record's fields in the hash under the record's key, one
//! after the other, and makes the hash if there was none. Nothing is ever
//! read back or deleted by this library, so the store is modelled here only
//! to say what a sequence of writes leaves behind.

use crate::decimal::decimal;
use crate::encoder::{base58_text, encoded, lemma_key_determines_parts, StoreRecordView};
use vstd::prelude::*;

verus! {

/// A hash: the values of its fields.
pub type HashModel = Map<Seq<char>, Seq<char>>;

/// The hashes in the store, by key.
pub type StoreModel = Map<Seq<char>, HashModel>;

/// The hash under `key`; the empty hash where the store has none.
pub open spec fn hash_at(store: StoreModel, key: Seq<char>) -> HashModel {
    if store.contains_key(key) {
        store[key]
    } else {
        Map::empty()
    }
}

/// `hash` after each of `fields` was set in turn.
pub open spec fn set_fields(hash: HashModel, fields: Seq<(Seq<char>, Seq<char>)>) -> HashModel
    decreases fields.len(),
{
    if fields.len() == 0 {
        hash
    } else {
        set_fields(hash, fields.drop_last()).insert(fields.last().0, fields.last().1)
    }
}

/// The value that `fields` sets last for `name`, if they set one.
pub open spec fn last_value(fields: Seq<(Seq<char>, Seq<char>)>, name: Seq<char>) -> Option<
    Seq<char>,
>
    decreases fields.len(),
{
    if fields.len() == 0 {
        None
    } else if fields.last().0 == name {
        Some(fields.last().1)
    } else {
        last_value(fields.drop_last(), name)
    }
}

/// The store after `record` was written. A record without fields is no
/// write: the store turns it down and stays as it is.
pub open spec fn written(store: StoreModel, record: StoreRecordView) -> StoreModel {
    if record.fields.len() == 0 {
        store
    } else {
        store.insert(record.key, set_fields(hash_at(store, record.key), record.fields))
    }
}

/// The store after `records` were written one after the other.
pub open spec fn written_all(store: StoreModel, records: Seq<StoreRecordView>) -> StoreModel
    decreases records.len(),
{
    if records.len() == 0 {
        store
    } else {
        written(written_all(store, records.drop_last()), records.last())
    }
}

/// No two of `records` share a key.
pub open spec fn distinct_keys(records: Seq<StoreRecordView>) -> bool {
    forall|i: int, j: int|
        0 <= i < records.len() && 0 <= j < records.len() && i != j ==> records[i].key
            != records[j].key
}

/// The records of a sequence of updates, each given as identity, balance and
/// position.
pub open spec fn encoded_all(updates: Seq<(Seq<u8>, u64, u64)>) -> Seq<StoreRecordView> {
    Seq::new(updates.len(), |i: int| encoded(updates[i].0, updates[i].1, updates[i].2))
}

/// After fields were set, a field holds what was set last for it, and what it
/// held before where nothing was set for it.
pub proof fn lemma_set_fields(hash: HashModel, fields: Seq<(Seq<char>, Seq<char>)>, name: Seq<char>)
    ensures
        set_fields(hash, fields).contains_key(name) <==> hash.contains_key(name) || last_value(
            fields,
            name,
        ) is Some,
        last_value(fields, name) matches Some(value) ==> set_fields(hash, fields)[name] == value,
        last_value(fields, name) is None && hash.contains_key(name) ==> set_fields(
            hash,
            fields,
        )[name] == hash[name],
    decreases fields.len(),
{
    if fields.len() > 0 {
        lemma_set_fields(hash, fields.drop_last(), name);
    }
}

/// Setting the same fields a second time changes nothing.
pub proof fn lemma_set_fields_twice(hash: HashModel, fields: Seq<(Seq<char>, Seq<char>)>)
    ensures
        set_fields(set_fields(hash, fields), fields) == set_fields(hash, fields),
{
    let once = set_fields(hash, fields);
    let twice = set_fields(once, fields);
    assert forall|name: Seq<char>| #[trigger]
        once.dom().contains(name) == twice.dom().contains(name) by {
        lemma_set_fields(hash, fields, name);
        lemma_set_fields(once, fields, name);
    }
    assert forall|name: Seq<char>| #[trigger] once.dom().contains(name) implies once[name]
        == twice[name] by {
        lemma_set_fields(hash, fields, name);
        lemma_set_fields(once, fields, name);
    }
    assert(once =~= twice);
}

/// Writing a record a second time leaves the store as the first write left
/// it.
pub proof fn lemma_written_twice(store: StoreModel, record: StoreRecordView)
    ensures
        written(written(store, record), record) == written(store, record),
{
    if record.fields.len() > 0 {
        lemma_set_fields_twice(hash_at(store, record.key), record.fields);
        assert(written(written(store, record), record) =~= written(store, record));
    }
}

/// Recording the same update twice leaves the store as recording it once
/// does.
pub proof fn lemma_record_twice_is_once(
    store: StoreModel,
    identity: Seq<u8>,
    balance: u64,
    position: u64,
)
    ensures
        written(
            written(store, encoded(identity, balance, position)),
            encoded(identity, balance, position),
        ) == written(store, encoded(identity, balance, position)),
{
    lemma_written_twice(store, encoded(identity, balance, position));
}

/// Recording an update leaves, under the update's key, a hash whose field
/// `lamports` is the balance and whose field `slot` is the position; every
/// other field of that hash and every other entry of the store stay as they
/// were.
pub proof fn lemma_record_entry(store: StoreModel, identity: Seq<u8>, balance: u64, position: u64)
    ensures
        ({
            let record = encoded(identity, balance, position);
            let after = written(store, record);
            &&& after.contains_key(record.key)
            &&& after[record.key].contains_key("lamports"@)
            &&& after[record.key]["lamports"@] == decimal(balance as nat)
            &&& after[record.key].contains_key("slot"@)
            &&& after[record.key]["slot"@] == decimal(position as nat)
            &&& forall|name: Seq<char>|
                name != "lamports"@ && name != "slot"@ ==> after[record.key].contains_key(name)
                    == hash_at(store, record.key).contains_key(name) && (after[record.key].contains_key(
                    name,
                ) ==> after[record.key][name] == hash_at(store, record.key)[name])
            &&& forall|key: Seq<char>|
                key != record.key ==> after.contains_key(key) == store.contains_key(key) && hash_at(
                    after,
                    key,
                ) == hash_at(store, key)
        }),
{
    reveal_strlit("lamports");
    reveal_strlit("slot");
    let record = encoded(identity, balance, position);
    let before = hash_at(store, record.key);
    assert(record.fields.len() == 2);
    assert("lamports"@ != "slot"@) by {
        assert("lamports"@.len() == 8);
        assert("slot"@.len() == 4);
    }
    assert(record.fields.drop_last() =~= seq![("lamports"@, decimal(balance as nat))]);
    assert(record.fields.drop_last().drop_last() =~= Seq::<(Seq<char>, Seq<char>)>::empty());
    assert(set_fields(before, record.fields) == before.insert(
        "lamports"@,
        decimal(balance as nat),
    ).insert("slot"@, decimal(position as nat))) by {
        reveal_with_fuel(set_fields, 3);
    }
}

/// Two writes under different keys give the same store in either order.
pub proof fn lemma_writes_commute(store: StoreModel, first: StoreRecordView, second: StoreRecordView)
    requires
        first.key != second.key,
    ensures
        written(written(store, first), second) == written(written(store, second), first),
{
    assert(written(written(store, first), second) =~= written(written(store, second), first));
}

/// Writes under other keys leave the hash under `key` alone.
pub proof fn lemma_other_keys_untouched(
    store: StoreModel,
    records: Seq<StoreRecordView>,
    key: Seq<char>,
)
    requires
        forall|i: int| 0 <= i < records.len() ==> records[i].key != key,
    ensures
        written_all(store, records).contains_key(key) == store.contains_key(key),
        hash_at(written_all(store, records), key) == hash_at(store, key),
    decreases records.len(),
{
    if records.len() > 0 {
        let earlier = records.drop_last();
        assert forall|i: int| 0 <= i < earlier.len() implies earlier[i].key != key by {
            assert(earlier[i] == records[i]);
        }
        lemma_other_keys_untouched(store, earlier, key);
        assert(records.last() == records[records.len() - 1]);
    }
}

/// Among writes under pairwise different keys, each leaves under its key what
/// it would have left had it been the only one: no write sees another.
pub proof fn lemma_writes_are_independent(
    store: StoreModel,
    records: Seq<StoreRecordView>,
    i: int,
)
    requires
        distinct_keys(records),
        0 <= i < records.len(),
    ensures
        hash_at(written_all(store, records), records[i].key) == hash_at(
            written(store, records[i]),
            records[i].key,
        ),
        written_all(store, records).contains_key(records[i].key) == written(
            store,
            records[i],
        ).contains_key(records[i].key),
    decreases records.len(),
{
    let earlier = records.drop_last();
    let before = written_all(store, earlier);
    let key = records[i].key;
    assert(records.last() == records[records.len() - 1]);
    if i == records.len() - 1 {
        assert forall|j: int| 0 <= j < earlier.len() implies earlier[j].key != key by {
            assert(earlier[j] == records[j]);
        }
        lemma_other_keys_untouched(store, earlier, key);
    } else {
        assert(distinct_keys(earlier)) by {
            assert forall|a: int, b: int|
                0 <= a < earlier.len() && 0 <= b < earlier.len() && a != b implies earlier[a].key
                    != earlier[b].key by {
                assert(earlier[a] == records[a]);
                assert(earlier[b] == records[b]);
            }
        }
        assert(earlier[i] == records[i]);
        lemma_writes_are_independent(store, earlier, i);
        assert(records.last().key != key);
    }
}

/// Writes under pairwise different keys that the store does not hold yet add
/// one entry each.
pub proof fn lemma_distinct_keys_distinct_entries(store: StoreModel, records: Seq<StoreRecordView>)
    requires
        store.dom().finite(),
        distinct_keys(records),
        forall|i: int| 0 <= i < records.len() ==> !store.contains_key(#[trigger] records[i].key),
        forall|i: int| 0 <= i < records.len() ==> (#[trigger] records[i]).fields.len() > 0,
    ensures
        written_all(store, records).dom().finite(),
        written_all(store, records).dom().len() == store.dom().len() + records.len(),
    decreases records.len(),
{
    if records.len() > 0 {
        let earlier = records.drop_last();
        let last = records.last();
        assert(last == records[records.len() - 1]);
        assert forall|i: int| 0 <= i < earlier.len() implies earlier[i] == records[i] by {}
        assert(distinct_keys(earlier)) by {
            assert forall|a: int, b: int|
                0 <= a < earlier.len() && 0 <= b < earlier.len() && a != b implies earlier[a].key
                    != earlier[b].key by {
                assert(earlier[a] == records[a]);
                assert(earlier[b] == records[b]);
            }
        }
        assert forall|i: int| 0 <= i < earlier.len() implies !store.contains_key(
            #[trigger] earlier[i].key,
        ) by {
            assert(earlier[i] == records[i]);
        }
        assert forall|i: int| 0 <= i < earlier.len() implies (#[trigger] earlier[i]).fields.len()
            > 0 by {
            assert(earlier[i] == records[i]);
        }
        lemma_distinct_keys_distinct_entries(store, earlier);
        assert forall|i: int| 0 <= i < earlier.len() implies earlier[i].key != last.key by {
            assert(earlier[i] == records[i]);
        }
        lemma_other_keys_untouched(store, earlier, last.key);
        let before = written_all(store, earlier);
        assert(!before.contains_key(last.key));
        assert(written(before, last).dom() =~= before.dom().insert(last.key));
    }
}

/// Updates of accounts whose identities are written differently in Base58
/// are stored under pairwise different keys.
pub proof fn lemma_distinct_accounts_distinct_keys(updates: Seq<(Seq<u8>, u64, u64)>)
    requires
        forall|i: int, j: int|
            0 <= i < updates.len() && 0 <= j < updates.len() && i != j ==> base58_text(
                updates[i].0,
            ) != base58_text(updates[j].0),
    ensures
        distinct_keys(encoded_all(updates)),
{
    let records = encoded_all(updates);
    assert forall|i: int, j: int|
        0 <= i < records.len() && 0 <= j < records.len() && i != j implies records[i].key
            != records[j].key by {
        if records[i].key == records[j].key {
            lemma_key_determines_parts(
                base58_text(updates[i].0),
                updates[i].2,
                base58_text(updates[j].0),
                updates[j].2,
            );
        }
    }
}

/// Recording updates of accounts whose identities are written differently in
/// Base58 leaves one entry for each, under its own key, and each entry is
/// what its update alone would have left: no update sees another.
pub proof fn lemma_distinct_accounts_distinct_entries(
    store: StoreModel,
    updates: Seq<(Seq<u8>, u64, u64)>,
)
    requires
        forall|i: int, j: int|
            0 <= i < updates.len() && 0 <= j < updates.len() && i != j ==> base58_text(
                updates[i].0,
            ) != base58_text(updates[j].0),
    ensures
        distinct_keys(encoded_all(updates)),
        forall|i: int|
            0 <= i < updates.len() ==> {
                let record = #[trigger] encoded_all(updates)[i];
                &&& written_all(store, encoded_all(updates)).contains_key(record.key)
                &&& written_all(store, encoded_all(updates))[record.key] == written(
                    store,
                    record,
                )[record.key]
            },
{
    let records = encoded_all(updates);
    lemma_distinct_accounts_distinct_keys(updates);
    assert forall|i: int| 0 <= i < updates.len() implies {
        let record = #[trigger] records[i];
        &&& written_all(store, records).contains_key(record.key)
        &&& written_all(store, records)[record.key] == written(store, record)[record.key]
    } by {
        lemma_writes_are_independent(store, records, i);
        assert(records[i].fields.len() == 2);
    }
}

/// Where, besides, the store held none of those keys before, it holds as
/// many entries more as there were updates.
pub proof fn lemma_distinct_accounts_count(store: StoreModel, updates: Seq<(Seq<u8>, u64, u64)>)
    requires
        store.dom().finite(),
        forall|i: int, j: int|
            0 <= i < updates.len() && 0 <= j < updates.len() && i != j ==> base58_text(
                updates[i].0,
            ) != base58_text(updates[j].0),
        forall|i: int|
            0 <= i < updates.len() ==> !store.contains_key(
                #[trigger] encoded(updates[i].0, updates[i].1, updates[i].2).key,
            ),
    ensures
        written_all(store, encoded_all(updates)).dom().len() == store.dom().len() + updates.len(),
{
    let records = encoded_all(updates);
    lemma_distinct_accounts_distinct_keys(updates);
    assert forall|i: int| 0 <= i < records.len() implies !store.contains_key(
        #[trigger] records[i].key,
    ) by {
        assert(records[i] == encoded(updates[i].0, updates[i].1, updates[i].2));
    }
    assert forall|i: int| 0 <= i < records.len() implies (#[trigger] records[i]).fields.len()
        > 0 by {
        assert(records[i].fields.len() == 2);
    }
    lemma_distinct_keys_distinct_entries(store, records);
}

} // verus!
