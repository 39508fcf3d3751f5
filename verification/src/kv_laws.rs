//! What holds of the key-value adapter when the backend behaves as the model
//! says and the application follows the adapter's requests.

use vstd::prelude::*;
use crate::error::ErrorView;
use crate::key::{decimal, item_index_key, item_key_of, lemma_decimal_injective,
    lemma_item_key_injective, lemma_item_key_not_reserved, lemma_reserved_keys_differ,
    next_id_key};
use crate::kv::{create_item_step, item_label, present_items, CreateItemView, KvCommandView,
    KvEventView, KvOutcomeView};
use crate::kv_model::{counter_limit, create_run, decoded_entry, delete_run, drive, execute,
    failed, faithful, get_run, is_numeral, list_run, members_at, numeral_value, opening,
    succeeded, text_at, update_run, Entry, Store, Surroundings};
use crate::record::{item_of, CreateItemPayloadView, ItemView};

verus! {

/// The value of the counter from which identifiers are drawn: zero while
/// the counter does not exist.
pub open spec fn allocated(store: Store) -> nat {
    match text_at(store, next_id_key()) {
        Some(text) => numeral_value(text),
        None => 0,
    }
}

/// The counter can hand out one more identifier: it does not exist yet, or
/// it holds a numeral below the largest value.
pub open spec fn can_allocate(store: Store) -> bool {
    !store.contains_key(next_id_key()) || (text_at(store, next_id_key()) matches Some(text)
        && is_numeral(text) && numeral_value(text) < counter_limit())
}

/// The index can take a member: its key holds a set or nothing.
pub open spec fn can_index(store: Store) -> bool {
    !store.contains_key(item_index_key()) || store[item_index_key()] is Members
}

/// The counter does not exist yet or holds a numeral.
pub open spec fn counter_sound(store: Store) -> bool {
    !store.contains_key(next_id_key()) || (text_at(store, next_id_key()) matches Some(text)
        && is_numeral(text))
}

/// The numeral of `n` has the value `n`.
pub proof fn lemma_numeral_value(n: nat)
    ensures
        is_numeral(decimal(n)),
        numeral_value(decimal(n)) == n,
{
    assert(decimal(n) == decimal(n));
    lemma_decimal_injective(numeral_value(decimal(n)), n);
}

/// Every operation is over after the requests that its run allows for,
/// whatever the backend holds and whatever the codec does.
pub proof fn law_operations_finish(
    env: Surroundings,
    store: Store,
    id: nat,
    payload: CreateItemPayloadView,
)
    ensures
        create_run(env, store, payload).1 is Some,
        list_run(env, store).1 is Some,
        get_run(env, store, id).1 is Some,
        update_run(env, store, id, payload).1 is Some,
        delete_run(env, store, id).1 is Some,
{
    reveal_with_fuel(drive, 6);
}

/// Without a pooled connection every operation fails with the pool's report
/// and the backend is not touched.
pub proof fn law_outage_is_reported(
    env: Surroundings,
    store: Store,
    id: nat,
    payload: CreateItemPayloadView,
)
    requires
        env.outage is Some,
    ensures
        create_run(env, store, payload) == (store, failed(ErrorView::PoolError(env.outage->0))),
        list_run(env, store) == (store, failed(ErrorView::PoolError(env.outage->0))),
        get_run(env, store, id) == (store, failed(ErrorView::PoolError(env.outage->0))),
        update_run(env, store, id, payload) == (
            store,
            failed(ErrorView::PoolError(env.outage->0)),
        ),
        delete_run(env, store, id) == (store, failed(ErrorView::PoolError(env.outage->0))),
{
    reveal_with_fuel(drive, 2);
}

/// Fetching never changes what the backend holds.
pub proof fn law_get_leaves_store(env: Surroundings, store: Store, id: nat)
    ensures
        get_run(env, store, id).0 == store,
{
    reveal_with_fuel(drive, 3);
}

/// Fetching an identifier under whose key the backend holds nothing reports
/// that the record does not exist.
pub proof fn law_get_absent(env: Surroundings, store: Store, id: nat)
    requires
        env.outage is None,
        !store.contains_key(item_key_of(id)),
    ensures
        get_run(env, store, id) == (store, failed(ErrorView::NotFound(item_label(id)))),
{
    reveal_with_fuel(drive, 3);
}

/// Fetching an identifier under whose key the backend holds a text yields
/// the record that the codec finds in that text, or the codec's failure.
pub proof fn law_get_present(env: Surroundings, store: Store, id: nat)
    requires
        env.outage is None,
        text_at(store, item_key_of(id)) is Some,
    ensures
        get_run(env, store, id) == (
            store,
            match (env.decode)(text_at(store, item_key_of(id))->0) {
                Ok(item) => succeeded(KvOutcomeView::Fetched(item)),
                Err(detail) => failed(ErrorView::BackendError(detail)),
            },
        ),
{
    reveal_with_fuel(drive, 3);
}

/// The backend's state after a record was created from `payload` with
/// serialized form `text`.
pub open spec fn store_with_created(store: Store, payload: CreateItemPayloadView, text: Seq<char>)
    -> Store {
    let id = allocated(store) + 1;
    store.insert(next_id_key(), Entry::Text(decimal(id))).insert(
        item_key_of(id),
        Entry::Text(text),
    ).insert(
        item_index_key(),
        Entry::Members(members_at(store, item_index_key()).insert(item_key_of(id))),
    )
}

/// Creating succeeds whenever the counter can hand out an identifier, the
/// codec serializes the record and the index can take its key. The record
/// carries the counter's next value, and the backend then holds the advanced
/// counter, the record's text under its key, and the key in the index.
pub proof fn law_create_succeeds(env: Surroundings, store: Store, payload: CreateItemPayloadView)
    requires
        env.outage is None,
        can_allocate(store),
        can_index(store),
        (env.encode)(item_of(allocated(store) + 1, payload)) is Ok,
    ensures
        create_run(env, store, payload) == (
            store_with_created(
                store,
                payload,
                (env.encode)(item_of(allocated(store) + 1, payload))->Ok_0,
            ),
            succeeded(KvOutcomeView::Created(item_of(allocated(store) + 1, payload))),
        ),
{
    reveal_with_fuel(drive, 6);
    let id = allocated(store) + 1;
    let item = item_of(id, payload);
    let text = (env.encode)(item)->Ok_0;
    lemma_item_key_not_reserved(id);
    lemma_reserved_keys_differ();
    lemma_numeral_value(id);
    let counted = execute(store, KvCommandView::Increment { key: next_id_key() });
    assert(counted == (
        store.insert(next_id_key(), Entry::Text(decimal(id))),
        KvEventView::Counter(id),
    ));
    let written = execute(
        counted.0,
        KvCommandView::Write { key: item_key_of(id), value: text },
    );
    let indexed = execute(
        written.0,
        KvCommandView::IndexAdd { index: item_index_key(), member: item_key_of(id) },
    );
    assert(members_at(written.0, item_index_key()) == members_at(store, item_index_key()));
    assert(indexed.0 =~= store_with_created(store, payload, text));
    assert(indexed.1 == KvEventView::Done);
}

/// Creating succeeds only if the counter could hand out an identifier, the
/// codec serialized the record and the index could take its key.
pub proof fn law_create_fails_otherwise(
    env: Surroundings,
    store: Store,
    payload: CreateItemPayloadView,
)
    requires
        create_run(env, store, payload).1 matches Some(Ok(_)),
    ensures
        env.outage is None,
        can_allocate(store),
        can_index(store),
        (env.encode)(item_of(allocated(store) + 1, payload)) is Ok,
{
    reveal_with_fuel(drive, 6);
    lemma_item_key_not_reserved(allocated(store) + 1);
    lemma_reserved_keys_differ();
    lemma_numeral_value(allocated(store) + 1);
}

/// A record that was created is fetched by its identifier as it was
/// returned, provided the codec gives back what it serialized.
pub proof fn law_create_then_get(env: Surroundings, store: Store, payload: CreateItemPayloadView)
    requires
        create_run(env, store, payload).1 matches Some(Ok(KvOutcomeView::Created(item)))
            && (env.decode)((env.encode)(item)->Ok_0) == Ok::<ItemView, Seq<char>>(item),
    ensures
        create_run(env, store, payload).1 matches Some(Ok(KvOutcomeView::Created(item)))
            && get_run(env, create_run(env, store, payload).0, item.id) == (
            create_run(env, store, payload).0,
            succeeded(KvOutcomeView::Fetched(item)),
        ),
{
    law_create_fails_otherwise(env, store, payload);
    law_create_succeeds(env, store, payload);
    let id = allocated(store) + 1;
    let after = create_run(env, store, payload).0;
    lemma_item_key_not_reserved(id);
    assert(text_at(after, item_key_of(id)) == Some(
        (env.encode)(item_of(id, payload))->Ok_0,
    ));
    law_get_present(env, after, id);
}

/// Updating a record whose key holds nothing reports that the record does
/// not exist and leaves the backend as it was.
pub proof fn law_update_missing(
    env: Surroundings,
    store: Store,
    id: nat,
    payload: CreateItemPayloadView,
)
    requires
        env.outage is None,
        !store.contains_key(item_key_of(id)),
    ensures
        update_run(env, store, id, payload) == (
            store,
            failed(ErrorView::NotFound(item_label(id))),
        ),
{
    reveal_with_fuel(drive, 4);
}

/// Updating a record whose key exists keeps the identifier, takes every
/// other field from the payload, and overwrites the text under the key with
/// the serialized record. Nothing else in the backend changes. If the codec
/// fails, so does the update, and the backend stays as it was.
pub proof fn law_update_existing(
    env: Surroundings,
    store: Store,
    id: nat,
    payload: CreateItemPayloadView,
)
    requires
        env.outage is None,
        store.contains_key(item_key_of(id)),
    ensures
        update_run(env, store, id, payload) == (match (env.encode)(item_of(id, payload)) {
            Ok(text) => (
                store.insert(item_key_of(id), Entry::Text(text)),
                succeeded(KvOutcomeView::Updated(item_of(id, payload))),
            ),
            Err(detail) => (store, failed(ErrorView::BackendError(detail))),
        }),
{
    reveal_with_fuel(drive, 4);
}

/// A record that was updated is fetched by its identifier as the update
/// returned it, provided the codec gives back what it serialized.
pub proof fn law_update_then_get(
    env: Surroundings,
    store: Store,
    id: nat,
    payload: CreateItemPayloadView,
)
    requires
        update_run(env, store, id, payload).1 matches Some(Ok(KvOutcomeView::Updated(item)))
            && (env.decode)((env.encode)(item)->Ok_0) == Ok::<ItemView, Seq<char>>(item),
    ensures
        get_run(env, update_run(env, store, id, payload).0, id) == (
            update_run(env, store, id, payload).0,
            succeeded(KvOutcomeView::Fetched(item_of(id, payload))),
        ),
{
    reveal_with_fuel(drive, 4);
    if store.contains_key(item_key_of(id)) {
        law_update_existing(env, store, id, payload);
        let after = update_run(env, store, id, payload).0;
        assert(text_at(after, item_key_of(id)) == Some(
            (env.encode)(item_of(id, payload))->Ok_0,
        ));
        law_get_present(env, after, id);
    }
}

/// The backend's state after the record with identifier `id` and its index
/// entry were removed. An index that loses its last member ceases to exist.
pub open spec fn store_with_deleted(store: Store, id: nat) -> Store {
    let rest = members_at(store, item_index_key()).remove(item_key_of(id));
    if !store.contains_key(item_index_key()) {
        store.remove(item_key_of(id))
    } else if rest =~= Set::empty() {
        store.remove(item_key_of(id)).remove(item_index_key())
    } else {
        store.remove(item_key_of(id)).insert(item_index_key(), Entry::Members(rest))
    }
}

/// Deleting removes the record's key and its index entry together and
/// touches nothing else. It reports that the record does not exist exactly
/// when its key held nothing, whatever the index held.
pub proof fn law_delete_effect(env: Surroundings, store: Store, id: nat)
    requires
        env.outage is None,
        can_index(store),
    ensures
        delete_run(env, store, id) == (
            store_with_deleted(store, id),
            if store.contains_key(item_key_of(id)) {
                succeeded(KvOutcomeView::Deleted)
            } else {
                failed(ErrorView::NotFound(item_label(id)))
            },
        ),
{
    reveal_with_fuel(drive, 2);
    lemma_item_key_not_reserved(id);
    let done = execute(
        store,
        KvCommandView::RemoveIndexed { key: item_key_of(id), index: item_index_key() },
    );
    assert(done.0 =~= store_with_deleted(store, id));
}

/// After a deletion, however it ended, the backend holds nothing under the
/// record's key and the index does not list it.
pub proof fn law_delete_removes(env: Surroundings, store: Store, id: nat)
    requires
        env.outage is None,
    ensures
        !delete_run(env, store, id).0.contains_key(item_key_of(id)),
        !members_at(delete_run(env, store, id).0, item_index_key()).contains(item_key_of(id)),
{
    reveal_with_fuel(drive, 2);
    lemma_item_key_not_reserved(id);
}

/// Fetching a record after its deletion reports that it does not exist.
pub proof fn law_delete_then_get(env: Surroundings, store: Store, id: nat)
    requires
        env.outage is None,
    ensures
        get_run(env, delete_run(env, store, id).0, id) == (
            delete_run(env, store, id).0,
            failed(ErrorView::NotFound(item_label(id))),
        ),
{
    law_delete_removes(env, store, id);
    law_get_absent(env, delete_run(env, store, id).0, id);
}

/// The records that a listing finds: those that the codec reads out of the
/// texts under the indexed keys, in the order in which the backend names the
/// keys.
pub open spec fn listing(env: Surroundings, store: Store) -> Seq<ItemView> {
    let keys = members_at(store, item_index_key()).to_seq();
    present_items(Seq::new(keys.len(), |i: int| decoded_entry(env, text_at(store, keys[i]))))
}

/// Listing never changes what the backend holds.
pub proof fn law_list_leaves_store(env: Surroundings, store: Store)
    ensures
        list_run(env, store).0 == store,
{
    reveal_with_fuel(drive, 4);
}

/// Listing succeeds whenever the index's key holds a set or nothing, and
/// yields the records found under the indexed keys. A key that holds no
/// text, or a text that is no record, contributes nothing.
pub proof fn law_list_effect(env: Surroundings, store: Store)
    requires
        env.outage is None,
        can_index(store),
    ensures
        list_run(env, store) == (store, succeeded(KvOutcomeView::Listed(listing(env, store)))),
{
    reveal_with_fuel(drive, 4);
    let keys = members_at(store, item_index_key()).to_seq();
    let texts = Seq::new(keys.len(), |i: int| text_at(store, keys[i]));
    let entries = Seq::new(texts.len(), |i: int| decoded_entry(env, texts[i]));
    let direct = Seq::new(keys.len(), |i: int| decoded_entry(env, text_at(store, keys[i])));
    assert(entries =~= direct);
    if keys.len() == 0 {
        assert(listing(env, store) =~= Seq::empty());
    }
    if !store.contains_key(item_index_key()) {
        assert(members_at(store, item_index_key()).to_seq() =~= Seq::empty());
    }
}

/// Every record among the present ones stands at some position of the
/// entries.
pub proof fn lemma_present_items_sound(entries: Seq<Option<ItemView>>, i: int)
    requires
        0 <= i < present_items(entries).len(),
    ensures
        exists|j: int| 0 <= j < entries.len() && entries[j] == Some(present_items(entries)[i]),
    decreases entries.len(),
{
    if entries.len() > 0 {
        let before = present_items(entries.drop_last());
        if i < before.len() {
            lemma_present_items_sound(entries.drop_last(), i);
            let j = choose|j: int|
                0 <= j < entries.drop_last().len() && entries.drop_last()[j] == Some(before[i]);
            assert(entries[j] == Some(present_items(entries)[i]));
        } else {
            assert(entries[entries.len() - 1] == Some(present_items(entries)[i]));
        }
    }
}

/// Every record that stands at some position of the entries is among the
/// present ones.
pub proof fn lemma_present_items_complete(entries: Seq<Option<ItemView>>, j: int)
    requires
        0 <= j < entries.len(),
        entries[j] is Some,
    ensures
        exists|i: int|
            0 <= i < present_items(entries).len() && present_items(entries)[i] == entries[j]->0,
    decreases entries.len(),
{
    let before = present_items(entries.drop_last());
    if j < entries.len() - 1 {
        lemma_present_items_complete(entries.drop_last(), j);
        let i = choose|i: int| 0 <= i < before.len() && before[i] == entries.drop_last()[j]->0;
        assert(present_items(entries)[i] == entries[j]->0);
    } else {
        assert(present_items(entries)[before.len() as int] == entries[j]->0);
    }
}

/// A listing holds exactly the records that the codec reads out of the texts
/// under the indexed keys.
pub proof fn law_listing_members(env: Surroundings, store: Store, item: ItemView)
    requires
        members_at(store, item_index_key()).finite(),
    ensures
        listing(env, store).contains(item) <==> exists|key: Seq<char>|
            members_at(store, item_index_key()).contains(key) && decoded_entry(
                env,
                text_at(store, key),
            ) == Some(item),
{
    let members = members_at(store, item_index_key());
    let keys = members.to_seq();
    let entries = Seq::new(keys.len(), |i: int| decoded_entry(env, text_at(store, keys[i])));
    members.lemma_to_seq_to_set_id();
    if listing(env, store).contains(item) {
        let i = choose|i: int| 0 <= i < listing(env, store).len() && listing(env, store)[i] == item;
        lemma_present_items_sound(entries, i);
        let j = choose|j: int| 0 <= j < entries.len() && entries[j] == Some(item);
        assert(keys.to_set().contains(keys[j]));
        assert(members.contains(keys[j]) && decoded_entry(env, text_at(store, keys[j])) == Some(
            item,
        ));
    }
    if exists|key: Seq<char>|
        members.contains(key) && decoded_entry(env, text_at(store, key)) == Some(item) {
        let key = choose|key: Seq<char>|
            members.contains(key) && decoded_entry(env, text_at(store, key)) == Some(item);
        assert(keys.to_set().contains(key));
        let j = choose|j: int| 0 <= j < keys.len() && keys[j] == key;
        assert(entries[j] == Some(item));
        lemma_present_items_complete(entries, j);
    }
}

/// The backend is in order: the counter is sound and no record is kept
/// under an identifier that the counter has not handed out; the index is
/// finite and lists only keys of such identifiers; and every text under a
/// record's key that the codec can read holds a record with that key's
/// identifier.
pub open spec fn orderly(env: Surroundings, store: Store) -> bool {
    &&& counter_sound(store)
    &&& forall|id: nat| #[trigger]
        store.contains_key(item_key_of(id)) ==> 1 <= id <= allocated(store)
    &&& members_at(store, item_index_key()).finite()
    &&& forall|key: Seq<char>| #[trigger]
        members_at(store, item_index_key()).contains(key) ==> exists|id: nat|
            item_key_of(id) == key && 1 <= id <= allocated(store)
    &&& forall|id: nat|
        match #[trigger] decoded_entry(env, text_at(store, item_key_of(id))) {
            Some(item) => item.id == id,
            None => true,
        }
}

/// A backend that holds nothing is in order.
pub proof fn law_empty_store_is_orderly(env: Surroundings)
    ensures
        orderly(env, Map::empty()),
{
}

/// Fetching an identifier that the counter has not handed out yet reports
/// that the record does not exist: no record exists before it is created.
pub proof fn law_get_never_created(env: Surroundings, store: Store, id: nat)
    requires
        env.outage is None,
        orderly(env, store),
        id == 0 || id > allocated(store),
    ensures
        get_run(env, store, id) == (store, failed(ErrorView::NotFound(item_label(id)))),
{
    assert(!store.contains_key(item_key_of(id)));
    law_get_absent(env, store, id);
}

/// A listing made after a deletion, on a backend in order, holds no record
/// with the deleted identifier.
pub proof fn law_delete_then_list(env: Surroundings, store: Store, id: nat, i: int)
    requires
        env.outage is None,
        orderly(env, store),
        list_run(env, delete_run(env, store, id).0).1 matches Some(Ok(KvOutcomeView::Listed(items)))
            && 0 <= i < items.len(),
    ensures
        list_run(env, delete_run(env, store, id).0).1 matches Some(Ok(KvOutcomeView::Listed(items)))
            && items[i].id != id,
{
    let after = delete_run(env, store, id).0;
    let items = list_run(env, after).1->0->Ok_0->Listed_0;
    lemma_item_key_not_reserved(id);
    assert(can_index(after) && after == store_with_deleted(store, id)) by {
        reveal_with_fuel(drive, 4);
        if can_index(store) {
            law_delete_effect(env, store, id);
        }
    }
    law_list_effect(env, after);
    let members = members_at(after, item_index_key());
    assert(members =~= members_at(store, item_index_key()).remove(item_key_of(id)));
    law_listing_members(env, after, items[i]);
    assert(listing(env, after).contains(items[i]));
    let key = choose|key: Seq<char>|
        members.contains(key) && decoded_entry(env, text_at(after, key)) == Some(items[i]);
    let other = choose|other: nat| item_key_of(other) == key;
    lemma_item_key_not_reserved(other);
    assert(text_at(after, key) == text_at(store, key));
    assert(decoded_entry(env, text_at(store, item_key_of(other))) == Some(items[i]));
}

/// Creating a record leaves a backend in order in order, however the
/// creation ends, provided the codec gives back what it serialized.
pub proof fn law_create_keeps_order(
    env: Surroundings,
    store: Store,
    payload: CreateItemPayloadView,
)
    requires
        orderly(env, store),
        faithful(env),
    ensures
        orderly(env, create_run(env, store, payload).0),
{
    reveal_with_fuel(drive, 6);
    lemma_reserved_keys_differ();
    let after = create_run(env, store, payload).0;
    let id = allocated(store) + 1;
    let item = item_of(id, payload);
    let key = item_key_of(id);
    let members = members_at(store, item_index_key());
    lemma_item_key_not_reserved(id);
    lemma_numeral_value(id);
    assert forall|other: nat|
        match #[trigger] decoded_entry(env, text_at(after, item_key_of(other))) {
            Some(found) => found.id == other,
            None => true,
        } by {
        lemma_item_key_not_reserved(other);
        if item_key_of(other) == key {
            lemma_item_key_injective(other, id);
            assert(text_at(after, key) == text_at(store, key) || ((env.encode)(item) is Ok
                && text_at(after, key) == Some((env.encode)(item)->Ok_0)));
        } else {
            assert(text_at(after, item_key_of(other)) == text_at(store, item_key_of(other)));
        }
        assert(decoded_entry(env, text_at(store, item_key_of(other))) matches Some(found)
            ==> found.id == other);
    }
    assert(members_at(after, item_index_key()) == members || members_at(
        after,
        item_index_key(),
    ) == members.insert(key));
    assert(text_at(after, next_id_key()) == text_at(store, next_id_key()) || text_at(
        after,
        next_id_key(),
    ) == Some(decimal(id)));
    assert(after.contains_key(next_id_key()) ==> after[next_id_key()] is Text);
    assert forall|other: nat| #[trigger] after.contains_key(item_key_of(other)) implies 1 <= other
        <= allocated(after) by {
        lemma_item_key_not_reserved(other);
        if !store.contains_key(item_key_of(other)) {
            assert(item_key_of(other) == key);
            lemma_item_key_injective(other, id);
            assert(text_at(after, next_id_key()) == Some(decimal(id)));
        }
    }
}

/// Updating a record leaves a backend in order in order, however the update
/// ends, provided the codec gives back what it serialized.
pub proof fn law_update_keeps_order(
    env: Surroundings,
    store: Store,
    id: nat,
    payload: CreateItemPayloadView,
)
    requires
        orderly(env, store),
        faithful(env),
    ensures
        orderly(env, update_run(env, store, id, payload).0),
{
    reveal_with_fuel(drive, 4);
    let after = update_run(env, store, id, payload).0;
    let item = item_of(id, payload);
    let key = item_key_of(id);
    lemma_item_key_not_reserved(id);
    assert forall|other: nat|
        match #[trigger] decoded_entry(env, text_at(after, item_key_of(other))) {
            Some(found) => found.id == other,
            None => true,
        } by {
        if item_key_of(other) == key {
            lemma_item_key_injective(other, id);
            assert(text_at(after, key) == text_at(store, key) || ((env.encode)(item) is Ok
                && text_at(after, key) == Some((env.encode)(item)->Ok_0)));
        } else {
            assert(text_at(after, item_key_of(other)) == text_at(store, item_key_of(other)));
        }
        assert(decoded_entry(env, text_at(store, item_key_of(other))) matches Some(found)
            ==> found.id == other);
    }
    assert(members_at(after, item_index_key()) == members_at(store, item_index_key()));
}

/// Deleting a record leaves a backend in order in order, however the
/// deletion ends.
pub proof fn law_delete_keeps_order(env: Surroundings, store: Store, id: nat)
    requires
        orderly(env, store),
    ensures
        orderly(env, delete_run(env, store, id).0),
{
    reveal_with_fuel(drive, 2);
    let after = delete_run(env, store, id).0;
    let key = item_key_of(id);
    let members = members_at(store, item_index_key());
    lemma_item_key_not_reserved(id);
    assert forall|other: nat|
        match #[trigger] decoded_entry(env, text_at(after, item_key_of(other))) {
            Some(found) => found.id == other,
            None => true,
        } by {
        lemma_item_key_not_reserved(other);
        assert(text_at(after, item_key_of(other)) == text_at(store, item_key_of(other))
            || text_at(after, item_key_of(other)) is None);
        assert(decoded_entry(env, text_at(store, item_key_of(other))) matches Some(found)
            ==> found.id == other);
    }
    assert(members_at(after, item_index_key()) =~= members || members_at(
        after,
        item_index_key(),
    ) =~= members.remove(key));
}

/// The index lists exactly the keys of the records that exist.
pub open spec fn index_matches_records(store: Store) -> bool {
    forall|id: nat|
        store.contains_key(#[trigger] item_key_of(id)) <==> members_at(
            store,
            item_index_key(),
        ).contains(item_key_of(id))
}

/// An index that lists exactly the existing records still does so after a
/// creation that succeeded, after an update, and after a deletion, however
/// the latter two ended.
pub proof fn law_index_follows_records(
    env: Surroundings,
    store: Store,
    id: nat,
    payload: CreateItemPayloadView,
)
    requires
        env.outage is None,
        can_index(store),
        index_matches_records(store),
    ensures
        create_run(env, store, payload).1 matches Some(Ok(_)) ==> index_matches_records(
            create_run(env, store, payload).0,
        ),
        index_matches_records(update_run(env, store, id, payload).0),
        index_matches_records(delete_run(env, store, id).0),
{
    lemma_reserved_keys_differ();
    assert forall|other: nat|
        #[trigger] item_key_of(other) != next_id_key() && item_key_of(other)
            != item_index_key() by {
        lemma_item_key_not_reserved(other);
    }
    if create_run(env, store, payload).1 matches Some(Ok(_)) {
        law_create_fails_otherwise(env, store, payload);
        law_create_succeeds(env, store, payload);
    }
    if store.contains_key(item_key_of(id)) {
        law_update_existing(env, store, id, payload);
    } else {
        law_update_missing(env, store, id, payload);
    }
    law_delete_effect(env, store, id);
    let deleted = delete_run(env, store, id).0;
    assert(members_at(deleted, item_index_key()) =~= members_at(store, item_index_key()).remove(
        item_key_of(id),
    ));
}

/// The backend's state while a creation stands between its two writes: the
/// record is written and its key is not yet added to the index.
pub open spec fn store_between_writes(
    env: Surroundings,
    store: Store,
    payload: CreateItemPayloadView,
) -> Store {
    drive(
        |state: CreateItemView, event: KvEventView| create_item_step(state, event),
        env,
        store,
        CreateItemView::Connecting(payload),
        opening(env),
        3,
    ).0
}

/// Between the two writes of a creation that goes on to succeed, the new
/// record is fetched by its identifier, and a listing of a backend in order
/// is what it was before the creation began: the record is not yet listed.
pub proof fn law_create_window(env: Surroundings, store: Store, payload: CreateItemPayloadView)
    requires
        orderly(env, store),
        create_run(env, store, payload).1 matches Some(Ok(KvOutcomeView::Created(item)))
            && (env.decode)((env.encode)(item)->Ok_0) == Ok::<ItemView, Seq<char>>(item),
    ensures
        create_run(env, store, payload).1 matches Some(Ok(KvOutcomeView::Created(item)))
            && get_run(env, store_between_writes(env, store, payload), item.id) == (
            store_between_writes(env, store, payload),
            succeeded(KvOutcomeView::Fetched(item)),
        ),
        listing(env, store_between_writes(env, store, payload)) == listing(env, store),
{
    law_create_fails_otherwise(env, store, payload);
    law_create_succeeds(env, store, payload);
    let id = allocated(store) + 1;
    let item = item_of(id, payload);
    let text = (env.encode)(item)->Ok_0;
    let window = store_between_writes(env, store, payload);
    lemma_item_key_not_reserved(id);
    lemma_reserved_keys_differ();
    lemma_numeral_value(id);
    assert(window =~= store.insert(next_id_key(), Entry::Text(decimal(id))).insert(
        item_key_of(id),
        Entry::Text(text),
    )) by {
        reveal_with_fuel(drive, 5);
    }
    assert(text_at(window, item_key_of(id)) == Some(text));
    law_get_present(env, window, id);
    let members = members_at(store, item_index_key());
    assert(members_at(window, item_index_key()) == members);
    let keys = members.to_seq();
    members.lemma_to_seq_to_set_id();
    assert forall|i: int| 0 <= i < keys.len() implies text_at(window, #[trigger] keys[i])
        == text_at(store, keys[i]) by {
        assert(keys.to_set().contains(keys[i]));
        assert(members.contains(keys[i]));
        let other = choose|other: nat|
            item_key_of(other) == keys[i] && 1 <= other <= allocated(store);
        lemma_item_key_not_reserved(other);
        if keys[i] == item_key_of(id) {
            lemma_item_key_injective(other, id);
        }
    }
    assert(Seq::new(keys.len(), |i: int| decoded_entry(env, text_at(window, keys[i])))
        =~= Seq::new(keys.len(), |i: int| decoded_entry(env, text_at(store, keys[i]))));
}

} // verus!
