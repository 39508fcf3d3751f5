//! A model of the key-value backend and of an application that follows the
//! adapter's requests, and what holds of the adapter when both behave so.
//!
//! The backend keeps texts and sets of texts under keys. A counter is a text
//! that holds a numeral. The model answers every command of the adapter the
//! way such a backend does; the laws below are stated over it.

use vstd::prelude::*;
use crate::error::ErrorView;
use crate::key::decimal;
use crate::kv::{create_item_step, delete_item_step, get_item_step, get_items_step,
    update_item_step, CreateItemView, DeleteItemView, GetItemView, GetItems, KvCommandView,
    KvEventView, KvOutcomeView, KvRequestView, KvStepView, UpdateItemView};
use crate::record::{CreateItemPayloadView, ItemView};

verus! {

/// What the backend keeps under one key.
pub enum Entry {
    Text(Seq<char>),
    Members(Set<Seq<char>>),
}

/// The backend's whole state: what it keeps under each key.
pub type Store = Map<Seq<char>, Entry>;

/// The largest value that a counter can reach.
pub open spec fn counter_limit() -> nat {
    0x7fff_ffff_ffff_ffff
}

/// How the backend refuses a command for a key that holds the other kind of
/// value.
pub open spec fn wrong_kind() -> Seq<char> {
    "WRONGTYPE Operation against a key holding the wrong kind of value"@
}

/// How the backend refuses to count on a text that is no numeral, or past
/// the largest value.
pub open spec fn not_countable() -> Seq<char> {
    "ERR value is not an integer or out of range"@
}

pub open spec fn is_numeral(text: Seq<char>) -> bool {
    exists|n: nat| decimal(n) == text
}

pub open spec fn numeral_value(text: Seq<char>) -> nat {
    choose|n: nat| decimal(n) == text
}

/// The text under `key`, if the key holds a text.
pub open spec fn text_at(store: Store, key: Seq<char>) -> Option<Seq<char>> {
    if store.contains_key(key) {
        match store[key] {
            Entry::Text(text) => Some(text),
            Entry::Members(_) => None,
        }
    } else {
        None
    }
}

/// The members of the set under `key`; none if the key holds no set.
pub open spec fn members_at(store: Store, key: Seq<char>) -> Set<Seq<char>> {
    if store.contains_key(key) {
        match store[key] {
            Entry::Text(_) => Set::empty(),
            Entry::Members(members) => members,
        }
    } else {
        Set::empty()
    }
}

/// The backend's state after `command`, and its answer.
pub open spec fn execute(store: Store, command: KvCommandView) -> (Store, KvEventView) {
    match command {
        KvCommandView::Increment { key } => {
            if !store.contains_key(key) {
                (store.insert(key, Entry::Text(decimal(1))), KvEventView::Counter(1))
            } else {
                match store[key] {
                    Entry::Text(text) => {
                        if is_numeral(text) && numeral_value(text) < counter_limit() {
                            let next = numeral_value(text) + 1;
                            (
                                store.insert(key, Entry::Text(decimal(next as nat))),
                                KvEventView::Counter(next as nat),
                            )
                        } else {
                            (store, KvEventView::Failed(not_countable()))
                        }
                    },
                    Entry::Members(_) => (store, KvEventView::Failed(wrong_kind())),
                }
            }
        },
        KvCommandView::Write { key, value } => (
            store.insert(key, Entry::Text(value)),
            KvEventView::Done,
        ),
        KvCommandView::IndexAdd { index, member } => {
            if !store.contains_key(index) {
                (
                    store.insert(index, Entry::Members(Set::empty().insert(member))),
                    KvEventView::Done,
                )
            } else {
                match store[index] {
                    Entry::Members(members) => (
                        store.insert(index, Entry::Members(members.insert(member))),
                        KvEventView::Done,
                    ),
                    Entry::Text(_) => (store, KvEventView::Failed(wrong_kind())),
                }
            }
        },
        KvCommandView::Read { key } => {
            if !store.contains_key(key) {
                (store, KvEventView::Value(None))
            } else {
                match store[key] {
                    Entry::Text(text) => (store, KvEventView::Value(Some(text))),
                    Entry::Members(_) => (store, KvEventView::Failed(wrong_kind())),
                }
            }
        },
        KvCommandView::Exists { key } => (store, KvEventView::Exists(store.contains_key(key))),
        KvCommandView::IndexMembers { index } => {
            if !store.contains_key(index) {
                (store, KvEventView::Members(Seq::empty()))
            } else {
                match store[index] {
                    Entry::Members(members) => (store, KvEventView::Members(members.to_seq())),
                    Entry::Text(_) => (store, KvEventView::Failed(wrong_kind())),
                }
            }
        },
        KvCommandView::ReadMany { keys } => (
            store,
            KvEventView::Values(Seq::new(keys.len(), |i: int| text_at(store, keys[i]))),
        ),
        KvCommandView::RemoveIndexed { key, index } => {
            let records: int = if store.contains_key(key) {
                1
            } else {
                0
            };
            let without = store.remove(key);
            if !without.contains_key(index) {
                (without, KvEventView::Removed { records, entries: 0 })
            } else {
                match without[index] {
                    Entry::Members(members) => {
                        let entries: int = if members.contains(key) {
                            1
                        } else {
                            0
                        };
                        let rest = members.remove(key);
                        if rest =~= Set::empty() {
                            (without.remove(index), KvEventView::Removed { records, entries })
                        } else {
                            (
                                without.insert(index, Entry::Members(rest)),
                                KvEventView::Removed { records, entries },
                            )
                        }
                    },
                    Entry::Text(_) => (without, KvEventView::Failed(wrong_kind())),
                }
            }
        },
    }
}

/// What surrounds an operation besides the backend: whether the pool hands
/// out a connection, and the codec that serializes records.
pub struct Surroundings {
    /// The pool's report if it hands out no connection.
    pub outage: Option<Seq<char>>,
    /// The text of a record, or the codec's report of a failure.
    pub encode: spec_fn(ItemView) -> Result<Seq<char>, Seq<char>>,
    /// The record that a text holds, or the codec's report of a failure.
    pub decode: spec_fn(Seq<char>) -> Result<ItemView, Seq<char>>,
}

/// The codec gives back every record that it was able to serialize.
pub open spec fn faithful(env: Surroundings) -> bool {
    forall|item: ItemView| #[trigger]
        (env.encode)(item) is Ok ==> (env.decode)((env.encode)(item)->Ok_0) == Ok::<
            ItemView,
            Seq<char>,
        >(item)
}

/// The event that opens every operation.
pub open spec fn opening(env: Surroundings) -> KvEventView {
    match env.outage {
        None => KvEventView::Connected,
        Some(detail) => KvEventView::Unavailable(detail),
    }
}

/// The record, if any, that the codec finds in a text that may be absent.
pub open spec fn decoded_entry(env: Surroundings, text: Option<Seq<char>>) -> Option<ItemView> {
    match text {
        Some(text) => match (env.decode)(text) {
            Ok(item) => Some(item),
            Err(_) => None,
        },
        None => None,
    }
}

/// The backend's state after the application has served `request`, and what
/// the application reports.
pub open spec fn answer(env: Surroundings, store: Store, request: KvRequestView) -> (
    Store,
    KvEventView,
) {
    match request {
        KvRequestView::Backend(command) => execute(store, command),
        KvRequestView::Encode(item) => match (env.encode)(item) {
            Ok(text) => (store, KvEventView::Encoded(text)),
            Err(detail) => (store, KvEventView::Failed(detail)),
        },
        KvRequestView::Decode(text) => match (env.decode)(text) {
            Ok(item) => (store, KvEventView::Decoded(item)),
            Err(detail) => (store, KvEventView::Failed(detail)),
        },
        KvRequestView::DecodeEach(texts) => (
            store,
            KvEventView::DecodedEach(
                Seq::new(texts.len(), |i: int| decoded_entry(env, texts[i])),
            ),
        ),
    }
}

/// Runs an operation from `state` on `event` with nothing else touching the
/// backend: the final state of the backend and the operation's result, or no
/// result if the operation is not over after `patience` further requests.
pub open spec fn drive<S>(
    step: spec_fn(S, KvEventView) -> KvStepView<S>,
    env: Surroundings,
    store: Store,
    state: S,
    event: KvEventView,
    patience: nat,
) -> (Store, Option<Result<KvOutcomeView, ErrorView>>)
    decreases patience,
{
    match step(state, event) {
        KvStepView::Finish(result) => (store, Some(result)),
        KvStepView::Continue(next, request) => {
            if patience == 0 {
                (store, None)
            } else {
                let (after, reported) = answer(env, store, request);
                drive(step, env, after, next, reported, (patience - 1) as nat)
            }
        },
    }
}

/// A run that ended in `outcome`.
pub open spec fn succeeded(outcome: KvOutcomeView) -> Option<Result<KvOutcomeView, ErrorView>> {
    Some(Ok(outcome))
}

/// A run that ended in `error`.
pub open spec fn failed(error: ErrorView) -> Option<Result<KvOutcomeView, ErrorView>> {
    Some(Err(error))
}

/// Creating a record from `payload`, start to end.
pub open spec fn create_run(env: Surroundings, store: Store, payload: CreateItemPayloadView) -> (
    Store,
    Option<Result<KvOutcomeView, ErrorView>>,
) {
    drive(
        |state: CreateItemView, event: KvEventView| create_item_step(state, event),
        env,
        store,
        CreateItemView::Connecting(payload),
        opening(env),
        4,
    )
}

/// Listing all records, start to end.
pub open spec fn list_run(env: Surroundings, store: Store) -> (
    Store,
    Option<Result<KvOutcomeView, ErrorView>>,
) {
    drive(
        |state: GetItems, event: KvEventView| get_items_step(state, event),
        env,
        store,
        GetItems::Connecting,
        opening(env),
        3,
    )
}

/// Fetching the record with identifier `id`, start to end.
pub open spec fn get_run(env: Surroundings, store: Store, id: nat) -> (
    Store,
    Option<Result<KvOutcomeView, ErrorView>>,
) {
    drive(
        |state: GetItemView, event: KvEventView| get_item_step(state, event),
        env,
        store,
        GetItemView::Connecting(id),
        opening(env),
        2,
    )
}

/// Replacing the fields of the record with identifier `id`, start to end.
pub open spec fn update_run(
    env: Surroundings,
    store: Store,
    id: nat,
    payload: CreateItemPayloadView,
) -> (Store, Option<Result<KvOutcomeView, ErrorView>>) {
    drive(
        |state: UpdateItemView, event: KvEventView| update_item_step(state, event),
        env,
        store,
        UpdateItemView::Connecting(id, payload),
        opening(env),
        3,
    )
}

/// Deleting the record with identifier `id`, start to end.
pub open spec fn delete_run(env: Surroundings, store: Store, id: nat) -> (
    Store,
    Option<Result<KvOutcomeView, ErrorView>>,
) {
    drive(
        |state: DeleteItemView, event: KvEventView| delete_item_step(state, event),
        env,
        store,
        DeleteItemView::Connecting(id),
        opening(env),
        1,
    )
}

} // verus!
