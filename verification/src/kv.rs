//! The key-value adapter: create, list, get, update and delete of [`Item`]
//! records over a backend that offers get, set, set membership, an atomic
//! counter and an atomic delete-and-unindex.
//!
//! Every operation is a state machine. The application starts it in its
//! `Connecting` state, acquires a pooled connection and reports
//! [`KvEvent::Connected`] or [`KvEvent::Unavailable`]. From then on each step
//! either names the next [`KvRequest`] to perform or finishes with the
//! operation's result. The connection goes back to the pool when the
//! operation finishes, however it finishes.
//!
//! A record is written before its key is added to the index, in two separate
//! backend calls: between them the record can be fetched by its identifier
//! but is absent from listings. Deleting removes the record and its index
//! entry in one transaction. Listing reads the index and then fetches the
//! records in bulk, so it is a best-effort snapshot.

use vstd::prelude::*;
use vstd::string::*;
use crate::error::{Error, ErrorView};
use crate::key::{counter_key, decimal, decimal_text, index_key, item_index_key, item_key,
    item_key_of, next_id_key};
use crate::record::{item_of, CreateItemPayload, CreateItemPayloadView, Item, ItemView};

verus! {

/// One call to the key-value backend.
#[derive(Debug, PartialEq)]
pub enum KvCommand {
    /// Add one to the counter at `key`, atomically, and report the new value.
    /// A counter that does not exist yet counts from zero.
    Increment { key: String },
    /// Store `value` under `key`, replacing what was there.
    Write { key: String, value: String },
    /// Add `member` to the set at `index`.
    IndexAdd { index: String, member: String },
    /// Fetch the value under `key`.
    Read { key: String },
    /// Ask whether anything is stored under `key`.
    Exists { key: String },
    /// Fetch all members of the set at `index`.
    IndexMembers { index: String },
    /// Fetch the values under all of `keys` in one round trip.
    ReadMany { keys: Vec<String> },
    /// Delete `key` and remove it from the set at `index`, as one
    /// all-or-nothing transaction.
    RemoveIndexed { key: String, index: String },
}

/// What the application is asked to do next.
#[derive(Debug, PartialEq)]
pub enum KvRequest {
    /// Send the command to the backend over the acquired connection.
    Backend(KvCommand),
    /// Serialize the record.
    Encode(Item),
    /// Deserialize the text into a record.
    Decode(String),
    /// Deserialize each text that is present; an absent text, or one that is
    /// no record, gives an absent record at the same position.
    DecodeEach(Vec<Option<String>>),
}

/// What the application reports back.
#[derive(Debug, PartialEq)]
pub enum KvEvent {
    /// A pooled connection was acquired.
    Connected,
    /// No pooled connection could be acquired.
    Unavailable(String),
    /// The backend, its driver or the codec failed.
    Failed(String),
    /// The counter's value after [`KvCommand::Increment`].
    Counter(usize),
    /// [`KvCommand::Write`] or [`KvCommand::IndexAdd`] was carried out.
    Done,
    /// The value that [`KvCommand::Read`] found, if any.
    Value(Option<String>),
    /// The answer to [`KvCommand::Exists`].
    Exists(bool),
    /// The members that [`KvCommand::IndexMembers`] found.
    Members(Vec<String>),
    /// The values that [`KvCommand::ReadMany`] found, one per key.
    Values(Vec<Option<String>>),
    /// How many keys [`KvCommand::RemoveIndexed`] deleted and how many index
    /// entries it removed.
    Removed { records: isize, entries: isize },
    /// The text that [`KvRequest::Encode`] produced.
    Encoded(String),
    /// The record that [`KvRequest::Decode`] produced.
    Decoded(Item),
    /// The records that [`KvRequest::DecodeEach`] produced, one per text.
    DecodedEach(Vec<Option<Item>>),
}

/// What a finished operation hands to the caller.
#[derive(Debug, PartialEq)]
pub enum KvOutcome {
    Created(Item),
    Listed(Vec<Item>),
    Fetched(Item),
    Updated(Item),
    Deleted,
}

/// One step of an operation whose state has type `S`.
#[derive(Debug, PartialEq)]
pub enum KvStep<S> {
    /// The operation goes on in the given state once the request is answered.
    Continue(S, KvRequest),
    /// The operation is over.
    Finish(Result<KvOutcome, Error>),
}

/// The progress of [`create_item`].
#[derive(Debug, PartialEq)]
pub enum CreateItem {
    Connecting(CreateItemPayload),
    Allocating(CreateItemPayload),
    Encoding(Item),
    Storing(Item),
    Indexing(Item),
}

/// The progress of [`get_items`].
#[derive(Debug, PartialEq)]
pub enum GetItems {
    Connecting,
    ReadingIndex,
    Fetching,
    Decoding,
}

/// The progress of [`get_item`].
#[derive(Debug, PartialEq)]
pub enum GetItem {
    Connecting(usize),
    Fetching(usize),
    Decoding,
}

/// The progress of [`update_item`].
#[derive(Debug, PartialEq)]
pub enum UpdateItem {
    Connecting(usize, CreateItemPayload),
    Checking(usize, CreateItemPayload),
    Encoding(Item),
    Storing(Item),
}

/// The progress of [`delete_item`].
#[derive(Debug, PartialEq)]
pub enum DeleteItem {
    Connecting(usize),
    Removing(usize),
}

pub enum KvCommandView {
    Increment { key: Seq<char> },
    Write { key: Seq<char>, value: Seq<char> },
    IndexAdd { index: Seq<char>, member: Seq<char> },
    Read { key: Seq<char> },
    Exists { key: Seq<char> },
    IndexMembers { index: Seq<char> },
    ReadMany { keys: Seq<Seq<char>> },
    RemoveIndexed { key: Seq<char>, index: Seq<char> },
}

pub enum KvRequestView {
    Backend(KvCommandView),
    Encode(ItemView),
    Decode(Seq<char>),
    DecodeEach(Seq<Option<Seq<char>>>),
}

pub enum KvEventView {
    Connected,
    Unavailable(Seq<char>),
    Failed(Seq<char>),
    Counter(nat),
    Done,
    Value(Option<Seq<char>>),
    Exists(bool),
    Members(Seq<Seq<char>>),
    Values(Seq<Option<Seq<char>>>),
    Removed { records: int, entries: int },
    Encoded(Seq<char>),
    Decoded(ItemView),
    DecodedEach(Seq<Option<ItemView>>),
}

pub enum KvOutcomeView {
    Created(ItemView),
    Listed(Seq<ItemView>),
    Fetched(ItemView),
    Updated(ItemView),
    Deleted,
}

pub enum KvStepView<S> {
    Continue(S, KvRequestView),
    Finish(Result<KvOutcomeView, ErrorView>),
}

pub enum CreateItemView {
    Connecting(CreateItemPayloadView),
    Allocating(CreateItemPayloadView),
    Encoding(ItemView),
    Storing(ItemView),
    Indexing(ItemView),
}

pub enum GetItemView {
    Connecting(nat),
    Fetching(nat),
    Decoding,
}

pub enum UpdateItemView {
    Connecting(nat, CreateItemPayloadView),
    Checking(nat, CreateItemPayloadView),
    Encoding(ItemView),
    Storing(ItemView),
}

pub enum DeleteItemView {
    Connecting(nat),
    Removing(nat),
}

impl View for KvCommand {
    type V = KvCommandView;

    open spec fn view(&self) -> KvCommandView {
        match self {
            KvCommand::Increment { key } => KvCommandView::Increment { key: key@ },
            KvCommand::Write { key, value } => KvCommandView::Write { key: key@, value: value@ },
            KvCommand::IndexAdd { index, member } => KvCommandView::IndexAdd {
                index: index@,
                member: member@,
            },
            KvCommand::Read { key } => KvCommandView::Read { key: key@ },
            KvCommand::Exists { key } => KvCommandView::Exists { key: key@ },
            KvCommand::IndexMembers { index } => KvCommandView::IndexMembers { index: index@ },
            KvCommand::ReadMany { keys } => KvCommandView::ReadMany { keys: keys.deep_view() },
            KvCommand::RemoveIndexed { key, index } => KvCommandView::RemoveIndexed {
                key: key@,
                index: index@,
            },
        }
    }
}

impl View for KvRequest {
    type V = KvRequestView;

    open spec fn view(&self) -> KvRequestView {
        match self {
            KvRequest::Backend(command) => KvRequestView::Backend(command@),
            KvRequest::Encode(item) => KvRequestView::Encode(item@),
            KvRequest::Decode(text) => KvRequestView::Decode(text@),
            KvRequest::DecodeEach(texts) => KvRequestView::DecodeEach(texts.deep_view()),
        }
    }
}

impl View for KvEvent {
    type V = KvEventView;

    open spec fn view(&self) -> KvEventView {
        match self {
            KvEvent::Connected => KvEventView::Connected,
            KvEvent::Unavailable(detail) => KvEventView::Unavailable(detail@),
            KvEvent::Failed(detail) => KvEventView::Failed(detail@),
            KvEvent::Counter(value) => KvEventView::Counter(*value as nat),
            KvEvent::Done => KvEventView::Done,
            KvEvent::Value(text) => KvEventView::Value(text.deep_view()),
            KvEvent::Exists(found) => KvEventView::Exists(*found),
            KvEvent::Members(keys) => KvEventView::Members(keys.deep_view()),
            KvEvent::Values(texts) => KvEventView::Values(texts.deep_view()),
            KvEvent::Removed { records, entries } => KvEventView::Removed {
                records: *records as int,
                entries: *entries as int,
            },
            KvEvent::Encoded(text) => KvEventView::Encoded(text@),
            KvEvent::Decoded(item) => KvEventView::Decoded(item@),
            KvEvent::DecodedEach(items) => KvEventView::DecodedEach(items.deep_view()),
        }
    }
}

impl View for KvOutcome {
    type V = KvOutcomeView;

    open spec fn view(&self) -> KvOutcomeView {
        match self {
            KvOutcome::Created(item) => KvOutcomeView::Created(item@),
            KvOutcome::Listed(items) => KvOutcomeView::Listed(items.deep_view()),
            KvOutcome::Fetched(item) => KvOutcomeView::Fetched(item@),
            KvOutcome::Updated(item) => KvOutcomeView::Updated(item@),
            KvOutcome::Deleted => KvOutcomeView::Deleted,
        }
    }
}

/// The view of an operation's result.
pub open spec fn result_view(result: Result<KvOutcome, Error>) -> Result<
    KvOutcomeView,
    ErrorView,
> {
    match result {
        Ok(outcome) => Ok(outcome@),
        Err(error) => Err(error@),
    }
}

impl<S: View> View for KvStep<S> {
    type V = KvStepView<S::V>;

    open spec fn view(&self) -> KvStepView<S::V> {
        match self {
            KvStep::Continue(state, request) => KvStepView::Continue(state@, request@),
            KvStep::Finish(result) => KvStepView::Finish(result_view(*result)),
        }
    }
}

impl View for CreateItem {
    type V = CreateItemView;

    open spec fn view(&self) -> CreateItemView {
        match self {
            CreateItem::Connecting(payload) => CreateItemView::Connecting(payload@),
            CreateItem::Allocating(payload) => CreateItemView::Allocating(payload@),
            CreateItem::Encoding(item) => CreateItemView::Encoding(item@),
            CreateItem::Storing(item) => CreateItemView::Storing(item@),
            CreateItem::Indexing(item) => CreateItemView::Indexing(item@),
        }
    }
}

impl View for GetItems {
    type V = GetItems;

    open spec fn view(&self) -> GetItems {
        *self
    }
}

impl View for GetItem {
    type V = GetItemView;

    open spec fn view(&self) -> GetItemView {
        match self {
            GetItem::Connecting(id) => GetItemView::Connecting(*id as nat),
            GetItem::Fetching(id) => GetItemView::Fetching(*id as nat),
            GetItem::Decoding => GetItemView::Decoding,
        }
    }
}

impl View for UpdateItem {
    type V = UpdateItemView;

    open spec fn view(&self) -> UpdateItemView {
        match self {
            UpdateItem::Connecting(id, payload) => UpdateItemView::Connecting(
                *id as nat,
                payload@,
            ),
            UpdateItem::Checking(id, payload) => UpdateItemView::Checking(*id as nat, payload@),
            UpdateItem::Encoding(item) => UpdateItemView::Encoding(item@),
            UpdateItem::Storing(item) => UpdateItemView::Storing(item@),
        }
    }
}

impl View for DeleteItem {
    type V = DeleteItemView;

    open spec fn view(&self) -> DeleteItemView {
        match self {
            DeleteItem::Connecting(id) => DeleteItemView::Connecting(*id as nat),
            DeleteItem::Removing(id) => DeleteItemView::Removing(*id as nat),
        }
    }
}

/// The HTTP status that reports a successful operation.
pub open spec fn success_status(outcome: KvOutcomeView) -> int {
    match outcome {
        KvOutcomeView::Created(_) => 201,
        KvOutcomeView::Deleted => 204,
        _ => 200,
    }
}

impl KvOutcome {
    /// The HTTP status that reports this outcome.
    pub fn status_code(&self) -> (r: u16)
        ensures
            r == success_status(self@),
    {
        match self {
            KvOutcome::Created(_) => 201,
            KvOutcome::Deleted => 204,
            _ => 200,
        }
    }
}

/// How a missing record is described to the caller.
pub open spec fn item_label(id: nat) -> Seq<char> {
    "Item ID: "@ + decimal(id)
}

/// The detail of the failure that ends an operation when the application
/// reports something that cannot follow the request it was given.
pub open spec fn out_of_turn() -> Seq<char> {
    "the reported event does not answer the pending request"@
}

/// The records among `entries`, in their order.
pub open spec fn present_items(entries: Seq<Option<ItemView>>) -> Seq<ItemView>
    decreases entries.len(),
{
    if entries.len() == 0 {
        Seq::empty()
    } else {
        let before = present_items(entries.drop_last());
        match entries.last() {
            Some(item) => before.push(item),
            None => before,
        }
    }
}

/// What ends every operation whatever its state: a lost pool, a failed
/// backend, or an event that answers no request of that operation.
pub open spec fn interruption(event: KvEventView) -> ErrorView {
    match event {
        KvEventView::Unavailable(detail) => ErrorView::PoolError(detail),
        KvEventView::Failed(detail) => ErrorView::BackendError(detail),
        _ => ErrorView::BackendError(out_of_turn()),
    }
}

/// One step of creating a record: draw an identifier from the counter, build
/// the record, have it serialized, write it under its key, then add the key
/// to the index.
pub open spec fn create_item_step(state: CreateItemView, event: KvEventView) -> KvStepView<
    CreateItemView,
> {
    match (state, event) {
        (CreateItemView::Connecting(payload), KvEventView::Connected) => KvStepView::Continue(
            CreateItemView::Allocating(payload),
            KvRequestView::Backend(KvCommandView::Increment { key: next_id_key() }),
        ),
        (CreateItemView::Allocating(payload), KvEventView::Counter(id)) => KvStepView::Continue(
            CreateItemView::Encoding(item_of(id, payload)),
            KvRequestView::Encode(item_of(id, payload)),
        ),
        (CreateItemView::Encoding(item), KvEventView::Encoded(text)) => KvStepView::Continue(
            CreateItemView::Storing(item),
            KvRequestView::Backend(
                KvCommandView::Write { key: item_key_of(item.id), value: text },
            ),
        ),
        (CreateItemView::Storing(item), KvEventView::Done) => KvStepView::Continue(
            CreateItemView::Indexing(item),
            KvRequestView::Backend(
                KvCommandView::IndexAdd { index: item_index_key(), member: item_key_of(item.id) },
            ),
        ),
        (CreateItemView::Indexing(item), KvEventView::Done) => KvStepView::Finish(
            Ok(KvOutcomeView::Created(item)),
        ),
        _ => KvStepView::Finish(Err(interruption(event))),
    }
}

/// One step of listing all records: read the index, fetch all indexed keys
/// in one round trip, have the texts deserialized, and keep the records that
/// came out. An empty index ends the listing at once.
pub open spec fn get_items_step(state: GetItems, event: KvEventView) -> KvStepView<GetItems> {
    match (state, event) {
        (GetItems::Connecting, KvEventView::Connected) => KvStepView::Continue(
            GetItems::ReadingIndex,
            KvRequestView::Backend(KvCommandView::IndexMembers { index: item_index_key() }),
        ),
        (GetItems::ReadingIndex, KvEventView::Members(keys)) => if keys.len() == 0 {
            KvStepView::Finish(Ok(KvOutcomeView::Listed(Seq::empty())))
        } else {
            KvStepView::Continue(
                GetItems::Fetching,
                KvRequestView::Backend(KvCommandView::ReadMany { keys }),
            )
        },
        (GetItems::Fetching, KvEventView::Values(texts)) => KvStepView::Continue(
            GetItems::Decoding,
            KvRequestView::DecodeEach(texts),
        ),
        (GetItems::Decoding, KvEventView::DecodedEach(entries)) => KvStepView::Finish(
            Ok(KvOutcomeView::Listed(present_items(entries))),
        ),
        _ => KvStepView::Finish(Err(interruption(event))),
    }
}

/// One step of fetching the record with a given identifier: read its key and
/// have the text deserialized. A key that holds nothing means the record
/// does not exist.
pub open spec fn get_item_step(state: GetItemView, event: KvEventView) -> KvStepView<
    GetItemView,
> {
    match (state, event) {
        (GetItemView::Connecting(id), KvEventView::Connected) => KvStepView::Continue(
            GetItemView::Fetching(id),
            KvRequestView::Backend(KvCommandView::Read { key: item_key_of(id) }),
        ),
        (GetItemView::Fetching(id), KvEventView::Value(Some(text))) => KvStepView::Continue(
            GetItemView::Decoding,
            KvRequestView::Decode(text),
        ),
        (GetItemView::Fetching(id), KvEventView::Value(None)) => KvStepView::Finish(
            Err(ErrorView::NotFound(item_label(id))),
        ),
        (GetItemView::Decoding, KvEventView::Decoded(item)) => KvStepView::Finish(
            Ok(KvOutcomeView::Fetched(item)),
        ),
        _ => KvStepView::Finish(Err(interruption(event))),
    }
}

/// One step of replacing the fields of the record with a given identifier:
/// check that its key exists, build the record under the same identifier,
/// have it serialized, and overwrite the key.
pub open spec fn update_item_step(state: UpdateItemView, event: KvEventView) -> KvStepView<
    UpdateItemView,
> {
    match (state, event) {
        (UpdateItemView::Connecting(id, payload), KvEventView::Connected) => KvStepView::Continue(
            UpdateItemView::Checking(id, payload),
            KvRequestView::Backend(KvCommandView::Exists { key: item_key_of(id) }),
        ),
        (UpdateItemView::Checking(id, payload), KvEventView::Exists(found)) => if found {
            KvStepView::Continue(
                UpdateItemView::Encoding(item_of(id, payload)),
                KvRequestView::Encode(item_of(id, payload)),
            )
        } else {
            KvStepView::Finish(Err(ErrorView::NotFound(item_label(id))))
        },
        (UpdateItemView::Encoding(item), KvEventView::Encoded(text)) => KvStepView::Continue(
            UpdateItemView::Storing(item),
            KvRequestView::Backend(
                KvCommandView::Write { key: item_key_of(item.id), value: text },
            ),
        ),
        (UpdateItemView::Storing(item), KvEventView::Done) => KvStepView::Finish(
            Ok(KvOutcomeView::Updated(item)),
        ),
        _ => KvStepView::Finish(Err(interruption(event))),
    }
}

/// One step of deleting the record with a given identifier: delete its key
/// and remove the key from the index in one transaction. If no key was
/// deleted the record did not exist, whatever the index held.
pub open spec fn delete_item_step(state: DeleteItemView, event: KvEventView) -> KvStepView<
    DeleteItemView,
> {
    match (state, event) {
        (DeleteItemView::Connecting(id), KvEventView::Connected) => KvStepView::Continue(
            DeleteItemView::Removing(id),
            KvRequestView::Backend(
                KvCommandView::RemoveIndexed { key: item_key_of(id), index: item_index_key() },
            ),
        ),
        (DeleteItemView::Removing(id), KvEventView::Removed { records, entries }) => if records
            == 0 {
            KvStepView::Finish(Err(ErrorView::NotFound(item_label(id))))
        } else {
            KvStepView::Finish(Ok(KvOutcomeView::Deleted))
        },
        _ => KvStepView::Finish(Err(interruption(event))),
    }
}

/// The failure that reports that the record with identifier `id` does not
/// exist.
pub fn item_not_found(id: usize) -> (r: Error)
    ensures
        r@ == ErrorView::NotFound(item_label(id as nat)),
{
    let mut resource = String::from_str("Item ID: ");
    let digits = decimal_text(id);
    resource.append(digits.as_str());
    Error::NotFound(resource)
}

/// Ends an operation on an event that does not let it go on.
pub fn interrupted(event: KvEvent) -> (r: Error)
    ensures
        r@ == interruption(event@),
{
    match event {
        KvEvent::Unavailable(detail) => Error::PoolError(detail),
        KvEvent::Failed(detail) => Error::BackendError(detail),
        _ => Error::BackendError(
            String::from_str("the reported event does not answer the pending request"),
        ),
    }
}

/// The records among `entries`, in their order: an absent entry is dropped.
pub fn collect_items(entries: Vec<Option<Item>>) -> (r: Vec<Item>)
    ensures
        r.deep_view() == present_items(entries.deep_view()),
{
    let mut items: Vec<Item> = Vec::new();
    let mut i: usize = 0;
    assert(entries.deep_view().take(0) =~= Seq::empty());
    assert(items.deep_view() =~= Seq::empty());
    while i < entries.len()
        invariant
            i <= entries.len(),
            items.deep_view() == present_items(entries.deep_view().take(i as int)),
        decreases entries.len() - i,
    {
        let ghost before = items.deep_view();
        let ghost all = entries.deep_view();
        assert(all.take(i + 1).drop_last() =~= all.take(i as int));
        assert(all.take(i + 1).last() == all[i as int]);
        assert(all[i as int] == entries[i as int].deep_view());
        match &entries[i] {
            Some(item) => {
                items.push(item.clone());
                assert(items.deep_view() =~= before.push(item@));
            },
            None => {},
        }
        i = i + 1;
    }
    assert(entries.deep_view().take(i as int) =~= entries.deep_view());
    items
}

/// Advances the creation of a record by one event.
pub fn create_item(state: CreateItem, event: KvEvent) -> (step: KvStep<CreateItem>)
    ensures
        step@ == create_item_step(state@, event@),
{
    match (state, event) {
        (CreateItem::Connecting(payload), KvEvent::Connected) => KvStep::Continue(
            CreateItem::Allocating(payload),
            KvRequest::Backend(KvCommand::Increment { key: counter_key() }),
        ),
        (CreateItem::Allocating(payload), KvEvent::Counter(id)) => {
            let item = Item::new(id, payload);
            let copy = item.clone();
            KvStep::Continue(CreateItem::Encoding(item), KvRequest::Encode(copy))
        },
        (CreateItem::Encoding(item), KvEvent::Encoded(text)) => {
            let key = item_key(item.id);
            KvStep::Continue(
                CreateItem::Storing(item),
                KvRequest::Backend(KvCommand::Write { key, value: text }),
            )
        },
        (CreateItem::Storing(item), KvEvent::Done) => {
            let member = item_key(item.id);
            KvStep::Continue(
                CreateItem::Indexing(item),
                KvRequest::Backend(KvCommand::IndexAdd { index: index_key(), member }),
            )
        },
        (CreateItem::Indexing(item), KvEvent::Done) => KvStep::Finish(
            Ok(KvOutcome::Created(item)),
        ),
        (_, event) => KvStep::Finish(Err(interrupted(event))),
    }
}

/// Advances the listing of all records by one event.
pub fn get_items(state: GetItems, event: KvEvent) -> (step: KvStep<GetItems>)
    ensures
        step@ == get_items_step(state@, event@),
{
    match (state, event) {
        (GetItems::Connecting, KvEvent::Connected) => KvStep::Continue(
            GetItems::ReadingIndex,
            KvRequest::Backend(KvCommand::IndexMembers { index: index_key() }),
        ),
        (GetItems::ReadingIndex, KvEvent::Members(keys)) => {
            if keys.len() == 0 {
                let none: Vec<Item> = Vec::new();
                assert(none.deep_view() =~= Seq::empty());
                assert(keys.deep_view().len() == 0);
                KvStep::Finish(Ok(KvOutcome::Listed(none)))
            } else {
                assert(keys.deep_view().len() != 0);
                KvStep::Continue(
                    GetItems::Fetching,
                    KvRequest::Backend(KvCommand::ReadMany { keys }),
                )
            }
        },
        (GetItems::Fetching, KvEvent::Values(texts)) => KvStep::Continue(
            GetItems::Decoding,
            KvRequest::DecodeEach(texts),
        ),
        (GetItems::Decoding, KvEvent::DecodedEach(entries)) => KvStep::Finish(
            Ok(KvOutcome::Listed(collect_items(entries))),
        ),
        (_, event) => KvStep::Finish(Err(interrupted(event))),
    }
}

/// Advances the fetching of one record by one event.
pub fn get_item(state: GetItem, event: KvEvent) -> (step: KvStep<GetItem>)
    ensures
        step@ == get_item_step(state@, event@),
{
    match (state, event) {
        (GetItem::Connecting(id), KvEvent::Connected) => KvStep::Continue(
            GetItem::Fetching(id),
            KvRequest::Backend(KvCommand::Read { key: item_key(id) }),
        ),
        (GetItem::Fetching(_), KvEvent::Value(Some(text))) => KvStep::Continue(
            GetItem::Decoding,
            KvRequest::Decode(text),
        ),
        (GetItem::Fetching(id), KvEvent::Value(None)) => KvStep::Finish(
            Err(item_not_found(id)),
        ),
        (GetItem::Decoding, KvEvent::Decoded(item)) => KvStep::Finish(
            Ok(KvOutcome::Fetched(item)),
        ),
        (_, event) => KvStep::Finish(Err(interrupted(event))),
    }
}

/// Advances the update of one record by one event.
pub fn update_item(state: UpdateItem, event: KvEvent) -> (step: KvStep<UpdateItem>)
    ensures
        step@ == update_item_step(state@, event@),
{
    match (state, event) {
        (UpdateItem::Connecting(id, payload), KvEvent::Connected) => KvStep::Continue(
            UpdateItem::Checking(id, payload),
            KvRequest::Backend(KvCommand::Exists { key: item_key(id) }),
        ),
        (UpdateItem::Checking(id, payload), KvEvent::Exists(found)) => {
            if found {
                let item = Item::new(id, payload);
                let copy = item.clone();
                KvStep::Continue(UpdateItem::Encoding(item), KvRequest::Encode(copy))
            } else {
                KvStep::Finish(Err(item_not_found(id)))
            }
        },
        (UpdateItem::Encoding(item), KvEvent::Encoded(text)) => {
            let key = item_key(item.id);
            KvStep::Continue(
                UpdateItem::Storing(item),
                KvRequest::Backend(KvCommand::Write { key, value: text }),
            )
        },
        (UpdateItem::Storing(item), KvEvent::Done) => KvStep::Finish(
            Ok(KvOutcome::Updated(item)),
        ),
        (_, event) => KvStep::Finish(Err(interrupted(event))),
    }
}

/// Advances the deletion of one record by one event.
pub fn delete_item(state: DeleteItem, event: KvEvent) -> (step: KvStep<DeleteItem>)
    ensures
        step@ == delete_item_step(state@, event@),
{
    match (state, event) {
        (DeleteItem::Connecting(id), KvEvent::Connected) => KvStep::Continue(
            DeleteItem::Removing(id),
            KvRequest::Backend(KvCommand::RemoveIndexed { key: item_key(id), index: index_key() }),
        ),
        (DeleteItem::Removing(id), KvEvent::Removed { records, entries }) => {
            if records == 0 {
                KvStep::Finish(Err(item_not_found(id)))
            } else {
                KvStep::Finish(Ok(KvOutcome::Deleted))
            }
        },
        (_, event) => KvStep::Finish(Err(interrupted(event))),
    }
}

} // verus!
