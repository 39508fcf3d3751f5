use std::collections::{BTreeMap, BTreeSet};

use hello_axum::error::Error;
use hello_axum::key::item_key;
use hello_axum::kv::{
    collect_items, create_item, delete_item, get_item, get_items, interrupted, item_not_found,
    update_item, CreateItem, DeleteItem, GetItem, GetItems, KvCommand, KvEvent, KvOutcome,
    KvRequest, KvStep, UpdateItem,
};
use hello_axum::record::{CreateItemPayload, Item};

enum Entry {
    Text(String),
    Members(BTreeSet<String>),
}

/// An in-memory stand-in for the key-value backend.
struct Backend {
    entries: BTreeMap<String, Entry>,
    commands: Vec<KvCommand>,
}

const WRONG_KIND: &str = "WRONGTYPE Operation against a key holding the wrong kind of value";

impl Backend {
    fn new() -> Backend {
        Backend { entries: BTreeMap::new(), commands: Vec::new() }
    }

    fn text(&self, key: &str) -> Option<String> {
        match self.entries.get(key) {
            Some(Entry::Text(text)) => Some(text.clone()),
            _ => None,
        }
    }

    fn members(&self, key: &str) -> Vec<String> {
        match self.entries.get(key) {
            Some(Entry::Members(members)) => members.iter().cloned().collect(),
            _ => Vec::new(),
        }
    }

    fn snapshot(&self) -> Vec<(String, String)> {
        self.entries
            .iter()
            .map(|(key, entry)| match entry {
                Entry::Text(text) => (key.clone(), text.clone()),
                Entry::Members(members) => (key.clone(), format!("{:?}", members)),
            })
            .collect()
    }

    fn execute(&mut self, command: KvCommand) -> KvEvent {
        let event = match &command {
            KvCommand::Increment { key } => match self.entries.get(key) {
                None => {
                    self.entries.insert(key.clone(), Entry::Text("1".to_string()));
                    KvEvent::Counter(1)
                }
                Some(Entry::Text(text)) => match text.parse::<usize>() {
                    Ok(value) => {
                        self.entries.insert(key.clone(), Entry::Text((value + 1).to_string()));
                        KvEvent::Counter(value + 1)
                    }
                    Err(_) => {
                        KvEvent::Failed("ERR value is not an integer or out of range".to_string())
                    }
                },
                Some(Entry::Members(_)) => KvEvent::Failed(WRONG_KIND.to_string()),
            },
            KvCommand::Write { key, value } => {
                self.entries.insert(key.clone(), Entry::Text(value.clone()));
                KvEvent::Done
            }
            KvCommand::IndexAdd { index, member } => {
                let entry = self
                    .entries
                    .entry(index.clone())
                    .or_insert_with(|| Entry::Members(BTreeSet::new()));
                match entry {
                    Entry::Members(members) => {
                        members.insert(member.clone());
                        KvEvent::Done
                    }
                    Entry::Text(_) => KvEvent::Failed(WRONG_KIND.to_string()),
                }
            }
            KvCommand::Read { key } => match self.entries.get(key) {
                None => KvEvent::Value(None),
                Some(Entry::Text(text)) => KvEvent::Value(Some(text.clone())),
                Some(Entry::Members(_)) => KvEvent::Failed(WRONG_KIND.to_string()),
            },
            KvCommand::Exists { key } => KvEvent::Exists(self.entries.contains_key(key)),
            KvCommand::IndexMembers { index } => match self.entries.get(index) {
                None => KvEvent::Members(Vec::new()),
                Some(Entry::Members(members)) => {
                    KvEvent::Members(members.iter().cloned().collect())
                }
                Some(Entry::Text(_)) => KvEvent::Failed(WRONG_KIND.to_string()),
            },
            KvCommand::ReadMany { keys } => {
                KvEvent::Values(keys.iter().map(|key| self.text(key)).collect())
            }
            KvCommand::RemoveIndexed { key, index } => {
                let records = if self.entries.remove(key).is_some() { 1 } else { 0 };
                match self.entries.get_mut(index) {
                    None => KvEvent::Removed { records, entries: 0 },
                    Some(Entry::Members(members)) => {
                        let entries = if members.remove(key) { 1 } else { 0 };
                        if members.is_empty() {
                            self.entries.remove(index);
                        }
                        KvEvent::Removed { records, entries }
                    }
                    Some(Entry::Text(_)) => KvEvent::Failed(WRONG_KIND.to_string()),
                }
            }
        };
        self.commands.push(command);
        event
    }
}

fn text_field(object: &serde_json::Map<String, serde_json::Value>, name: &str) -> Option<String> {
    object.get(name)?.as_str().map(|text| text.to_string())
}

fn number_field(object: &serde_json::Map<String, serde_json::Value>, name: &str) -> Option<usize> {
    object.get(name)?.as_u64().map(|number| number as usize)
}

fn encode(item: &Item) -> String {
    let mut object = serde_json::Map::new();
    object.insert("id".to_string(), serde_json::Value::from(item.id));
    object.insert("name".to_string(), serde_json::Value::from(item.name.clone()));
    object.insert("description".to_string(), serde_json::Value::from(item.description.clone()));
    object.insert("count".to_string(), serde_json::Value::from(item.count));
    object.insert("height".to_string(), serde_json::Value::from(item.height));
    object.insert("weight".to_string(), serde_json::Value::from(item.weight));
    serde_json::Value::Object(object).to_string()
}

fn decode(text: &str) -> Result<Item, String> {
    let value: serde_json::Value = serde_json::from_str(text).map_err(|e| e.to_string())?;
    let object = value.as_object().ok_or("not an object".to_string())?;
    let missing = || "missing field".to_string();
    Ok(Item {
        id: number_field(object, "id").ok_or_else(missing)?,
        name: text_field(object, "name").ok_or_else(missing)?,
        description: text_field(object, "description").ok_or_else(missing)?,
        count: number_field(object, "count").ok_or_else(missing)?,
        height: number_field(object, "height").ok_or_else(missing)?,
        weight: number_field(object, "weight").ok_or_else(missing)?,
    })
}

/// Serves one request the way the application does.
fn serve(backend: &mut Backend, request: KvRequest) -> KvEvent {
    match request {
        KvRequest::Backend(command) => backend.execute(command),
        KvRequest::Encode(item) => KvEvent::Encoded(encode(&item)),
        KvRequest::Decode(text) => match decode(&text) {
            Ok(item) => KvEvent::Decoded(item),
            Err(detail) => KvEvent::Failed(detail),
        },
        KvRequest::DecodeEach(texts) => KvEvent::DecodedEach(
            texts.into_iter().map(|text| text.and_then(|text| decode(&text).ok())).collect(),
        ),
    }
}

/// Runs one operation to its end with nothing else touching the backend.
fn run<S>(
    backend: &mut Backend,
    start: S,
    step: fn(S, KvEvent) -> KvStep<S>,
) -> Result<KvOutcome, Error> {
    let mut state = start;
    let mut event = KvEvent::Connected;
    loop {
        match step(state, event) {
            KvStep::Finish(result) => return result,
            KvStep::Continue(next, request) => {
                state = next;
                event = serve(backend, request);
            }
        }
    }
}

fn payload(name: &str, description: &str, count: usize, height: usize, weight: usize)
    -> CreateItemPayload {
    CreateItemPayload {
        name: name.to_string(),
        description: description.to_string(),
        count,
        height,
        weight,
    }
}

fn bolt() -> CreateItemPayload {
    payload("bolt", "M6", 10, 1, 5)
}

fn create(backend: &mut Backend, payload: CreateItemPayload) -> Result<KvOutcome, Error> {
    run(backend, CreateItem::Connecting(payload), create_item)
}

fn get(backend: &mut Backend, id: usize) -> Result<KvOutcome, Error> {
    run(backend, GetItem::Connecting(id), get_item)
}

fn list(backend: &mut Backend) -> Result<KvOutcome, Error> {
    run(backend, GetItems::Connecting, get_items)
}

fn update(backend: &mut Backend, id: usize, payload: CreateItemPayload)
    -> Result<KvOutcome, Error> {
    run(backend, UpdateItem::Connecting(id, payload), update_item)
}

fn delete(backend: &mut Backend, id: usize) -> Result<KvOutcome, Error> {
    run(backend, DeleteItem::Connecting(id), delete_item)
}

fn created(result: Result<KvOutcome, Error>) -> Item {
    match result {
        Ok(KvOutcome::Created(item)) => item,
        other => panic!("not created: {:?}", other),
    }
}

fn listed(result: Result<KvOutcome, Error>) -> Vec<Item> {
    match result {
        Ok(KvOutcome::Listed(items)) => items,
        other => panic!("not listed: {:?}", other),
    }
}

#[test]
fn bolt_is_created_fetched_deleted_and_gone() {
    let mut backend = Backend::new();

    let outcome = create(&mut backend, bolt()).unwrap();
    assert_eq!(outcome.status_code(), 201);
    let expected = Item {
        id: 1,
        name: "bolt".to_string(),
        description: "M6".to_string(),
        count: 10,
        height: 1,
        weight: 5,
    };
    assert_eq!(outcome, KvOutcome::Created(expected.clone()));

    let fetched = get(&mut backend, 1).unwrap();
    assert_eq!(fetched.status_code(), 200);
    assert_eq!(fetched, KvOutcome::Fetched(expected));

    let deleted = delete(&mut backend, 1).unwrap();
    assert_eq!(deleted, KvOutcome::Deleted);
    assert_eq!(deleted.status_code(), 204);

    let gone = get(&mut backend, 1).unwrap_err();
    assert_eq!(gone, Error::NotFound("Item ID: 1".to_string()));
    assert_eq!(gone.status_code(), 404);
}

#[test]
fn create_asks_for_counter_codec_write_and_index_in_turn() {
    let step = create_item(CreateItem::Connecting(bolt()), KvEvent::Connected);
    assert_eq!(
        step,
        KvStep::Continue(
            CreateItem::Allocating(bolt()),
            KvRequest::Backend(KvCommand::Increment { key: "next_item_id".to_string() }),
        )
    );
    let item = Item::new(7, bolt());
    let step = create_item(CreateItem::Allocating(bolt()), KvEvent::Counter(7));
    assert_eq!(
        step,
        KvStep::Continue(CreateItem::Encoding(item.clone()), KvRequest::Encode(item.clone()))
    );
    let step = create_item(CreateItem::Encoding(item.clone()), KvEvent::Encoded("{}".to_string()));
    assert_eq!(
        step,
        KvStep::Continue(
            CreateItem::Storing(item.clone()),
            KvRequest::Backend(KvCommand::Write {
                key: "item:7".to_string(),
                value: "{}".to_string()
            }),
        )
    );
    let step = create_item(CreateItem::Storing(item.clone()), KvEvent::Done);
    assert_eq!(
        step,
        KvStep::Continue(
            CreateItem::Indexing(item.clone()),
            KvRequest::Backend(KvCommand::IndexAdd {
                index: "items_index".to_string(),
                member: "item:7".to_string()
            }),
        )
    );
    let step = create_item(CreateItem::Indexing(item.clone()), KvEvent::Done);
    assert_eq!(step, KvStep::Finish(Ok(KvOutcome::Created(item))));
}

#[test]
fn created_record_is_fetched_as_returned() {
    let mut backend = Backend::new();
    for (n, p) in [
        payload("", "", 0, 0, 0),
        payload("nut \"M8\"", "line\nbreak", usize::MAX, 2, 3),
        payload("washer", "é ü 漢", 1, 1, 1),
    ]
    .into_iter()
    .enumerate()
    {
        let item = created(create(&mut backend, p));
        assert_eq!(item.id, n + 1);
        assert_eq!(get(&mut backend, item.id), Ok(KvOutcome::Fetched(item)));
    }
}

#[test]
fn get_on_unknown_identifier_is_not_found() {
    let mut backend = Backend::new();
    assert_eq!(get(&mut backend, 0), Err(Error::NotFound("Item ID: 0".to_string())));
    let item = created(create(&mut backend, bolt()));
    assert_eq!(item.id, 1);
    assert_eq!(get(&mut backend, 2), Err(Error::NotFound("Item ID: 2".to_string())));
    assert_eq!(get(&mut backend, 10), Err(Error::NotFound("Item ID: 10".to_string())));
    assert_eq!(
        get(&mut backend, usize::MAX),
        Err(Error::NotFound(format!("Item ID: {}", usize::MAX)))
    );
}

#[test]
fn deleted_record_is_neither_fetched_nor_listed() {
    let mut backend = Backend::new();
    let first = created(create(&mut backend, bolt()));
    let second = created(create(&mut backend, payload("nut", "M6", 4, 1, 2)));
    let third = created(create(&mut backend, payload("washer", "M6", 9, 1, 1)));
    assert_eq!(listed(list(&mut backend)), vec![first.clone(), second.clone(), third.clone()]);

    assert_eq!(delete(&mut backend, second.id), Ok(KvOutcome::Deleted));
    assert_eq!(get(&mut backend, second.id), Err(Error::NotFound("Item ID: 2".to_string())));
    let rest = listed(list(&mut backend));
    assert!(rest.iter().all(|item| item.id != second.id));
    assert_eq!(rest, vec![first, third]);
    assert_eq!(backend.members("items_index"), vec!["item:1".to_string(), "item:3".to_string()]);
}

#[test]
fn delete_of_missing_record_is_not_found() {
    let mut backend = Backend::new();
    assert_eq!(delete(&mut backend, 5), Err(Error::NotFound("Item ID: 5".to_string())));
    created(create(&mut backend, bolt()));
    assert_eq!(delete(&mut backend, 1), Ok(KvOutcome::Deleted));
    assert_eq!(delete(&mut backend, 1), Err(Error::NotFound("Item ID: 1".to_string())));
    assert!(backend.entries.get("items_index").is_none());
}

#[test]
fn delete_is_one_transaction_on_key_and_index() {
    let step = delete_item(DeleteItem::Connecting(12), KvEvent::Connected);
    assert_eq!(
        step,
        KvStep::Continue(
            DeleteItem::Removing(12),
            KvRequest::Backend(KvCommand::RemoveIndexed {
                key: "item:12".to_string(),
                index: "items_index".to_string()
            }),
        )
    );
    // The record existed but the index did not list it: still a success.
    let step = delete_item(DeleteItem::Removing(12), KvEvent::Removed { records: 1, entries: 0 });
    assert_eq!(step, KvStep::Finish(Ok(KvOutcome::Deleted)));
    // The index listed a key that held nothing: the record did not exist.
    let step = delete_item(DeleteItem::Removing(12), KvEvent::Removed { records: 0, entries: 1 });
    assert_eq!(step, KvStep::Finish(Err(Error::NotFound("Item ID: 12".to_string()))));
}

#[test]
fn interleaved_creates_draw_distinct_identifiers_without_gaps() {
    let mut backend = Backend::new();
    let mut running: Vec<Option<(CreateItem, KvEvent)>> = (0..100)
        .map(|n| {
            Some((CreateItem::Connecting(payload("part", "", n, 0, 0)), KvEvent::Connected))
        })
        .collect();
    let mut ids: Vec<usize> = Vec::new();
    let mut round = 0;
    while ids.len() < 100 {
        // Advance the operations one request each, in an order that changes
        // from round to round.
        for k in 0..100 {
            let slot = (k * 37 + round * 11) % 100;
            if let Some((state, event)) = running[slot].take() {
                match create_item(state, event) {
                    KvStep::Finish(result) => ids.push(created(result).id),
                    KvStep::Continue(next, request) => {
                        let event = serve(&mut backend, request);
                        running[slot] = Some((next, event));
                    }
                }
            }
        }
        round += 1;
    }
    let distinct: BTreeSet<usize> = ids.iter().cloned().collect();
    assert_eq!(distinct.len(), 100);
    assert_eq!(distinct, (1..=100).collect::<BTreeSet<usize>>());
    assert_eq!(backend.text("next_item_id"), Some("100".to_string()));
    assert_eq!(listed(list(&mut backend)).len(), 100);
}

#[test]
fn update_keeps_identifier_and_replaces_other_fields() {
    let mut backend = Backend::new();
    let item = created(create(&mut backend, bolt()));
    let updated = update(&mut backend, item.id, payload("screw", "M4", 3, 2, 7));
    let expected = Item {
        id: 1,
        name: "screw".to_string(),
        description: "M4".to_string(),
        count: 3,
        height: 2,
        weight: 7,
    };
    assert_eq!(updated, Ok(KvOutcome::Updated(expected.clone())));
    assert_eq!(updated.unwrap().status_code(), 200);
    assert_eq!(get(&mut backend, 1), Ok(KvOutcome::Fetched(expected.clone())));
    assert_eq!(listed(list(&mut backend)), vec![expected]);
}

#[test]
fn update_of_missing_record_is_not_found_and_changes_nothing() {
    let mut backend = Backend::new();
    created(create(&mut backend, bolt()));
    let before = backend.snapshot();
    assert_eq!(
        update(&mut backend, 2, payload("screw", "M4", 3, 2, 7)),
        Err(Error::NotFound("Item ID: 2".to_string()))
    );
    assert_eq!(backend.snapshot(), before);
    assert_eq!(backend.commands.last(), Some(&KvCommand::Exists { key: item_key(2) }));
}

#[test]
fn record_is_fetchable_but_unlisted_between_write_and_index() {
    let mut backend = Backend::new();
    let mut state = CreateItem::Connecting(bolt());
    let mut event = KvEvent::Connected;
    // Stop once the record is written and the index update is pending.
    let pending = loop {
        match create_item(state, event) {
            KvStep::Continue(next, request) => {
                if let KvRequest::Backend(KvCommand::IndexAdd { .. }) = request {
                    break (next, request);
                }
                state = next;
                event = serve(&mut backend, request);
            }
            KvStep::Finish(result) => panic!("finished early: {:?}", result),
        }
    };
    assert_eq!(get(&mut backend, 1), Ok(KvOutcome::Fetched(Item::new(1, bolt()))));
    assert_eq!(listed(list(&mut backend)), Vec::<Item>::new());

    let event = serve(&mut backend, pending.1);
    assert_eq!(
        create_item(pending.0, event),
        KvStep::Finish(Ok(KvOutcome::Created(Item::new(1, bolt()))))
    );
    assert_eq!(listed(list(&mut backend)), vec![Item::new(1, bolt())]);
}

#[test]
fn listing_an_empty_index_makes_no_bulk_fetch() {
    let mut backend = Backend::new();
    assert_eq!(list(&mut backend), Ok(KvOutcome::Listed(Vec::new())));
    assert_eq!(
        backend.commands,
        vec![KvCommand::IndexMembers { index: "items_index".to_string() }]
    );
    assert_eq!(
        get_items(GetItems::ReadingIndex, KvEvent::Members(vec!["item:3".to_string()])),
        KvStep::Continue(
            GetItems::Fetching,
            KvRequest::Backend(KvCommand::ReadMany { keys: vec!["item:3".to_string()] })
        )
    );
}

#[test]
fn listing_drops_missing_and_unreadable_records() {
    let mut backend = Backend::new();
    let first = created(create(&mut backend, bolt()));
    created(create(&mut backend, payload("nut", "M6", 4, 1, 2)));
    let third = created(create(&mut backend, payload("washer", "M6", 9, 1, 1)));
    // The second record's text is damaged; a fourth key is indexed but gone.
    backend.execute(KvCommand::Write { key: item_key(2), value: "not a record".to_string() });
    backend.execute(KvCommand::IndexAdd {
        index: "items_index".to_string(),
        member: item_key(4),
    });
    assert_eq!(listed(list(&mut backend)), vec![first.clone(), third.clone()]);

    let entries = vec![None, Some(first.clone()), None, None, Some(third.clone()), None];
    assert_eq!(collect_items(entries), vec![first, third]);
    assert_eq!(collect_items(Vec::new()), Vec::<Item>::new());
    assert_eq!(collect_items(vec![None, None]), Vec::<Item>::new());
}

#[test]
fn get_reports_unreadable_record_as_backend_failure() {
    let mut backend = Backend::new();
    backend.execute(KvCommand::Write { key: item_key(1), value: "{".to_string() });
    match get(&mut backend, 1) {
        Err(Error::BackendError(_)) => {}
        other => panic!("unexpected: {:?}", other),
    }
    assert_eq!(
        get_item(GetItem::Decoding, KvEvent::Failed("bad text".to_string())),
        KvStep::Finish(Err(Error::BackendError("bad text".to_string())))
    );
}

#[test]
fn pool_failure_ends_every_operation_as_pool_error() {
    let down = || KvEvent::Unavailable("Timed out in bb8".to_string());
    let expected = Error::PoolError("Timed out in bb8".to_string());
    assert_eq!(
        create_item(CreateItem::Connecting(bolt()), down()),
        KvStep::Finish(Err(expected.clone()))
    );
    assert_eq!(get_items(GetItems::Connecting, down()), KvStep::Finish(Err(expected.clone())));
    assert_eq!(get_item(GetItem::Connecting(1), down()), KvStep::Finish(Err(expected.clone())));
    assert_eq!(
        update_item(UpdateItem::Connecting(1, bolt()), down()),
        KvStep::Finish(Err(expected.clone()))
    );
    assert_eq!(
        delete_item(DeleteItem::Connecting(1), down()),
        KvStep::Finish(Err(expected.clone()))
    );
    assert_eq!(expected.status_code(), 500);
}

#[test]
fn backend_failure_ends_every_operation_as_backend_error() {
    let broken = || KvEvent::Failed("connection reset".to_string());
    let expected = Error::BackendError("connection reset".to_string());
    assert_eq!(
        create_item(CreateItem::Allocating(bolt()), broken()),
        KvStep::Finish(Err(expected.clone()))
    );
    assert_eq!(
        create_item(CreateItem::Storing(Item::new(1, bolt())), broken()),
        KvStep::Finish(Err(expected.clone()))
    );
    assert_eq!(get_items(GetItems::Fetching, broken()), KvStep::Finish(Err(expected.clone())));
    assert_eq!(get_item(GetItem::Fetching(1), broken()), KvStep::Finish(Err(expected.clone())));
    assert_eq!(
        update_item(UpdateItem::Checking(1, bolt()), broken()),
        KvStep::Finish(Err(expected.clone()))
    );
    assert_eq!(delete_item(DeleteItem::Removing(1), broken()), KvStep::Finish(Err(expected)));
}

#[test]
fn event_out_of_turn_ends_operation_as_backend_error() {
    let expected =
        Error::BackendError("the reported event does not answer the pending request".to_string());
    assert_eq!(
        create_item(CreateItem::Connecting(bolt()), KvEvent::Done),
        KvStep::Finish(Err(expected.clone()))
    );
    assert_eq!(
        get_item(GetItem::Fetching(1), KvEvent::Exists(true)),
        KvStep::Finish(Err(expected.clone()))
    );
    assert_eq!(
        delete_item(DeleteItem::Removing(1), KvEvent::Connected),
        KvStep::Finish(Err(expected.clone()))
    );
    assert_eq!(interrupted(KvEvent::Counter(3)), expected);
    assert_eq!(
        interrupted(KvEvent::Unavailable("x".to_string())),
        Error::PoolError("x".to_string())
    );
    assert_eq!(interrupted(KvEvent::Failed("y".to_string())), Error::BackendError("y".to_string()));
}

#[test]
fn create_fails_when_index_key_holds_text_but_record_stays_fetchable() {
    let mut backend = Backend::new();
    backend.execute(KvCommand::Write {
        key: "items_index".to_string(),
        value: "text".to_string(),
    });
    assert_eq!(create(&mut backend, bolt()), Err(Error::BackendError(WRONG_KIND.to_string())));
    assert_eq!(get(&mut backend, 1), Ok(KvOutcome::Fetched(Item::new(1, bolt()))));
    assert_eq!(list(&mut backend), Err(Error::BackendError(WRONG_KIND.to_string())));
}

#[test]
fn item_not_found_names_the_identifier() {
    assert_eq!(item_not_found(0), Error::NotFound("Item ID: 0".to_string()));
    assert_eq!(item_not_found(907), Error::NotFound("Item ID: 907".to_string()));
}

#[test]
fn outcome_status_codes() {
    let item = Item::new(1, bolt());
    assert_eq!(KvOutcome::Created(item.clone()).status_code(), 201);
    assert_eq!(KvOutcome::Listed(vec![item.clone()]).status_code(), 200);
    assert_eq!(KvOutcome::Fetched(item.clone()).status_code(), 200);
    assert_eq!(KvOutcome::Updated(item).status_code(), 200);
    assert_eq!(KvOutcome::Deleted.status_code(), 204);
}
