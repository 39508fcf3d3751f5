use hello_axum::record::{
    CreateItemPayload, Datas, DatasPayload, Item, Niceties, NicetiesPaylod,
};

#[test]
fn item_takes_identifier_and_payload_fields() {
    let payload = CreateItemPayload {
        name: "bolt".to_string(),
        description: "M6".to_string(),
        count: 10,
        height: 1,
        weight: 5,
    };
    let item = Item::new(3, payload.clone());
    assert_eq!(
        item,
        Item {
            id: 3,
            name: "bolt".to_string(),
            description: "M6".to_string(),
            count: 10,
            height: 1,
            weight: 5
        }
    );
    assert_eq!(item.clone(), item);
    assert_eq!(payload.clone(), payload);
}

#[test]
fn datas_takes_key_and_payload_columns() {
    let payload = DatasPayload { name: "cfg".to_string(), flags: 7, sys: 2 };
    let row = Datas::new(-1, payload.clone());
    assert_eq!(row, Datas { id: -1, name: "cfg".to_string(), flags: 7, sys: 2 });
    assert_eq!(row.clone(), row);
    assert_eq!(payload.clone(), payload);
}

#[test]
fn niceties_clone_is_equal() {
    let row = Niceties { id: 1, datas_id: 2, mem: 3, stack: 4, info: "i".to_string() };
    assert_eq!(row.clone(), row);
    let payload = NicetiesPaylod { datas_id: 2, mem: 3, stack: 4, info: "i".to_string() };
    assert_eq!(payload.clone(), payload);
}
