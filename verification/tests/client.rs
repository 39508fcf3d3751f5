use hello_axum::client::{
    action_of_word, confirmation_of_word, data_url, datas_field_of_word, datas_path,
    datas_payload, datas_url, delete_reply, edit_datas_row, edit_item, edited_datas_payload,
    edited_item_payload, item_field_of_word, item_payload, item_url, items_url, parse_i16, parse_i64, parse_usize, read_action,
    read_confirmation, read_datas_field, read_item_field, resource_url, Action, DatasEdit,
    DatasField, DeleteReply, ItemEdit, ItemField,
};
use hello_axum::record::{CreateItemPayload, Datas, DatasPayload, Item};

#[test]
fn actions_by_number_and_by_name() {
    assert_eq!(action_of_word("1"), Some(Action::Get));
    assert_eq!(action_of_word("get"), Some(Action::Get));
    assert_eq!(action_of_word("2"), Some(Action::Post));
    assert_eq!(action_of_word("post"), Some(Action::Post));
    assert_eq!(action_of_word("3"), Some(Action::Put));
    assert_eq!(action_of_word("put"), Some(Action::Put));
    assert_eq!(action_of_word("4"), Some(Action::Delete));
    assert_eq!(action_of_word("delete"), Some(Action::Delete));
    assert_eq!(action_of_word("exit"), Some(Action::Exit));
    assert_eq!(action_of_word("quit"), Some(Action::Exit));
    assert_eq!(action_of_word("q"), Some(Action::Exit));
    assert_eq!(action_of_word(""), None);
    assert_eq!(action_of_word("5"), None);
    assert_eq!(action_of_word("GET"), None);
    assert_eq!(action_of_word("get "), None);
}

#[test]
fn action_is_read_whatever_its_case() {
    assert_eq!(read_action("GET"), Some(Action::Get));
    assert_eq!(read_action("Post"), Some(Action::Post));
    assert_eq!(read_action("pUt"), Some(Action::Put));
    assert_eq!(read_action("DELETE"), Some(Action::Delete));
    assert_eq!(read_action("EXIT"), Some(Action::Exit));
    assert_eq!(read_action("Q"), Some(Action::Exit));
    assert_eq!(read_action("1"), Some(Action::Get));
    assert_eq!(read_action("patch"), None);
}

#[test]
fn confirmation_is_read_whatever_its_case() {
    assert_eq!(confirmation_of_word("yes"), Some(true));
    assert_eq!(confirmation_of_word("y"), Some(true));
    assert_eq!(confirmation_of_word("no"), Some(false));
    assert_eq!(confirmation_of_word("n"), Some(false));
    assert_eq!(confirmation_of_word("YES"), None);
    assert_eq!(confirmation_of_word("maybe"), None);
    assert_eq!(read_confirmation("YES"), Some(true));
    assert_eq!(read_confirmation("Y"), Some(true));
    assert_eq!(read_confirmation("No"), Some(false));
    assert_eq!(read_confirmation("N"), Some(false));
    assert_eq!(read_confirmation(""), None);
}

#[test]
fn item_fields_by_name_and_first_letter() {
    assert_eq!(item_field_of_word("name"), Some(ItemField::Name));
    assert_eq!(item_field_of_word("n"), Some(ItemField::Name));
    assert_eq!(item_field_of_word("description"), Some(ItemField::Description));
    assert_eq!(item_field_of_word("d"), Some(ItemField::Description));
    assert_eq!(item_field_of_word("count"), Some(ItemField::Count));
    assert_eq!(item_field_of_word("c"), Some(ItemField::Count));
    assert_eq!(item_field_of_word("height"), Some(ItemField::Height));
    assert_eq!(item_field_of_word("h"), Some(ItemField::Height));
    assert_eq!(item_field_of_word("weight"), Some(ItemField::Weight));
    assert_eq!(item_field_of_word("w"), Some(ItemField::Weight));
    assert_eq!(item_field_of_word("done"), Some(ItemField::Done));
    assert_eq!(item_field_of_word("quit"), Some(ItemField::Done));
    assert_eq!(item_field_of_word("q"), Some(ItemField::Done));
    assert_eq!(item_field_of_word("id"), None);
    assert_eq!(read_item_field("Weight"), Some(ItemField::Weight));
    assert_eq!(read_item_field("DONE"), Some(ItemField::Done));
    assert_eq!(read_item_field("ID"), None);
}

#[test]
fn datas_fields_by_name_and_first_letter() {
    assert_eq!(datas_field_of_word("name"), Some(DatasField::Name));
    assert_eq!(datas_field_of_word("n"), Some(DatasField::Name));
    assert_eq!(datas_field_of_word("flags"), Some(DatasField::Flags));
    assert_eq!(datas_field_of_word("f"), Some(DatasField::Flags));
    assert_eq!(datas_field_of_word("sys"), Some(DatasField::Sys));
    assert_eq!(datas_field_of_word("s"), Some(DatasField::Sys));
    assert_eq!(datas_field_of_word("done"), Some(DatasField::Done));
    assert_eq!(datas_field_of_word("quit"), Some(DatasField::Done));
    assert_eq!(datas_field_of_word("q"), Some(DatasField::Done));
    assert_eq!(datas_field_of_word("id"), None);
    assert_eq!(read_datas_field("FLAGS"), Some(DatasField::Flags));
    assert_eq!(read_datas_field("Sys"), Some(DatasField::Sys));
}

#[test]
fn natural_numbers_parse_as_the_standard_library_parses_them() {
    let max = usize::MAX.to_string();
    let over = format!("{}0", usize::MAX);
    let next = "18446744073709551616";
    for text in [
        "", "+", "-", "0", "7", "+7", "007", "42", "-1", "-0", "4 2", " 42", "42 ", "4a", "a",
        "++1", "+-1", "１２", "1_000", "1e3", "0x10", max.as_str(), over.as_str(), next,
        "99999999999999999999999999",
    ] {
        assert_eq!(parse_usize(text), text.parse::<usize>().ok(), "{:?}", text);
    }
    assert_eq!(parse_usize("1234"), Some(1234));
    assert_eq!(parse_usize("+0"), Some(0));
}

#[test]
fn integers_parse_as_the_standard_library_parses_them() {
    for text in [
        "", "+", "-", "0", "-0", "+0", "7", "-7", "+7", "--7", "+-7", "-+7", "32767", "32768",
        "-32768", "-32769", "9223372036854775807", "9223372036854775808",
        "-9223372036854775808", "-9223372036854775809", "18446744073709551615",
        "18446744073709551616", "-18446744073709551616", "1a", "a1", " 1", "1 ", "-", "- 1",
    ] {
        assert_eq!(parse_i64(text), text.parse::<i64>().ok(), "{:?}", text);
        assert_eq!(parse_i16(text), text.parse::<i16>().ok(), "{:?}", text);
    }
    assert_eq!(parse_i64("-15"), Some(-15));
    assert_eq!(parse_i16("-15"), Some(-15));
}

#[test]
fn addresses_of_collections_and_members() {
    assert_eq!(resource_url("/items"), "http://127.0.0.1:3000/api/items");
    assert_eq!(resource_url(""), "http://127.0.0.1:3000/api");
    assert_eq!(items_url(), "http://127.0.0.1:3000/api/items");
    assert_eq!(item_url(17), "http://127.0.0.1:3000/api/items/17");
    assert_eq!(datas_url(), "http://127.0.0.1:3000/api/datas");
    assert_eq!(data_url(0), "http://127.0.0.1:3000/api/datas/0");
    assert_eq!(datas_path("/".to_string()), "/datas");
    assert_eq!(datas_path("/datas/3".to_string()), "/datas/3");
    assert_eq!(datas_path("".to_string()), "");
}

#[test]
fn delete_replies_by_status() {
    assert_eq!(delete_reply(204), DeleteReply::Deleted);
    assert_eq!(delete_reply(404), DeleteReply::Missing);
    assert_eq!(delete_reply(200), DeleteReply::Refused);
    assert_eq!(delete_reply(500), DeleteReply::Refused);
}

#[test]
fn edits_replace_one_field_and_never_the_identifier() {
    let item = Item {
        id: 4,
        name: "bolt".to_string(),
        description: "M6".to_string(),
        count: 10,
        height: 1,
        weight: 5,
    };
    let item = edit_item(item, ItemEdit::Name("nut".to_string()));
    let item = edit_item(item, ItemEdit::Description("M8".to_string()));
    let item = edit_item(item, ItemEdit::Count(11));
    let item = edit_item(item, ItemEdit::Height(2));
    let item = edit_item(item, ItemEdit::Weight(6));
    assert_eq!(
        item,
        Item {
            id: 4,
            name: "nut".to_string(),
            description: "M8".to_string(),
            count: 11,
            height: 2,
            weight: 6
        }
    );
    assert_eq!(
        item_payload(item),
        CreateItemPayload {
            name: "nut".to_string(),
            description: "M8".to_string(),
            count: 11,
            height: 2,
            weight: 6
        }
    );

    let row = Datas { id: 9, name: "cfg".to_string(), flags: 7, sys: 2 };
    let row = edit_datas_row(row, DatasEdit::Name("log".to_string()));
    let row = edit_datas_row(row, DatasEdit::Flags(-8));
    let row = edit_datas_row(row, DatasEdit::Sys(3));
    assert_eq!(row, Datas { id: 9, name: "log".to_string(), flags: -8, sys: 3 });
    assert_eq!(datas_payload(row), DatasPayload { name: "log".to_string(), flags: -8, sys: 3 });
}

#[test]
fn update_sends_edited_record_or_nothing_without_edits() {
    let item = Item {
        id: 4,
        name: "bolt".to_string(),
        description: "M6".to_string(),
        count: 10,
        height: 1,
        weight: 5,
    };
    assert_eq!(edited_item_payload(item.clone(), &Vec::new()), None);
    let edits = vec![
        ItemEdit::Count(11),
        ItemEdit::Name("nut".to_string()),
        ItemEdit::Count(12),
    ];
    assert_eq!(
        edited_item_payload(item, &edits),
        Some(CreateItemPayload {
            name: "nut".to_string(),
            description: "M6".to_string(),
            count: 12,
            height: 1,
            weight: 5
        })
    );

    let row = Datas { id: 9, name: "cfg".to_string(), flags: 7, sys: 2 };
    assert_eq!(edited_datas_payload(row.clone(), &Vec::new()), None);
    let edits = vec![DatasEdit::Sys(5), DatasEdit::Sys(6), DatasEdit::Flags(0)];
    assert_eq!(
        edited_datas_payload(row, &edits),
        Some(DatasPayload { name: "cfg".to_string(), flags: 0, sys: 6 })
    );
    assert_eq!(ItemEdit::Height(3).clone(), ItemEdit::Height(3));
    assert_eq!(DatasEdit::Name("n".to_string()).clone(), DatasEdit::Name("n".to_string()));
}
