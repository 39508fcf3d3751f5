//! What the interactive command-line client decides: how it reads the
//! operator's answers, which address it calls, and how it applies the
//! operator's edits to a record.

use vstd::prelude::*;
use vstd::string::*;
use crate::key::{decimal, decimal_text};
use crate::text::same;
use crate::record::{CreateItemPayload, CreateItemPayloadView, Datas, DatasPayload,
    DatasPayloadView, DatasView, Item, ItemView};

verus! {

/// What the operator asks the client to do.
#[derive(Debug, Clone, Copy, PartialEq, Eq, Structural)]
pub enum Action {
    Get,
    Post,
    Put,
    Delete,
    Exit,
}

/// What the operator picks when editing an [`Item`].
#[derive(Debug, Clone, Copy, PartialEq, Eq, Structural)]
pub enum ItemField {
    Name,
    Description,
    Count,
    Height,
    Weight,
    Done,
}

/// What the operator picks when editing a [`Datas`] row.
#[derive(Debug, Clone, Copy, PartialEq, Eq, Structural)]
pub enum DatasField {
    Name,
    Flags,
    Sys,
    Done,
}

/// A new value for one field of an [`Item`].
#[derive(Debug, PartialEq)]
pub enum ItemEdit {
    Name(String),
    Description(String),
    Count(usize),
    Height(usize),
    Weight(usize),
}

/// A new value for one column of a [`Datas`] row.
#[derive(Debug, PartialEq)]
pub enum DatasEdit {
    Name(String),
    Flags(i64),
    Sys(i16),
}

/// How the server answered a deletion.
#[derive(Debug, Clone, Copy, PartialEq, Eq, Structural)]
pub enum DeleteReply {
    Deleted,
    Missing,
    Refused,
}

pub enum ItemEditView {
    Name(Seq<char>),
    Description(Seq<char>),
    Count(nat),
    Height(nat),
    Weight(nat),
}

pub enum DatasEditView {
    Name(Seq<char>),
    Flags(int),
    Sys(int),
}

impl DeepView for ItemEdit {
    type V = ItemEditView;

    open spec fn deep_view(&self) -> ItemEditView {
        self@
    }
}

impl DeepView for DatasEdit {
    type V = DatasEditView;

    open spec fn deep_view(&self) -> DatasEditView {
        self@
    }
}

impl View for ItemEdit {
    type V = ItemEditView;

    open spec fn view(&self) -> ItemEditView {
        match self {
            ItemEdit::Name(name) => ItemEditView::Name(name@),
            ItemEdit::Description(description) => ItemEditView::Description(description@),
            ItemEdit::Count(count) => ItemEditView::Count(*count as nat),
            ItemEdit::Height(height) => ItemEditView::Height(*height as nat),
            ItemEdit::Weight(weight) => ItemEditView::Weight(*weight as nat),
        }
    }
}

impl View for DatasEdit {
    type V = DatasEditView;

    open spec fn view(&self) -> DatasEditView {
        match self {
            DatasEdit::Name(name) => DatasEditView::Name(name@),
            DatasEdit::Flags(flags) => DatasEditView::Flags(*flags as int),
            DatasEdit::Sys(sys) => DatasEditView::Sys(*sys as int),
        }
    }
}

/// The lower-case form of a text, as the standard library computes it.
pub uninterp spec fn lowercase_of(text: Seq<char>) -> Seq<char>;

/// `str::to_lowercase` of the standard library: the result is the argument's
/// lower-case form, which depends on the argument alone.
#[verifier::external_body]
fn lowercase(text: &str) -> (r: String)
    ensures
        r@ == lowercase_of(text@),
{
    text.to_lowercase()
}

/// The action that a lower-case word names: its number in the menu, or the
/// name of its HTTP method; `exit`, `quit` and `q` leave the client.
pub open spec fn action_named(word: Seq<char>) -> Option<Action> {
    if word == "1"@ || word == "get"@ {
        Some(Action::Get)
    } else if word == "2"@ || word == "post"@ {
        Some(Action::Post)
    } else if word == "3"@ || word == "put"@ {
        Some(Action::Put)
    } else if word == "4"@ || word == "delete"@ {
        Some(Action::Delete)
    } else if word == "exit"@ || word == "quit"@ || word == "q"@ {
        Some(Action::Exit)
    } else {
        None
    }
}

/// The answer that a lower-case word gives to a yes-or-no question.
pub open spec fn confirmation_named(word: Seq<char>) -> Option<bool> {
    if word == "yes"@ || word == "y"@ {
        Some(true)
    } else if word == "no"@ || word == "n"@ {
        Some(false)
    } else {
        None
    }
}

/// The field of an [`Item`] that a lower-case word names, by its name or its
/// first letter; `done`, `quit` and `q` end the editing.
pub open spec fn item_field_named(word: Seq<char>) -> Option<ItemField> {
    if word == "name"@ || word == "n"@ {
        Some(ItemField::Name)
    } else if word == "description"@ || word == "d"@ {
        Some(ItemField::Description)
    } else if word == "count"@ || word == "c"@ {
        Some(ItemField::Count)
    } else if word == "height"@ || word == "h"@ {
        Some(ItemField::Height)
    } else if word == "weight"@ || word == "w"@ {
        Some(ItemField::Weight)
    } else if word == "done"@ || word == "quit"@ || word == "q"@ {
        Some(ItemField::Done)
    } else {
        None
    }
}

/// The column of a [`Datas`] row that a lower-case word names, by its name
/// or its first letter; `done`, `quit` and `q` end the editing.
pub open spec fn datas_field_named(word: Seq<char>) -> Option<DatasField> {
    if word == "name"@ || word == "n"@ {
        Some(DatasField::Name)
    } else if word == "flags"@ || word == "f"@ {
        Some(DatasField::Flags)
    } else if word == "sys"@ || word == "s"@ {
        Some(DatasField::Sys)
    } else if word == "done"@ || word == "quit"@ || word == "q"@ {
        Some(DatasField::Done)
    } else {
        None
    }
}

/// The action that a lower-case word names, if any.
pub fn action_of_word(word: &str) -> (r: Option<Action>)
    ensures
        r == action_named(word@),
{
    if same(word, "1") || same(word, "get") {
        Some(Action::Get)
    } else if same(word, "2") || same(word, "post") {
        Some(Action::Post)
    } else if same(word, "3") || same(word, "put") {
        Some(Action::Put)
    } else if same(word, "4") || same(word, "delete") {
        Some(Action::Delete)
    } else if same(word, "exit") || same(word, "quit") || same(word, "q") {
        Some(Action::Exit)
    } else {
        None
    }
}

/// The answer that a lower-case word gives to a yes-or-no question, if any.
pub fn confirmation_of_word(word: &str) -> (r: Option<bool>)
    ensures
        r == confirmation_named(word@),
{
    if same(word, "yes") || same(word, "y") {
        Some(true)
    } else if same(word, "no") || same(word, "n") {
        Some(false)
    } else {
        None
    }
}

/// The field of an [`Item`] that a lower-case word names, if any.
pub fn item_field_of_word(word: &str) -> (r: Option<ItemField>)
    ensures
        r == item_field_named(word@),
{
    if same(word, "name") || same(word, "n") {
        Some(ItemField::Name)
    } else if same(word, "description") || same(word, "d") {
        Some(ItemField::Description)
    } else if same(word, "count") || same(word, "c") {
        Some(ItemField::Count)
    } else if same(word, "height") || same(word, "h") {
        Some(ItemField::Height)
    } else if same(word, "weight") || same(word, "w") {
        Some(ItemField::Weight)
    } else if same(word, "done") || same(word, "quit") || same(word, "q") {
        Some(ItemField::Done)
    } else {
        None
    }
}

/// The column of a [`Datas`] row that a lower-case word names, if any.
pub fn datas_field_of_word(word: &str) -> (r: Option<DatasField>)
    ensures
        r == datas_field_named(word@),
{
    if same(word, "name") || same(word, "n") {
        Some(DatasField::Name)
    } else if same(word, "flags") || same(word, "f") {
        Some(DatasField::Flags)
    } else if same(word, "sys") || same(word, "s") {
        Some(DatasField::Sys)
    } else if same(word, "done") || same(word, "quit") || same(word, "q") {
        Some(DatasField::Done)
    } else {
        None
    }
}

/// The action that the operator's line names, whatever its case; none if
/// the line names no action and the operator is to be asked again.
pub fn read_action(line: &str) -> (r: Option<Action>)
    ensures
        r == action_named(lowercase_of(line@)),
{
    let word = lowercase(line);
    action_of_word(word.as_str())
}

/// The operator's answer to a yes-or-no question, whatever its case; none
/// if the line is no answer and the operator is to be asked again.
pub fn read_confirmation(line: &str) -> (r: Option<bool>)
    ensures
        r == confirmation_named(lowercase_of(line@)),
{
    let word = lowercase(line);
    confirmation_of_word(word.as_str())
}

/// The field of an [`Item`] that the operator's line names, whatever its
/// case.
pub fn read_item_field(line: &str) -> (r: Option<ItemField>)
    ensures
        r == item_field_named(lowercase_of(line@)),
{
    let word = lowercase(line);
    item_field_of_word(word.as_str())
}

/// The column of a [`Datas`] row that the operator's line names, whatever
/// its case.
pub fn read_datas_field(line: &str) -> (r: Option<DatasField>)
    ensures
        r == datas_field_named(lowercase_of(line@)),
{
    let word = lowercase(line);
    datas_field_of_word(word.as_str())
}

pub open spec fn is_digit(c: char) -> bool {
    '0' <= c && c <= '9'
}

pub open spec fn digit_value(c: char) -> nat {
    (c as nat - '0' as nat) as nat
}

/// The number that a run of decimal digits writes.
pub open spec fn digits_value(digits: Seq<char>) -> nat
    decreases digits.len(),
{
    if digits.len() == 0 {
        0
    } else {
        10 * digits_value(digits.drop_last()) + digit_value(digits.last())
    }
}

/// The number that a text made of one or more decimal digits writes. Any
/// other text writes none.
pub open spec fn digits_in(digits: Seq<char>) -> Option<nat> {
    if digits.len() > 0 && (forall|i: int| 0 <= i < digits.len() ==> is_digit(#[trigger] digits[i])) {
        Some(digits_value(digits))
    } else {
        None
    }
}

/// The part of a text that follows its plus sign, if it starts with one.
pub open spec fn unsigned_part(text: Seq<char>) -> Seq<char> {
    if text.len() > 0 && text[0] == '+' {
        text.skip(1)
    } else {
        text
    }
}

/// The natural number that a text writes: decimal digits, which a plus sign
/// may precede.
pub open spec fn number_in(text: Seq<char>) -> Option<nat> {
    digits_in(unsigned_part(text))
}

/// The integer that a text writes: decimal digits, which a plus sign or a
/// minus sign may precede.
pub open spec fn integer_in(text: Seq<char>) -> Option<int> {
    if text.len() > 0 && text[0] == '-' {
        match digits_in(text.skip(1)) {
            Some(n) => Some(-(n as int)),
            None => None,
        }
    } else {
        match number_in(text) {
            Some(n) => Some(n as int),
            None => None,
        }
    }
}

proof fn lemma_digits_value_grows(digits: Seq<char>, k: int)
    requires
        0 <= k <= digits.len(),
    ensures
        digits_value(digits.take(k)) <= digits_value(digits),
    decreases digits.len() - k,
{
    if k < digits.len() {
        assert(digits.take(k + 1).drop_last() =~= digits.take(k));
        lemma_digits_value_grows(digits, k + 1);
    } else {
        assert(digits.take(k) =~= digits);
    }
}

/// The number that the characters of `text` from position `start` on write,
/// if they are digits and the number fits.
fn magnitude(text: &str, start: usize) -> (r: Option<u64>)
    requires
        start <= text@.len(),
    ensures
        r == match digits_in(text@.skip(start as int)) {
            Some(n) => if n <= u64::MAX {
                Some(n as u64)
            } else {
                None
            },
            None => None,
        },
{
    let n = text.unicode_len();
    if start == n {
        return None;
    }
    let ghost digits = text@.skip(start as int);
    let mut value: u64 = 0;
    let mut i: usize = start;
    assert(digits.take(0) =~= Seq::empty());
    while i < n
        invariant
            start <= i <= n,
            n == text@.len(),
            digits == text@.skip(start as int),
            value == digits_value(digits.take(i - start)),
            forall|j: int| 0 <= j < i - start ==> is_digit(#[trigger] digits[j]),
        decreases n - i,
    {
        let c = text.get_char(i);
        assert(c == digits[i - start]);
        if c < '0' || c > '9' {
            assert(!is_digit(digits[i - start]));
            return None;
        }
        let d: u64 = (c as u32 - '0' as u32) as u64;
        assert(d == digit_value(c));
        proof {
            assert(digits.take(i - start + 1).drop_last() =~= digits.take(i - start));
            assert(digits.take(i - start + 1).last() == c);
            lemma_digits_value_grows(digits, i - start + 1);
        }
        if value > (u64::MAX - d) / 10 {
            return None;
        }
        value = value * 10 + d;
        i = i + 1;
    }
    assert(digits.take(i - start) =~= digits);
    Some(value)
}

/// The natural number that the operator's line writes, if it writes one
/// that fits.
pub fn parse_usize(text: &str) -> (r: Option<usize>)
    ensures
        r == match number_in(text@) {
            Some(n) => if n <= usize::MAX {
                Some(n as usize)
            } else {
                None
            },
            None => None,
        },
{
    let n = text.unicode_len();
    let start: usize = if n > 0 && text.get_char(0) == '+' {
        1
    } else {
        0
    };
    assert(unsigned_part(text@) =~= text@.skip(start as int));
    match magnitude(text, start) {
        Some(value) => if value <= usize::MAX as u64 {
            Some(value as usize)
        } else {
            None
        },
        None => None,
    }
}

/// The integer that the operator's line writes, if it writes one that fits.
pub fn parse_i64(text: &str) -> (r: Option<i64>)
    ensures
        r == match integer_in(text@) {
            Some(n) => if i64::MIN <= n <= i64::MAX {
                Some(n as i64)
            } else {
                None
            },
            None => None,
        },
{
    let n = text.unicode_len();
    if n > 0 && text.get_char(0) == '-' {
        match magnitude(text, 1) {
            Some(value) => if value <= 0x7fff_ffff_ffff_ffff {
                Some(-(value as i64))
            } else if value == 0x8000_0000_0000_0000 {
                Some(i64::MIN)
            } else {
                None
            },
            None => None,
        }
    } else {
        let start: usize = if n > 0 && text.get_char(0) == '+' {
            1
        } else {
            0
        };
        assert(unsigned_part(text@) =~= text@.skip(start as int));
        match magnitude(text, start) {
            Some(value) => if value <= 0x7fff_ffff_ffff_ffff {
                Some(value as i64)
            } else {
                None
            },
            None => None,
        }
    }
}

/// The integer that the operator's line writes, if it writes one that fits
/// sixteen bits.
pub fn parse_i16(text: &str) -> (r: Option<i16>)
    ensures
        r == match integer_in(text@) {
            Some(n) => if i16::MIN <= n <= i16::MAX {
                Some(n as i16)
            } else {
                None
            },
            None => None,
        },
{
    match parse_i64(text) {
        Some(value) => if -0x8000 <= value && value <= 0x7fff {
            Some(value as i16)
        } else {
            None
        },
        None => None,
    }
}

/// The address under which the server offers its collections.
pub open spec fn base_url() -> Seq<char> {
    "http://127.0.0.1:3000/api"@
}

/// The address of the resource at `path`.
pub fn resource_url(path: &str) -> (r: String)
    ensures
        r@ == base_url() + path@,
{
    let mut url = String::from_str("http://127.0.0.1:3000/api");
    url.append(path);
    url
}

/// The address of the collection of items.
pub fn items_url() -> (r: String)
    ensures
        r@ == base_url() + "/items"@,
{
    resource_url("/items")
}

/// The address of the item with identifier `id`.
pub fn item_url(id: usize) -> (r: String)
    ensures
        r@ == base_url() + "/items/"@ + decimal(id as nat),
{
    let mut url = resource_url("/items/");
    let digits = decimal_text(id);
    url.append(digits.as_str());
    url
}

/// The address of the collection of rows.
pub fn datas_url() -> (r: String)
    ensures
        r@ == base_url() + "/datas"@,
{
    resource_url("/datas")
}

/// The address of the row with primary key `id`.
pub fn data_url(id: usize) -> (r: String)
    ensures
        r@ == base_url() + "/datas/"@ + decimal(id as nat),
{
    let mut url = resource_url("/datas/");
    let digits = decimal_text(id);
    url.append(digits.as_str());
    url
}

/// The path that the operator means when browsing rows: a bare slash stands
/// for the collection of rows.
pub fn datas_path(path: String) -> (r: String)
    ensures
        r@ == (if path@ == "/"@ {
            "/datas"@
        } else {
            path@
        }),
{
    if same(path.as_str(), "/") {
        String::from_str("/datas")
    } else {
        path
    }
}

/// How the server's status answers a deletion: 204 confirms it, 404 says
/// that there was nothing to delete, and anything else is a refusal.
pub fn delete_reply(status: u16) -> (r: DeleteReply)
    ensures
        r == (if status == 204 {
            DeleteReply::Deleted
        } else if status == 404 {
            DeleteReply::Missing
        } else {
            DeleteReply::Refused
        }),
{
    if status == 204 {
        DeleteReply::Deleted
    } else if status == 404 {
        DeleteReply::Missing
    } else {
        DeleteReply::Refused
    }
}

/// The record with one field replaced.
pub open spec fn item_with(item: ItemView, edit: ItemEditView) -> ItemView {
    match edit {
        ItemEditView::Name(name) => ItemView { name, ..item },
        ItemEditView::Description(description) => ItemView { description, ..item },
        ItemEditView::Count(count) => ItemView { count, ..item },
        ItemEditView::Height(height) => ItemView { height, ..item },
        ItemEditView::Weight(weight) => ItemView { weight, ..item },
    }
}

/// The row with one column replaced.
pub open spec fn datas_with(row: DatasView, edit: DatasEditView) -> DatasView {
    match edit {
        DatasEditView::Name(name) => DatasView { name, ..row },
        DatasEditView::Flags(flags) => DatasView { flags, ..row },
        DatasEditView::Sys(sys) => DatasView { sys, ..row },
    }
}

/// The payload that replaces a record's fields with the record's own.
pub open spec fn payload_of_item(item: ItemView) -> CreateItemPayloadView {
    CreateItemPayloadView {
        name: item.name,
        description: item.description,
        count: item.count,
        height: item.height,
        weight: item.weight,
    }
}

/// The payload that replaces a row's columns with the row's own.
pub open spec fn payload_of_datas(row: DatasView) -> DatasPayloadView {
    DatasPayloadView { name: row.name, flags: row.flags, sys: row.sys }
}

/// Replaces one field of a record. The identifier cannot be edited.
pub fn edit_item(item: Item, edit: ItemEdit) -> (r: Item)
    ensures
        r@ == item_with(item@, edit@),
        r.id == item.id,
{
    let mut item = item;
    match edit {
        ItemEdit::Name(name) => {
            item.name = name;
        },
        ItemEdit::Description(description) => {
            item.description = description;
        },
        ItemEdit::Count(count) => {
            item.count = count;
        },
        ItemEdit::Height(height) => {
            item.height = height;
        },
        ItemEdit::Weight(weight) => {
            item.weight = weight;
        },
    }
    item
}

/// Replaces one column of a row. The primary key cannot be edited.
pub fn edit_datas_row(row: Datas, edit: DatasEdit) -> (r: Datas)
    ensures
        r@ == datas_with(row@, edit@),
        r.id == row.id,
{
    let mut row = row;
    match edit {
        DatasEdit::Name(name) => {
            row.name = name;
        },
        DatasEdit::Flags(flags) => {
            row.flags = flags;
        },
        DatasEdit::Sys(sys) => {
            row.sys = sys;
        },
    }
    row
}

/// The payload that an update sends for an edited record: every field but
/// the identifier.
pub fn item_payload(item: Item) -> (r: CreateItemPayload)
    ensures
        r@ == payload_of_item(item@),
{
    CreateItemPayload {
        name: item.name,
        description: item.description,
        count: item.count,
        height: item.height,
        weight: item.weight,
    }
}

/// The payload that an update sends for an edited row: every column but the
/// primary key.
pub fn datas_payload(row: Datas) -> (r: DatasPayload)
    ensures
        r@ == payload_of_datas(row@),
{
    DatasPayload { name: row.name, flags: row.flags, sys: row.sys }
}

/// The record after the edits were applied in their order.
pub open spec fn item_after(item: ItemView, edits: Seq<ItemEditView>) -> ItemView
    decreases edits.len(),
{
    if edits.len() == 0 {
        item
    } else {
        item_with(item_after(item, edits.drop_last()), edits.last())
    }
}

/// The row after the edits were applied in their order.
pub open spec fn datas_after(row: DatasView, edits: Seq<DatasEditView>) -> DatasView
    decreases edits.len(),
{
    if edits.len() == 0 {
        row
    } else {
        datas_with(datas_after(row, edits.drop_last()), edits.last())
    }
}

impl Clone for ItemEdit {
    fn clone(&self) -> (r: Self)
        ensures
            r == *self,
    {
        match self {
            ItemEdit::Name(name) => ItemEdit::Name(name.clone()),
            ItemEdit::Description(description) => ItemEdit::Description(description.clone()),
            ItemEdit::Count(count) => ItemEdit::Count(*count),
            ItemEdit::Height(height) => ItemEdit::Height(*height),
            ItemEdit::Weight(weight) => ItemEdit::Weight(*weight),
        }
    }
}

impl Clone for DatasEdit {
    fn clone(&self) -> (r: Self)
        ensures
            r == *self,
    {
        match self {
            DatasEdit::Name(name) => DatasEdit::Name(name.clone()),
            DatasEdit::Flags(flags) => DatasEdit::Flags(*flags),
            DatasEdit::Sys(sys) => DatasEdit::Sys(*sys),
        }
    }
}

/// The payload that an update sends after the operator's edits: the record
/// with the edits applied in their order, without its identifier. Without
/// any edit there is nothing to send.
pub fn edited_item_payload(item: Item, edits: &Vec<ItemEdit>) -> (r: Option<CreateItemPayload>)
    ensures
        r is Some <==> edits@.len() > 0,
        r matches Some(payload) ==> payload@ == payload_of_item(
            item_after(item@, edits.deep_view()),
        ),
{
    if edits.len() == 0 {
        return None;
    }
    let ghost start = item@;
    let ghost all = edits.deep_view();
    let mut item = item;
    let mut i: usize = 0;
    assert(all.take(0) =~= Seq::empty());
    while i < edits.len()
        invariant
            i <= edits.len(),
            all == edits.deep_view(),
            item@ == item_after(start, all.take(i as int)),
        decreases edits.len() - i,
    {
        assert(all.take(i + 1).drop_last() =~= all.take(i as int));
        assert(all.take(i + 1).last() == edits[i as int]@);
        item = edit_item(item, edits[i].clone());
        i = i + 1;
    }
    assert(all.take(i as int) =~= all);
    Some(item_payload(item))
}

/// The payload that an update sends after the operator's edits: the row
/// with the edits applied in their order, without its primary key. Without
/// any edit there is nothing to send.
pub fn edited_datas_payload(row: Datas, edits: &Vec<DatasEdit>) -> (r: Option<DatasPayload>)
    ensures
        r is Some <==> edits@.len() > 0,
        r matches Some(payload) ==> payload@ == payload_of_datas(
            datas_after(row@, edits.deep_view()),
        ),
{
    if edits.len() == 0 {
        return None;
    }
    let ghost start = row@;
    let ghost all = edits.deep_view();
    let mut row = row;
    let mut i: usize = 0;
    assert(all.take(0) =~= Seq::empty());
    while i < edits.len()
        invariant
            i <= edits.len(),
            all == edits.deep_view(),
            row@ == datas_after(start, all.take(i as int)),
        decreases edits.len() - i,
    {
        assert(all.take(i + 1).drop_last() =~= all.take(i as int));
        assert(all.take(i + 1).last() == edits[i as int]@);
        row = edit_datas_row(row, edits[i].clone());
        i = i + 1;
    }
    assert(all.take(i as int) =~= all);
    Some(datas_payload(row))
}

} // verus!
