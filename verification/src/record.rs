//! The records that the two backends keep, and the payloads that create or
//! replace them.

use vstd::prelude::*;

verus! {

/// A record of the key-value backend. Its identifier is drawn from the
/// backend's counter when the record is created and never changes.
#[derive(Debug, PartialEq)]
pub struct Item {
    pub id: usize,
    pub name: String,
    pub description: String,
    pub count: usize,
    pub height: usize,
    pub weight: usize,
}

/// What a caller supplies to create an [`Item`] or to replace its fields.
#[derive(Debug, PartialEq)]
pub struct CreateItemPayload {
    pub name: String,
    pub description: String,
    pub count: usize,
    pub height: usize,
    pub weight: usize,
}

/// A row of the relational backend. The database assigns its primary key.
#[derive(Debug, PartialEq)]
pub struct Datas {
    pub id: i32,
    pub name: String,
    pub flags: i64,
    pub sys: i16,
}

/// What a caller supplies to insert a [`Datas`] row or to replace its columns.
#[derive(Debug, PartialEq)]
pub struct DatasPayload {
    pub name: String,
    pub flags: i64,
    pub sys: i16,
}

/// A row that refers to a [`Datas`] row by its primary key.
#[derive(Debug, PartialEq)]
pub struct Niceties {
    pub id: i32,
    pub datas_id: i32,
    pub mem: i64,
    pub stack: i16,
    pub info: String,
}

/// What a caller supplies to insert a [`Niceties`] row.
#[derive(Debug, PartialEq)]
pub struct NicetiesPaylod {
    pub datas_id: i32,
    pub mem: i64,
    pub stack: i16,
    pub info: String,
}

pub struct ItemView {
    pub id: nat,
    pub name: Seq<char>,
    pub description: Seq<char>,
    pub count: nat,
    pub height: nat,
    pub weight: nat,
}

pub struct CreateItemPayloadView {
    pub name: Seq<char>,
    pub description: Seq<char>,
    pub count: nat,
    pub height: nat,
    pub weight: nat,
}

pub struct DatasView {
    pub id: int,
    pub name: Seq<char>,
    pub flags: int,
    pub sys: int,
}

pub struct DatasPayloadView {
    pub name: Seq<char>,
    pub flags: int,
    pub sys: int,
}

pub struct NicetiesView {
    pub id: int,
    pub datas_id: int,
    pub mem: int,
    pub stack: int,
    pub info: Seq<char>,
}

pub struct NicetiesPaylodView {
    pub datas_id: int,
    pub mem: int,
    pub stack: int,
    pub info: Seq<char>,
}

impl View for Item {
    type V = ItemView;

    open spec fn view(&self) -> ItemView {
        ItemView {
            id: self.id as nat,
            name: self.name@,
            description: self.description@,
            count: self.count as nat,
            height: self.height as nat,
            weight: self.weight as nat,
        }
    }
}

impl DeepView for Item {
    type V = ItemView;

    open spec fn deep_view(&self) -> ItemView {
        self@
    }
}

impl View for CreateItemPayload {
    type V = CreateItemPayloadView;

    open spec fn view(&self) -> CreateItemPayloadView {
        CreateItemPayloadView {
            name: self.name@,
            description: self.description@,
            count: self.count as nat,
            height: self.height as nat,
            weight: self.weight as nat,
        }
    }
}

impl View for Datas {
    type V = DatasView;

    open spec fn view(&self) -> DatasView {
        DatasView {
            id: self.id as int,
            name: self.name@,
            flags: self.flags as int,
            sys: self.sys as int,
        }
    }
}

impl DeepView for Datas {
    type V = DatasView;

    open spec fn deep_view(&self) -> DatasView {
        self@
    }
}

impl View for DatasPayload {
    type V = DatasPayloadView;

    open spec fn view(&self) -> DatasPayloadView {
        DatasPayloadView { name: self.name@, flags: self.flags as int, sys: self.sys as int }
    }
}

impl View for Niceties {
    type V = NicetiesView;

    open spec fn view(&self) -> NicetiesView {
        NicetiesView {
            id: self.id as int,
            datas_id: self.datas_id as int,
            mem: self.mem as int,
            stack: self.stack as int,
            info: self.info@,
        }
    }
}

impl View for NicetiesPaylod {
    type V = NicetiesPaylodView;

    open spec fn view(&self) -> NicetiesPaylodView {
        NicetiesPaylodView {
            datas_id: self.datas_id as int,
            mem: self.mem as int,
            stack: self.stack as int,
            info: self.info@,
        }
    }
}

/// The record that carries identifier `id` and the payload's fields.
pub open spec fn item_of(id: nat, payload: CreateItemPayloadView) -> ItemView {
    ItemView {
        id,
        name: payload.name,
        description: payload.description,
        count: payload.count,
        height: payload.height,
        weight: payload.weight,
    }
}

/// The row that carries primary key `id` and the payload's columns.
pub open spec fn datas_of(id: int, payload: DatasPayloadView) -> DatasView {
    DatasView { id, name: payload.name, flags: payload.flags, sys: payload.sys }
}

impl Clone for Item {
    fn clone(&self) -> (r: Self)
        ensures
            r == *self,
    {
        Item {
            id: self.id,
            name: self.name.clone(),
            description: self.description.clone(),
            count: self.count,
            height: self.height,
            weight: self.weight,
        }
    }
}

impl Clone for CreateItemPayload {
    fn clone(&self) -> (r: Self)
        ensures
            r == *self,
    {
        CreateItemPayload {
            name: self.name.clone(),
            description: self.description.clone(),
            count: self.count,
            height: self.height,
            weight: self.weight,
        }
    }
}

impl Clone for Datas {
    fn clone(&self) -> (r: Self)
        ensures
            r == *self,
    {
        Datas { id: self.id, name: self.name.clone(), flags: self.flags, sys: self.sys }
    }
}

impl Clone for DatasPayload {
    fn clone(&self) -> (r: Self)
        ensures
            r == *self,
    {
        DatasPayload { name: self.name.clone(), flags: self.flags, sys: self.sys }
    }
}

impl Clone for Niceties {
    fn clone(&self) -> (r: Self)
        ensures
            r == *self,
    {
        Niceties {
            id: self.id,
            datas_id: self.datas_id,
            mem: self.mem,
            stack: self.stack,
            info: self.info.clone(),
        }
    }
}

impl Clone for NicetiesPaylod {
    fn clone(&self) -> (r: Self)
        ensures
            r == *self,
    {
        NicetiesPaylod {
            datas_id: self.datas_id,
            mem: self.mem,
            stack: self.stack,
            info: self.info.clone(),
        }
    }
}

impl Item {
    /// The record that carries identifier `id` and the payload's fields.
    pub fn new(id: usize, payload: CreateItemPayload) -> (r: Item)
        ensures
            r@ == item_of(id as nat, payload@),
    {
        Item {
            id,
            name: payload.name,
            description: payload.description,
            count: payload.count,
            height: payload.height,
            weight: payload.weight,
        }
    }
}

impl Datas {
    /// The row that carries primary key `id` and the payload's columns.
    pub fn new(id: i32, payload: DatasPayload) -> (r: Datas)
        ensures
            r@ == datas_of(id as int, payload@),
    {
        Datas { id, name: payload.name, flags: payload.flags, sys: payload.sys }
    }
}

} // verus!
