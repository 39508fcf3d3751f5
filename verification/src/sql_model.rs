//! A model of the relational backend and of an application that follows the
//! adapter's queries.
//!
//! The backend keeps one table of rows under their primary keys, and the
//! sequence from which it assigns the key of each inserted row.

use vstd::prelude::*;
use crate::error::ErrorView;
use crate::record::{datas_of, DatasPayloadView, DatasView};
use crate::sql::{create_datas_step, destroy_datas_step, edit_datas_step, get_data_step,
    get_datas_step, CreateDatasView, DestroyDatasView, EditDatasView, GetDataView, GetDatas,
    Operation, QueryForm, SqlEventView, SqlOutcomeView, SqlQueryView, SqlStepView, SqlValueView};

verus! {

/// The backend's whole state.
pub struct Database {
    /// The rows of the table, each under its primary key.
    pub rows: Map<int, DatasView>,
    /// The key that the sequence handed out last.
    pub serial: int,
}

/// The largest primary key.
pub open spec fn key_limit() -> int {
    0x7fff_ffff
}

/// How the backend refuses a query that is none of the prepared statements
/// with fitting parameters.
pub open spec fn misuse() -> Seq<char> {
    "the query fits no prepared statement"@
}

/// How the backend refuses to insert a row once the sequence is exhausted.
pub open spec fn exhausted() -> Seq<char> {
    "nextval: reached maximum value of sequence"@
}

/// How the backend refuses to insert a row under a key that is taken.
pub open spec fn duplicate_key() -> Seq<char> {
    "duplicate key value violates unique constraint"@
}

/// The payload that the first three parameters of a statement carry, if they
/// are a name, flags and a system number in this order.
pub open spec fn payload_in(parameters: Seq<SqlValueView>) -> Option<DatasPayloadView> {
    if parameters.len() >= 3 && parameters[0] is Text && parameters[1] is Int8
        && parameters[2] is Int2 {
        Some(
            DatasPayloadView {
                name: parameters[0]->Text_0,
                flags: parameters[1]->Int8_0,
                sys: parameters[2]->Int2_0,
            },
        )
    } else {
        None
    }
}

/// The backend's state after `query`, and its answer.
pub open spec fn execute(db: Database, query: SqlQueryView) -> (Database, SqlEventView) {
    let parameters = query.parameters;
    match (query.operation, query.form) {
        (Operation::GetAll, QueryForm::Rows) => {
            if parameters.len() == 0 {
                let keys = db.rows.dom().to_seq();
                (db, SqlEventView::Rows(Seq::new(keys.len(), |i: int| db.rows[keys[i]])))
            } else {
                (db, SqlEventView::Failed(misuse()))
            }
        },
        (Operation::GetOne, QueryForm::OptionalRow) => {
            if parameters.len() == 1 && parameters[0] is Int4 {
                let id = parameters[0]->Int4_0;
                if db.rows.contains_key(id) {
                    (db, SqlEventView::Row(Some(db.rows[id])))
                } else {
                    (db, SqlEventView::Row(None))
                }
            } else {
                (db, SqlEventView::Failed(misuse()))
            }
        },
        (Operation::Create, QueryForm::SingleRow) => {
            if parameters.len() == 3 && payload_in(parameters) is Some {
                let id = db.serial + 1;
                if id > key_limit() {
                    (db, SqlEventView::Failed(exhausted()))
                } else if db.rows.contains_key(id) {
                    (Database { rows: db.rows, serial: id }, SqlEventView::Failed(duplicate_key()))
                } else {
                    (
                        Database {
                            rows: db.rows.insert(id, datas_of(id, payload_in(parameters)->0)),
                            serial: id,
                        },
                        SqlEventView::Returned(id),
                    )
                }
            } else {
                (db, SqlEventView::Failed(misuse()))
            }
        },
        (Operation::Update, QueryForm::Execute) => {
            if parameters.len() == 4 && payload_in(parameters) is Some && parameters[3] is Int4 {
                let id = parameters[3]->Int4_0;
                if db.rows.contains_key(id) {
                    (
                        Database {
                            rows: db.rows.insert(id, datas_of(id, payload_in(parameters)->0)),
                            serial: db.serial,
                        },
                        SqlEventView::Affected(1),
                    )
                } else {
                    (db, SqlEventView::Affected(0))
                }
            } else {
                (db, SqlEventView::Failed(misuse()))
            }
        },
        (Operation::Delete, QueryForm::Execute) => {
            if parameters.len() == 1 && parameters[0] is Int4 {
                let id = parameters[0]->Int4_0;
                if db.rows.contains_key(id) {
                    (
                        Database { rows: db.rows.remove(id), serial: db.serial },
                        SqlEventView::Affected(1),
                    )
                } else {
                    (db, SqlEventView::Affected(0))
                }
            } else {
                (db, SqlEventView::Failed(misuse()))
            }
        },
        _ => (db, SqlEventView::Failed(misuse())),
    }
}

/// The event that opens every operation: `outage` is the pool's report if it
/// hands out no connection.
pub open spec fn opening(outage: Option<Seq<char>>) -> SqlEventView {
    match outage {
        None => SqlEventView::Connected,
        Some(detail) => SqlEventView::Unavailable(detail),
    }
}

/// Runs an operation from `state` on `event` with nothing else touching the
/// backend: the final state of the backend and the operation's result, or no
/// result if the operation is not over after `patience` further queries.
pub open spec fn drive<S>(
    step: spec_fn(S, SqlEventView) -> SqlStepView<S>,
    db: Database,
    state: S,
    event: SqlEventView,
    patience: nat,
) -> (Database, Option<Result<SqlOutcomeView, ErrorView>>)
    decreases patience,
{
    match step(state, event) {
        SqlStepView::Finish(result) => (db, Some(result)),
        SqlStepView::Continue(next, query) => {
            if patience == 0 {
                (db, None)
            } else {
                let (after, reported) = execute(db, query);
                drive(step, after, next, reported, (patience - 1) as nat)
            }
        },
    }
}

/// A run that ended in `outcome`.
pub open spec fn succeeded(outcome: SqlOutcomeView) -> Option<Result<SqlOutcomeView, ErrorView>> {
    Some(Ok(outcome))
}

/// A run that ended in `error`.
pub open spec fn failed(error: ErrorView) -> Option<Result<SqlOutcomeView, ErrorView>> {
    Some(Err(error))
}

/// Listing all rows, start to end.
pub open spec fn list_run(outage: Option<Seq<char>>, db: Database) -> (
    Database,
    Option<Result<SqlOutcomeView, ErrorView>>,
) {
    drive(
        |state: GetDatas, event: SqlEventView| get_datas_step(state, event),
        db,
        GetDatas::Connecting,
        opening(outage),
        1,
    )
}

/// Fetching the row with primary key `id`, start to end.
pub open spec fn get_run(outage: Option<Seq<char>>, db: Database, id: int) -> (
    Database,
    Option<Result<SqlOutcomeView, ErrorView>>,
) {
    drive(
        |state: GetDataView, event: SqlEventView| get_data_step(state, event),
        db,
        GetDataView::Connecting(id),
        opening(outage),
        1,
    )
}

/// Inserting a row, start to end.
pub open spec fn create_run(outage: Option<Seq<char>>, db: Database, payload: DatasPayloadView)
    -> (Database, Option<Result<SqlOutcomeView, ErrorView>>) {
    drive(
        |state: CreateDatasView, event: SqlEventView| create_datas_step(state, event),
        db,
        CreateDatasView::Connecting(payload),
        opening(outage),
        1,
    )
}

/// Replacing the columns of the row with primary key `id`, start to end.
pub open spec fn edit_run(
    outage: Option<Seq<char>>,
    db: Database,
    id: int,
    payload: DatasPayloadView,
) -> (Database, Option<Result<SqlOutcomeView, ErrorView>>) {
    drive(
        |state: EditDatasView, event: SqlEventView| edit_datas_step(state, event),
        db,
        EditDatasView::Connecting(id, payload),
        opening(outage),
        1,
    )
}

/// Deleting the row with primary key `id`, start to end.
pub open spec fn destroy_run(outage: Option<Seq<char>>, db: Database, id: int) -> (
    Database,
    Option<Result<SqlOutcomeView, ErrorView>>,
) {
    drive(
        |state: DestroyDatasView, event: SqlEventView| destroy_datas_step(state, event),
        db,
        DestroyDatasView::Connecting(id),
        opening(outage),
        1,
    )
}

} // verus!
