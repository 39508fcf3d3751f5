//! What holds of the relational adapter when the backend behaves as the
//! model says and the application follows the adapter's queries.

use vstd::prelude::*;
use crate::error::ErrorView;
use crate::record::{datas_of, DatasPayloadView, DatasView};
use crate::sql::{missing_row, SqlOutcomeView};
use crate::sql_model::{create_run, destroy_run, drive, duplicate_key, edit_run, exhausted,
    failed, get_run, key_limit, list_run, succeeded, Database};

verus! {

/// Every operation is over after its one query, whatever the backend holds.
pub proof fn law_operations_finish(
    outage: Option<Seq<char>>,
    db: Database,
    id: int,
    payload: DatasPayloadView,
)
    ensures
        list_run(outage, db).1 is Some,
        get_run(outage, db, id).1 is Some,
        create_run(outage, db, payload).1 is Some,
        edit_run(outage, db, id, payload).1 is Some,
        destroy_run(outage, db, id).1 is Some,
{
    reveal_with_fuel(drive, 3);
}

/// Without a pooled connection every operation fails with the pool's report
/// and the backend is not touched.
pub proof fn law_outage_is_reported(
    outage: Option<Seq<char>>,
    db: Database,
    id: int,
    payload: DatasPayloadView,
)
    requires
        outage is Some,
    ensures
        list_run(outage, db) == (db, failed(ErrorView::PoolError(outage->0))),
        get_run(outage, db, id) == (db, failed(ErrorView::PoolError(outage->0))),
        create_run(outage, db, payload) == (db, failed(ErrorView::PoolError(outage->0))),
        edit_run(outage, db, id, payload) == (db, failed(ErrorView::PoolError(outage->0))),
        destroy_run(outage, db, id) == (db, failed(ErrorView::PoolError(outage->0))),
{
    reveal_with_fuel(drive, 2);
}

/// Fetching yields the row under the primary key, or reports that there is
/// none, and never changes the backend.
pub proof fn law_get_effect(db: Database, id: int)
    ensures
        get_run(None, db, id) == (
            db,
            if db.rows.contains_key(id) {
                succeeded(SqlOutcomeView::Fetched(db.rows[id]))
            } else {
                failed(ErrorView::NotFound(missing_row()))
            },
        ),
{
    reveal_with_fuel(drive, 3);
}

/// The rows of the table, in the order in which the backend names them.
pub open spec fn all_rows(db: Database) -> Seq<DatasView> {
    let keys = db.rows.dom().to_seq();
    Seq::new(keys.len(), |i: int| db.rows[keys[i]])
}

/// Listing yields the rows of the table and never changes the backend.
pub proof fn law_list_effect(db: Database)
    ensures
        list_run(None, db) == (db, succeeded(SqlOutcomeView::Listed(all_rows(db)))),
{
    reveal_with_fuel(drive, 3);
}

/// A listing holds exactly the rows of a finite table.
pub proof fn law_listing_members(db: Database, row: DatasView)
    requires
        db.rows.dom().finite(),
    ensures
        all_rows(db).contains(row) <==> exists|id: int|
            db.rows.contains_key(id) && db.rows[id] == row,
{
    let keys = db.rows.dom().to_seq();
    db.rows.dom().lemma_to_seq_to_set_id();
    if all_rows(db).contains(row) {
        let i = choose|i: int| 0 <= i < all_rows(db).len() && all_rows(db)[i] == row;
        assert(keys.to_set().contains(keys[i]));
        assert(db.rows.contains_key(keys[i]) && db.rows[keys[i]] == row);
    }
    if exists|id: int| db.rows.contains_key(id) && db.rows[id] == row {
        let id = choose|id: int| db.rows.contains_key(id) && db.rows[id] == row;
        assert(keys.to_set().contains(id));
        let i = choose|i: int| 0 <= i < keys.len() && keys[i] == id;
        assert(all_rows(db)[i] == row);
    }
}

/// Inserting assigns the sequence's next key. It succeeds exactly when that
/// key is in range and free; the table then holds the payload's columns
/// under it and nothing else has changed.
pub proof fn law_create_effect(db: Database, payload: DatasPayloadView)
    ensures
        create_run(None, db, payload) == (if db.serial + 1 > key_limit() {
            (db, failed(ErrorView::BackendError(exhausted())))
        } else if db.rows.contains_key(db.serial + 1) {
            (
                Database { rows: db.rows, serial: db.serial + 1 },
                failed(ErrorView::BackendError(duplicate_key())),
            )
        } else {
            (
                Database {
                    rows: db.rows.insert(db.serial + 1, datas_of(db.serial + 1, payload)),
                    serial: db.serial + 1,
                },
                succeeded(SqlOutcomeView::Created(db.serial + 1)),
            )
        }),
{
    reveal_with_fuel(drive, 3);
}

/// A row that was inserted is fetched by the key that the insertion
/// returned, with the payload's columns. The key is positive if the sequence
/// never went below zero.
pub proof fn law_create_then_get(db: Database, payload: DatasPayloadView)
    requires
        create_run(None, db, payload).1 matches Some(Ok(_)),
    ensures
        create_run(None, db, payload).1 matches Some(Ok(SqlOutcomeView::Created(id))) && get_run(
            None,
            create_run(None, db, payload).0,
            id,
        ) == (create_run(None, db, payload).0, succeeded(
            SqlOutcomeView::Fetched(datas_of(id, payload)),
        )) && (db.serial >= 0 ==> id > 0),
{
    law_create_effect(db, payload);
    law_get_effect(create_run(None, db, payload).0, db.serial + 1);
}

/// Updating always succeeds. A row under the primary key takes the payload's
/// columns and keeps its key; if there is no such row nothing changes.
pub proof fn law_edit_effect(db: Database, id: int, payload: DatasPayloadView)
    ensures
        edit_run(None, db, id, payload) == (
            if db.rows.contains_key(id) {
                Database { rows: db.rows.insert(id, datas_of(id, payload)), serial: db.serial }
            } else {
                db
            },
            succeeded(SqlOutcomeView::Updated),
        ),
{
    reveal_with_fuel(drive, 3);
}

/// Deleting always succeeds. The row under the primary key is removed; if
/// there is no such row nothing changes.
pub proof fn law_destroy_effect(db: Database, id: int)
    ensures
        destroy_run(None, db, id) == (
            if db.rows.contains_key(id) {
                Database { rows: db.rows.remove(id), serial: db.serial }
            } else {
                db
            },
            succeeded(SqlOutcomeView::Deleted),
        ),
{
    reveal_with_fuel(drive, 3);
}

/// Updating or deleting a row that does not exist completes without a
/// failure and leaves the backend as it was.
pub proof fn law_missing_row_is_ignored(db: Database, id: int, payload: DatasPayloadView)
    requires
        !db.rows.contains_key(id),
    ensures
        edit_run(None, db, id, payload) == (db, succeeded(SqlOutcomeView::Updated)),
        destroy_run(None, db, id) == (db, succeeded(SqlOutcomeView::Deleted)),
{
    law_edit_effect(db, id, payload);
    law_destroy_effect(db, id);
}

/// Every row of the table carries the key under which it is kept, and the
/// table is finite.
pub open spec fn keyed(db: Database) -> bool {
    &&& db.rows.dom().finite()
    &&& forall|id: int| #[trigger] db.rows.contains_key(id) ==> db.rows[id].id == id
}

/// Every operation leaves a keyed table keyed.
pub proof fn law_runs_keep_keys(db: Database, id: int, payload: DatasPayloadView)
    requires
        keyed(db),
    ensures
        keyed(create_run(None, db, payload).0),
        keyed(edit_run(None, db, id, payload).0),
        keyed(destroy_run(None, db, id).0),
        keyed(get_run(None, db, id).0),
        keyed(list_run(None, db).0),
{
    law_create_effect(db, payload);
    law_edit_effect(db, id, payload);
    law_destroy_effect(db, id);
    law_get_effect(db, id);
    law_list_effect(db);
}

/// After a deletion the row is not found under its key, and a listing of a
/// keyed table holds no row with that key.
pub proof fn law_destroy_then_read(db: Database, id: int, i: int)
    requires
        keyed(db),
    ensures
        get_run(None, destroy_run(None, db, id).0, id) == (
            destroy_run(None, db, id).0,
            failed(ErrorView::NotFound(missing_row())),
        ),
        list_run(None, destroy_run(None, db, id).0).1 matches Some(
            Ok(SqlOutcomeView::Listed(rows)),
        ) && (0 <= i < rows.len() ==> rows[i].id != id),
{
    let after = destroy_run(None, db, id).0;
    law_destroy_effect(db, id);
    law_get_effect(after, id);
    law_list_effect(after);
    let rows = all_rows(after);
    if 0 <= i < rows.len() {
        law_listing_members(after, rows[i]);
        assert(all_rows(after).contains(rows[i]));
    }
}

} // verus!
