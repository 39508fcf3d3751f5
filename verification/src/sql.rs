//! The relational adapter: list, get, create, update and delete of
//! [`Datas`] rows, each by one parameterized statement that is prepared once
//! and run over a pooled connection.
//!
//! Every operation is a state machine. The application starts it in its
//! `Connecting` state, acquires a pooled connection and reports
//! [`SqlEvent::Connected`] or [`SqlEvent::Unavailable`]. The operation then
//! names the one [`SqlQuery`] to run and finishes on its answer.
//!
//! Updating and deleting do not ask whether the row existed: on a missing
//! primary key both succeed and change nothing.

use vstd::prelude::*;
use vstd::string::*;
use crate::error::{Error, ErrorView};
use crate::record::{Datas, DatasPayload, DatasPayloadView, DatasView};

verus! {

/// The statements of the adapter, by the operation that each serves.
#[derive(Debug, Clone, Copy, PartialEq, Eq, Structural)]
pub enum Operation {
    GetAll,
    GetOne,
    Create,
    Update,
    Delete,
}

/// How a statement is run and what is expected back.
#[derive(Debug, Clone, Copy, PartialEq, Eq, Structural)]
pub enum QueryForm {
    /// Any number of rows.
    Rows,
    /// One row or none: no row is an answer, not a failure.
    OptionalRow,
    /// Exactly one row: anything else is a failure.
    SingleRow,
    /// No rows, only the number of rows that the statement touched.
    Execute,
}

/// One parameter of a statement.
#[derive(Debug, PartialEq)]
pub enum SqlValue {
    Text(String),
    Int2(i16),
    Int4(i32),
    Int8(i64),
}

/// One call to the relational backend.
#[derive(Debug, PartialEq)]
pub struct SqlQuery {
    pub operation: Operation,
    pub form: QueryForm,
    pub parameters: Vec<SqlValue>,
}

/// What the application reports back.
#[derive(Debug, PartialEq)]
pub enum SqlEvent {
    /// A pooled connection was acquired.
    Connected,
    /// No pooled connection could be acquired.
    Unavailable(String),
    /// The backend or its driver failed.
    Failed(String),
    /// The rows that a [`QueryForm::Rows`] query found.
    Rows(Vec<Datas>),
    /// The row that a [`QueryForm::OptionalRow`] query found, if any.
    Row(Option<Datas>),
    /// The primary key that the insertion returned.
    Returned(i32),
    /// How many rows a [`QueryForm::Execute`] statement touched.
    Affected(u64),
}

/// What a finished operation hands to the caller.
#[derive(Debug, PartialEq)]
pub enum SqlOutcome {
    Listed(Vec<Datas>),
    Fetched(Datas),
    Created(i32),
    Updated,
    Deleted,
}

/// One step of an operation whose state has type `S`.
#[derive(Debug, PartialEq)]
pub enum SqlStep<S> {
    /// The operation goes on in the given state once the query is answered.
    Continue(S, SqlQuery),
    /// The operation is over.
    Finish(Result<SqlOutcome, Error>),
}

/// The progress of [`get_datas`].
#[derive(Debug, PartialEq)]
pub enum GetDatas {
    Connecting,
    Querying,
}

/// The progress of [`get_data`].
#[derive(Debug, PartialEq)]
pub enum GetData {
    Connecting(i32),
    Querying,
}

/// The progress of [`create_datas`].
#[derive(Debug, PartialEq)]
pub enum CreateDatas {
    Connecting(DatasPayload),
    Querying,
}

/// The progress of [`edit_datas`].
#[derive(Debug, PartialEq)]
pub enum EditDatas {
    Connecting(i32, DatasPayload),
    Querying,
}

/// The progress of [`destroy_datas`].
#[derive(Debug, PartialEq)]
pub enum DestroyDatas {
    Connecting(i32),
    Querying,
}

pub enum SqlValueView {
    Text(Seq<char>),
    Int2(int),
    Int4(int),
    Int8(int),
}

pub struct SqlQueryView {
    pub operation: Operation,
    pub form: QueryForm,
    pub parameters: Seq<SqlValueView>,
}

pub enum SqlEventView {
    Connected,
    Unavailable(Seq<char>),
    Failed(Seq<char>),
    Rows(Seq<DatasView>),
    Row(Option<DatasView>),
    Returned(int),
    Affected(nat),
}

pub enum SqlOutcomeView {
    Listed(Seq<DatasView>),
    Fetched(DatasView),
    Created(int),
    Updated,
    Deleted,
}

pub enum SqlStepView<S> {
    Continue(S, SqlQueryView),
    Finish(Result<SqlOutcomeView, ErrorView>),
}

pub enum GetDataView {
    Connecting(int),
    Querying,
}

pub enum CreateDatasView {
    Connecting(DatasPayloadView),
    Querying,
}

pub enum EditDatasView {
    Connecting(int, DatasPayloadView),
    Querying,
}

pub enum DestroyDatasView {
    Connecting(int),
    Querying,
}

impl View for SqlValue {
    type V = SqlValueView;

    open spec fn view(&self) -> SqlValueView {
        match self {
            SqlValue::Text(text) => SqlValueView::Text(text@),
            SqlValue::Int2(value) => SqlValueView::Int2(*value as int),
            SqlValue::Int4(value) => SqlValueView::Int4(*value as int),
            SqlValue::Int8(value) => SqlValueView::Int8(*value as int),
        }
    }
}

impl DeepView for SqlValue {
    type V = SqlValueView;

    open spec fn deep_view(&self) -> SqlValueView {
        self@
    }
}

impl View for SqlQuery {
    type V = SqlQueryView;

    open spec fn view(&self) -> SqlQueryView {
        SqlQueryView {
            operation: self.operation,
            form: self.form,
            parameters: self.parameters.deep_view(),
        }
    }
}

impl View for SqlEvent {
    type V = SqlEventView;

    open spec fn view(&self) -> SqlEventView {
        match self {
            SqlEvent::Connected => SqlEventView::Connected,
            SqlEvent::Unavailable(detail) => SqlEventView::Unavailable(detail@),
            SqlEvent::Failed(detail) => SqlEventView::Failed(detail@),
            SqlEvent::Rows(rows) => SqlEventView::Rows(rows.deep_view()),
            SqlEvent::Row(row) => SqlEventView::Row(row.deep_view()),
            SqlEvent::Returned(id) => SqlEventView::Returned(*id as int),
            SqlEvent::Affected(count) => SqlEventView::Affected(*count as nat),
        }
    }
}

impl View for SqlOutcome {
    type V = SqlOutcomeView;

    open spec fn view(&self) -> SqlOutcomeView {
        match self {
            SqlOutcome::Listed(rows) => SqlOutcomeView::Listed(rows.deep_view()),
            SqlOutcome::Fetched(row) => SqlOutcomeView::Fetched(row@),
            SqlOutcome::Created(id) => SqlOutcomeView::Created(*id as int),
            SqlOutcome::Updated => SqlOutcomeView::Updated,
            SqlOutcome::Deleted => SqlOutcomeView::Deleted,
        }
    }
}

/// The view of an operation's result.
pub open spec fn result_view(result: Result<SqlOutcome, Error>) -> Result<
    SqlOutcomeView,
    ErrorView,
> {
    match result {
        Ok(outcome) => Ok(outcome@),
        Err(error) => Err(error@),
    }
}

impl<S: View> View for SqlStep<S> {
    type V = SqlStepView<S::V>;

    open spec fn view(&self) -> SqlStepView<S::V> {
        match self {
            SqlStep::Continue(state, query) => SqlStepView::Continue(state@, query@),
            SqlStep::Finish(result) => SqlStepView::Finish(result_view(*result)),
        }
    }
}

impl View for GetDatas {
    type V = GetDatas;

    open spec fn view(&self) -> GetDatas {
        *self
    }
}

impl View for GetData {
    type V = GetDataView;

    open spec fn view(&self) -> GetDataView {
        match self {
            GetData::Connecting(id) => GetDataView::Connecting(*id as int),
            GetData::Querying => GetDataView::Querying,
        }
    }
}

impl View for CreateDatas {
    type V = CreateDatasView;

    open spec fn view(&self) -> CreateDatasView {
        match self {
            CreateDatas::Connecting(payload) => CreateDatasView::Connecting(payload@),
            CreateDatas::Querying => CreateDatasView::Querying,
        }
    }
}

impl View for EditDatas {
    type V = EditDatasView;

    open spec fn view(&self) -> EditDatasView {
        match self {
            EditDatas::Connecting(id, payload) => EditDatasView::Connecting(*id as int, payload@),
            EditDatas::Querying => EditDatasView::Querying,
        }
    }
}

impl View for DestroyDatas {
    type V = DestroyDatasView;

    open spec fn view(&self) -> DestroyDatasView {
        match self {
            DestroyDatas::Connecting(id) => DestroyDatasView::Connecting(*id as int),
            DestroyDatas::Querying => DestroyDatasView::Querying,
        }
    }
}

/// The HTTP status that reports a successful operation.
pub open spec fn success_status(outcome: SqlOutcomeView) -> int {
    match outcome {
        SqlOutcomeView::Created(_) => 201,
        _ => 200,
    }
}

impl SqlOutcome {
    /// The HTTP status that reports this outcome.
    pub fn status_code(&self) -> (r: u16)
        ensures
            r == success_status(self@),
    {
        match self {
            SqlOutcome::Created(_) => 201,
            _ => 200,
        }
    }
}

/// The text of the statement that serves `operation`, with `$1`, `$2`, ...
/// for its parameters.
pub open spec fn sql_text(operation: Operation) -> Seq<char> {
    match operation {
        Operation::GetAll => "SELECT * FROM items.datas"@,
        Operation::GetOne => "SELECT * FROM items.datas WHERE id = $1"@,
        Operation::Create =>
            "INSERT INTO items.datas (name, flags, sys) VALUES ($1, $2, $3) RETURNING id"@,
        Operation::Update =>
            "UPDATE items.datas SET name = $1, flags = $2, sys = $3 WHERE id = $4"@,
        Operation::Delete => "DELETE FROM items.datas WHERE id = $1"@,
    }
}

/// The form in which the statement that serves `operation` is run. A row is
/// fetched by its key in the form that takes no row for an answer, so that a
/// missing row is told apart from a failing backend.
pub open spec fn form_of(operation: Operation) -> QueryForm {
    match operation {
        Operation::GetAll => QueryForm::Rows,
        Operation::GetOne => QueryForm::OptionalRow,
        Operation::Create => QueryForm::SingleRow,
        Operation::Update => QueryForm::Execute,
        Operation::Delete => QueryForm::Execute,
    }
}

/// The parameters that carry a payload's columns, in the statement's order.
pub open spec fn payload_parameters(payload: DatasPayloadView) -> Seq<SqlValueView> {
    seq![
        SqlValueView::Text(payload.name),
        SqlValueView::Int8(payload.flags),
        SqlValueView::Int2(payload.sys),
    ]
}

/// The query that lists all rows.
pub open spec fn select_all() -> SqlQueryView {
    SqlQueryView {
        operation: Operation::GetAll,
        form: form_of(Operation::GetAll),
        parameters: Seq::empty(),
    }
}

/// The query that fetches the row with primary key `id`.
pub open spec fn select_one(id: int) -> SqlQueryView {
    SqlQueryView {
        operation: Operation::GetOne,
        form: form_of(Operation::GetOne),
        parameters: seq![SqlValueView::Int4(id)],
    }
}

/// The query that inserts a row and returns its primary key.
pub open spec fn insert_one(payload: DatasPayloadView) -> SqlQueryView {
    SqlQueryView {
        operation: Operation::Create,
        form: form_of(Operation::Create),
        parameters: payload_parameters(payload),
    }
}

/// The query that replaces the columns of the row with primary key `id`.
pub open spec fn update_one(id: int, payload: DatasPayloadView) -> SqlQueryView {
    SqlQueryView {
        operation: Operation::Update,
        form: form_of(Operation::Update),
        parameters: payload_parameters(payload).push(SqlValueView::Int4(id)),
    }
}

/// The query that deletes the row with primary key `id`.
pub open spec fn delete_one(id: int) -> SqlQueryView {
    SqlQueryView {
        operation: Operation::Delete,
        form: form_of(Operation::Delete),
        parameters: seq![SqlValueView::Int4(id)],
    }
}

/// How a missing row is described to the caller.
pub open spec fn missing_row() -> Seq<char> {
    "Not here btw"@
}

/// The detail of the failure that ends an operation when the application
/// reports something that cannot follow the query it was given.
pub open spec fn out_of_turn() -> Seq<char> {
    "the reported event does not answer the pending query"@
}

/// What ends every operation whatever its state: a lost pool, a failed
/// backend, or an event that answers no query of that operation.
pub open spec fn interruption(event: SqlEventView) -> ErrorView {
    match event {
        SqlEventView::Unavailable(detail) => ErrorView::PoolError(detail),
        SqlEventView::Failed(detail) => ErrorView::BackendError(detail),
        _ => ErrorView::BackendError(out_of_turn()),
    }
}

/// One step of listing all rows.
pub open spec fn get_datas_step(state: GetDatas, event: SqlEventView) -> SqlStepView<GetDatas> {
    match (state, event) {
        (GetDatas::Connecting, SqlEventView::Connected) => SqlStepView::Continue(
            GetDatas::Querying,
            select_all(),
        ),
        (GetDatas::Querying, SqlEventView::Rows(rows)) => SqlStepView::Finish(
            Ok(SqlOutcomeView::Listed(rows)),
        ),
        _ => SqlStepView::Finish(Err(interruption(event))),
    }
}

/// One step of fetching a row by its primary key: no row means that it does
/// not exist.
pub open spec fn get_data_step(state: GetDataView, event: SqlEventView) -> SqlStepView<
    GetDataView,
> {
    match (state, event) {
        (GetDataView::Connecting(id), SqlEventView::Connected) => SqlStepView::Continue(
            GetDataView::Querying,
            select_one(id),
        ),
        (GetDataView::Querying, SqlEventView::Row(Some(row))) => SqlStepView::Finish(
            Ok(SqlOutcomeView::Fetched(row)),
        ),
        (GetDataView::Querying, SqlEventView::Row(None)) => SqlStepView::Finish(
            Err(ErrorView::NotFound(missing_row())),
        ),
        _ => SqlStepView::Finish(Err(interruption(event))),
    }
}

/// One step of inserting a row: the outcome is the primary key that the
/// database assigned.
pub open spec fn create_datas_step(state: CreateDatasView, event: SqlEventView) -> SqlStepView<
    CreateDatasView,
> {
    match (state, event) {
        (CreateDatasView::Connecting(payload), SqlEventView::Connected) => SqlStepView::Continue(
            CreateDatasView::Querying,
            insert_one(payload),
        ),
        (CreateDatasView::Querying, SqlEventView::Returned(id)) => SqlStepView::Finish(
            Ok(SqlOutcomeView::Created(id)),
        ),
        _ => SqlStepView::Finish(Err(interruption(event))),
    }
}

/// One step of replacing a row's columns: it succeeds however many rows the
/// statement touched.
pub open spec fn edit_datas_step(state: EditDatasView, event: SqlEventView) -> SqlStepView<
    EditDatasView,
> {
    match (state, event) {
        (EditDatasView::Connecting(id, payload), SqlEventView::Connected) => SqlStepView::Continue(
            EditDatasView::Querying,
            update_one(id, payload),
        ),
        (EditDatasView::Querying, SqlEventView::Affected(_)) => SqlStepView::Finish(
            Ok(SqlOutcomeView::Updated),
        ),
        _ => SqlStepView::Finish(Err(interruption(event))),
    }
}

/// One step of deleting a row: it succeeds however many rows the statement
/// touched.
pub open spec fn destroy_datas_step(state: DestroyDatasView, event: SqlEventView) -> SqlStepView<
    DestroyDatasView,
> {
    match (state, event) {
        (DestroyDatasView::Connecting(id), SqlEventView::Connected) => SqlStepView::Continue(
            DestroyDatasView::Querying,
            delete_one(id),
        ),
        (DestroyDatasView::Querying, SqlEventView::Affected(_)) => SqlStepView::Finish(
            Ok(SqlOutcomeView::Deleted),
        ),
        _ => SqlStepView::Finish(Err(interruption(event))),
    }
}

/// The text of the statement that serves `operation`.
pub fn statement_text(operation: Operation) -> (r: &'static str)
    ensures
        r@ == sql_text(operation),
{
    match operation {
        Operation::GetAll => "SELECT * FROM items.datas",
        Operation::GetOne => "SELECT * FROM items.datas WHERE id = $1",
        Operation::Create =>
            "INSERT INTO items.datas (name, flags, sys) VALUES ($1, $2, $3) RETURNING id",
        Operation::Update => "UPDATE items.datas SET name = $1, flags = $2, sys = $3 WHERE id = $4",
        Operation::Delete => "DELETE FROM items.datas WHERE id = $1",
    }
}

/// The form in which the statement that serves `operation` is run.
pub fn query_form(operation: Operation) -> (r: QueryForm)
    ensures
        r == form_of(operation),
{
    match operation {
        Operation::GetAll => QueryForm::Rows,
        Operation::GetOne => QueryForm::OptionalRow,
        Operation::Create => QueryForm::SingleRow,
        Operation::Update => QueryForm::Execute,
        Operation::Delete => QueryForm::Execute,
    }
}

/// The failure that reports that the addressed row does not exist.
pub fn row_not_found() -> (r: Error)
    ensures
        r@ == ErrorView::NotFound(missing_row()),
{
    Error::NotFound(String::from_str("Not here btw"))
}

/// Ends an operation on an event that does not let it go on.
pub fn interrupted(event: SqlEvent) -> (r: Error)
    ensures
        r@ == interruption(event@),
{
    match event {
        SqlEvent::Unavailable(detail) => Error::PoolError(detail),
        SqlEvent::Failed(detail) => Error::BackendError(detail),
        _ => Error::BackendError(
            String::from_str("the reported event does not answer the pending query"),
        ),
    }
}

fn payload_values(payload: DatasPayload) -> (r: Vec<SqlValue>)
    ensures
        r.deep_view() == payload_parameters(payload@),
{
    let mut values: Vec<SqlValue> = Vec::new();
    values.push(SqlValue::Text(payload.name));
    values.push(SqlValue::Int8(payload.flags));
    values.push(SqlValue::Int2(payload.sys));
    assert(values.deep_view() =~= payload_parameters(payload@));
    values
}

fn key_value(id: i32) -> (r: Vec<SqlValue>)
    ensures
        r.deep_view() == seq![SqlValueView::Int4(id as int)],
{
    let mut values: Vec<SqlValue> = Vec::new();
    values.push(SqlValue::Int4(id));
    assert(values.deep_view() =~= seq![SqlValueView::Int4(id as int)]);
    values
}

/// Advances the listing of all rows by one event.
pub fn get_datas(state: GetDatas, event: SqlEvent) -> (step: SqlStep<GetDatas>)
    ensures
        step@ == get_datas_step(state@, event@),
{
    match (state, event) {
        (GetDatas::Connecting, SqlEvent::Connected) => {
            let parameters: Vec<SqlValue> = Vec::new();
            assert(parameters.deep_view() =~= Seq::empty());
            SqlStep::Continue(
                GetDatas::Querying,
                SqlQuery {
                    operation: Operation::GetAll,
                    form: query_form(Operation::GetAll),
                    parameters,
                },
            )
        },
        (GetDatas::Querying, SqlEvent::Rows(rows)) => SqlStep::Finish(
            Ok(SqlOutcome::Listed(rows)),
        ),
        (_, event) => SqlStep::Finish(Err(interrupted(event))),
    }
}

/// Advances the fetching of one row by one event.
pub fn get_data(state: GetData, event: SqlEvent) -> (step: SqlStep<GetData>)
    ensures
        step@ == get_data_step(state@, event@),
{
    match (state, event) {
        (GetData::Connecting(id), SqlEvent::Connected) => SqlStep::Continue(
            GetData::Querying,
            SqlQuery {
                operation: Operation::GetOne,
                form: query_form(Operation::GetOne),
                parameters: key_value(id),
            },
        ),
        (GetData::Querying, SqlEvent::Row(Some(row))) => SqlStep::Finish(
            Ok(SqlOutcome::Fetched(row)),
        ),
        (GetData::Querying, SqlEvent::Row(None)) => SqlStep::Finish(Err(row_not_found())),
        (_, event) => SqlStep::Finish(Err(interrupted(event))),
    }
}

/// Advances the insertion of one row by one event.
pub fn create_datas(state: CreateDatas, event: SqlEvent) -> (step: SqlStep<CreateDatas>)
    ensures
        step@ == create_datas_step(state@, event@),
{
    match (state, event) {
        (CreateDatas::Connecting(payload), SqlEvent::Connected) => SqlStep::Continue(
            CreateDatas::Querying,
            SqlQuery {
                operation: Operation::Create,
                form: query_form(Operation::Create),
                parameters: payload_values(payload),
            },
        ),
        (CreateDatas::Querying, SqlEvent::Returned(id)) => SqlStep::Finish(
            Ok(SqlOutcome::Created(id)),
        ),
        (_, event) => SqlStep::Finish(Err(interrupted(event))),
    }
}

/// Advances the update of one row by one event.
pub fn edit_datas(state: EditDatas, event: SqlEvent) -> (step: SqlStep<EditDatas>)
    ensures
        step@ == edit_datas_step(state@, event@),
{
    match (state, event) {
        (EditDatas::Connecting(id, payload), SqlEvent::Connected) => {
            let mut parameters = payload_values(payload);
            let ghost before = parameters.deep_view();
            parameters.push(SqlValue::Int4(id));
            assert(parameters.deep_view() =~= before.push(SqlValueView::Int4(id as int)));
            SqlStep::Continue(
                EditDatas::Querying,
                SqlQuery {
                    operation: Operation::Update,
                    form: query_form(Operation::Update),
                    parameters,
                },
            )
        },
        (EditDatas::Querying, SqlEvent::Affected(_)) => SqlStep::Finish(Ok(SqlOutcome::Updated)),
        (_, event) => SqlStep::Finish(Err(interrupted(event))),
    }
}

/// Advances the deletion of one row by one event.
pub fn destroy_datas(state: DestroyDatas, event: SqlEvent) -> (step: SqlStep<DestroyDatas>)
    ensures
        step@ == destroy_datas_step(state@, event@),
{
    match (state, event) {
        (DestroyDatas::Connecting(id), SqlEvent::Connected) => SqlStep::Continue(
            DestroyDatas::Querying,
            SqlQuery {
                operation: Operation::Delete,
                form: query_form(Operation::Delete),
                parameters: key_value(id),
            },
        ),
        (DestroyDatas::Querying, SqlEvent::Affected(_)) => SqlStep::Finish(
            Ok(SqlOutcome::Deleted),
        ),
        (_, event) => SqlStep::Finish(Err(interrupted(event))),
    }
}

} // verus!
