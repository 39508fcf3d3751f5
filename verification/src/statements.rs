//! The statement cache of the relational adapter: one prepared handle per
//! operation, made once at startup and only read afterwards.
//!
//! A handle belongs to the connection on which it was prepared. A server
//! that serves every request over that one connection looks its statements
//! up here. A server that serves from a pool prepares the statements once at
//! startup, so that a statement which the backend refuses stops the startup,
//! and then runs each statement by its text on the connection that it
//! acquired.

use vstd::prelude::*;
use crate::sql::Operation;

verus! {

/// `tokio_postgres::Statement`, the handle of a prepared statement. Nothing
/// is claimed of what it holds; the cache only keeps it and hands it out.
#[verifier::external_type_specification]
#[verifier::external_body]
pub struct ExStatement(tokio_postgres::Statement);

/// The prepared handles of the adapter's five statements.
pub struct StatementCache {
    pub get_datas: tokio_postgres::Statement,
    pub get_data: tokio_postgres::Statement,
    pub create_datas: tokio_postgres::Statement,
    pub edit_datas: tokio_postgres::Statement,
    pub destroy_datas: tokio_postgres::Statement,
}

/// The operations whose statements are prepared at startup, in the order in
/// which they are prepared.
pub open spec fn startup_order() -> Seq<Operation> {
    seq![
        Operation::GetAll,
        Operation::GetOne,
        Operation::Create,
        Operation::Update,
        Operation::Delete,
    ]
}

impl StatementCache {
    /// The handle that the cache holds for `operation`.
    pub open spec fn handle(self, operation: Operation) -> tokio_postgres::Statement {
        match operation {
            Operation::GetAll => self.get_datas,
            Operation::GetOne => self.get_data,
            Operation::Create => self.create_datas,
            Operation::Update => self.edit_datas,
            Operation::Delete => self.destroy_datas,
        }
    }

    /// The operations whose statements must be prepared to fill a cache:
    /// each operation once.
    pub fn preparation_order() -> (r: Vec<Operation>)
        ensures
            r@ == startup_order(),
            forall|operation: Operation| r@.contains(operation),
            r@.no_duplicates(),
    {
        let mut order: Vec<Operation> = Vec::new();
        order.push(Operation::GetAll);
        order.push(Operation::GetOne);
        order.push(Operation::Create);
        order.push(Operation::Update);
        order.push(Operation::Delete);
        assert(order@ =~= startup_order());
        assert forall|operation: Operation| order@.contains(operation) by {
            match operation {
                Operation::GetAll => assert(order@[0] == operation),
                Operation::GetOne => assert(order@[1] == operation),
                Operation::Create => assert(order@[2] == operation),
                Operation::Update => assert(order@[3] == operation),
                Operation::Delete => assert(order@[4] == operation),
            }
        }
        order
    }

    /// Fills a cache with the handles that were prepared, in the order of
    /// [`StatementCache::preparation_order`]. There is no cache unless there
    /// is exactly one handle for each operation.
    pub fn assemble(mut prepared: Vec<tokio_postgres::Statement>) -> (r: Option<StatementCache>)
        ensures
            r is Some <==> prepared@.len() == startup_order().len(),
            r matches Some(cache) ==> forall|i: int|
                0 <= i < startup_order().len() ==> cache.handle(#[trigger] startup_order()[i])
                    == prepared@[i],
    {
        if prepared.len() != 5 {
            return None;
        }
        let ghost handles = prepared@;
        let destroy_datas = prepared.pop().unwrap();
        let edit_datas = prepared.pop().unwrap();
        let create_datas = prepared.pop().unwrap();
        let get_data = prepared.pop().unwrap();
        let get_datas = prepared.pop().unwrap();
        let cache = StatementCache { get_datas, get_data, create_datas, edit_datas, destroy_datas };
        assert(cache.handle(startup_order()[0]) == handles[0]);
        assert(cache.handle(startup_order()[1]) == handles[1]);
        assert(cache.handle(startup_order()[2]) == handles[2]);
        assert(cache.handle(startup_order()[3]) == handles[3]);
        assert(cache.handle(startup_order()[4]) == handles[4]);
        Some(cache)
    }

    /// The handle that was prepared for `operation`.
    pub fn statement(&self, operation: Operation) -> (r: &tokio_postgres::Statement)
        ensures
            *r == self.handle(operation),
    {
        match operation {
            Operation::GetAll => &self.get_datas,
            Operation::GetOne => &self.get_data,
            Operation::Create => &self.create_datas,
            Operation::Update => &self.edit_datas,
            Operation::Delete => &self.destroy_datas,
        }
    }
}

} // verus!
