//! The operations on a resource, and what each does to a table and is
//! answered with.

use vstd::prelude::*;
use crate::record::Record;
use crate::reply::{create, delete, get, list, Reply, ReplyView};
use crate::table::{StoreError, Table, TableView};

verus! {

/// An operation on a resource. `T` is the record, or its view.
#[derive(Clone, Debug, PartialEq, Eq)]
pub enum Operation<T> {
    /// Store the record. The id that it comes with is not read.
    Create(T),
    /// List the ids of all records.
    List,
    /// Return the record with the given id.
    Get(i32),
    /// Delete the record with the given id.
    Delete(i32),
}

impl<R: Record> View for Operation<R> {
    type V = Operation<R::V>;

    open spec fn view(&self) -> Operation<R::V> {
        match self {
            Operation::Create(record) => Operation::Create(record@),
            Operation::List => Operation::List,
            Operation::Get(id) => Operation::Get(*id),
            Operation::Delete(id) => Operation::Delete(*id),
        }
    }
}

impl<R: Record> TableView<R> {
    /// The table after the operation, and the answer to it.
    ///
    /// - Create stores the row under a new id and returns it as submitted;
    ///   it fails, and stores nothing, when no id is left.
    /// - List returns the ids of all rows, oldest row first.
    /// - Get returns the row with the given id, or not found.
    /// - Delete removes the row with the given id, or answers not found
    ///   when there is none.
    pub open spec fn apply(self, operation: Operation<R::V>) -> (Self, ReplyView<R::V>) {
        match operation {
            Operation::Create(row) => if self.has_room() {
                (self.inserted(row), ReplyView::Created(row))
            } else {
                (self, ReplyView::Failed(StoreError::Exhausted))
            },
            Operation::List => (self, ReplyView::Listed(self.ids())),
            Operation::Get(id) => (
                self,
                match self.first(id) {
                    Some(row) => ReplyView::Found(row),
                    None => ReplyView::NotFound,
                },
            ),
            Operation::Delete(id) => (
                self.without(id),
                if self.matching(id).len() == 0 {
                    ReplyView::NotFound
                } else {
                    ReplyView::Done
                },
            ),
        }
    }
}

impl<R: Record> Table<R> {
    /// Carries out the operation on the table and answers it.
    pub fn apply(&mut self, operation: Operation<R>) -> (reply: Reply<R>)
        ensures
            final(self)@.wf(),
            (final(self)@, reply@) == old(self)@.apply(operation@),
    {
        match operation {
            Operation::Create(record) => {
                let inserted = self.insert(&record);
                create(record, inserted)
            },
            Operation::List => list(Ok(self.select_ids())),
            Operation::Get(id) => get(Ok(self.select_by_id(id))),
            Operation::Delete(id) => delete(Ok(self.delete_by_id(id))),
        }
    }
}

} // verus!
