//! What the service answers, and how each operation decides its answer from
//! what the storage returned.

use vstd::prelude::*;
use crate::record::Record;
use crate::table::StoreError;

verus! {

/// The status of an answer.
#[derive(Clone, Copy, Debug, PartialEq, Eq, Structural)]
pub enum Status {
    Success,
    Created,
    NotFound,
    UnprocessableEntity,
    InternalServerError,
}

impl Status {
    /// The status code.
    pub open spec fn number(self) -> u16 {
        match self {
            Status::Success => 200,
            Status::Created => 201,
            Status::NotFound => 404,
            Status::UnprocessableEntity => 422,
            Status::InternalServerError => 500,
        }
    }

    /// The status code.
    pub fn code(self) -> (code: u16)
        ensures
            code == self.number(),
    {
        match self {
            Status::Success => 200,
            Status::Created => 201,
            Status::NotFound => 404,
            Status::UnprocessableEntity => 422,
            Status::InternalServerError => 500,
        }
    }
}

/// The answer to an operation on a resource.
#[derive(Clone, Debug, PartialEq, Eq)]
pub enum Reply<R> {
    /// The record was stored. It is returned as it was submitted.
    Created(R),
    /// The ids of the records.
    Listed(Vec<i32>),
    /// The record that was asked for.
    Found(R),
    /// The operation was carried out and there is nothing to return.
    Done,
    /// There is no record with the given id. This is no failure.
    NotFound,
    /// The storage failed.
    Failed(StoreError),
}

/// What a [`Reply`] holds.
pub enum ReplyView<V> {
    Created(V),
    Listed(Seq<i32>),
    Found(V),
    Done,
    NotFound,
    Failed(StoreError),
}

impl<V> ReplyView<V> {
    /// The status that the answer goes out with.
    pub open spec fn status(self) -> Status {
        match self {
            ReplyView::Created(_) => Status::Created,
            ReplyView::Listed(_) => Status::Success,
            ReplyView::Found(_) => Status::Success,
            ReplyView::Done => Status::Success,
            ReplyView::NotFound => Status::NotFound,
            ReplyView::Failed(_) => Status::InternalServerError,
        }
    }
}

impl<R: Record> View for Reply<R> {
    type V = ReplyView<R::V>;

    open spec fn view(&self) -> ReplyView<R::V> {
        match self {
            Reply::Created(record) => ReplyView::Created(record@),
            Reply::Listed(ids) => ReplyView::Listed(ids@),
            Reply::Found(record) => ReplyView::Found(record@),
            Reply::Done => ReplyView::Done,
            Reply::NotFound => ReplyView::NotFound,
            Reply::Failed(error) => ReplyView::Failed(*error),
        }
    }
}

impl<R: Record> Reply<R> {
    /// The status that the answer goes out with.
    pub fn status(&self) -> (status: Status)
        ensures
            status == self@.status(),
    {
        match self {
            Reply::Created(_) => Status::Created,
            Reply::Listed(_) => Status::Success,
            Reply::Found(_) => Status::Success,
            Reply::Done => Status::Success,
            Reply::NotFound => Status::NotFound,
            Reply::Failed(_) => Status::InternalServerError,
        }
    }
}

/// The answer to the submission of `row`, where the insert statement
/// returned `inserted`: the row as it was submitted, unless the storage
/// failed.
pub open spec fn created<V>(row: V, inserted: Result<usize, StoreError>) -> ReplyView<V> {
    match inserted {
        Ok(_) => ReplyView::Created(row),
        Err(error) => ReplyView::Failed(error),
    }
}

/// The answer to a request for the ids, where the select statement returned
/// `ids`.
pub open spec fn listed<V>(ids: Result<Seq<i32>, StoreError>) -> ReplyView<V> {
    match ids {
        Ok(ids) => ReplyView::Listed(ids),
        Err(error) => ReplyView::Failed(error),
    }
}

/// The answer to a request for one record, where the select statement
/// returned `row`.
pub open spec fn found<V>(row: Result<Option<V>, StoreError>) -> ReplyView<V> {
    match row {
        Ok(Some(row)) => ReplyView::Found(row),
        Ok(None) => ReplyView::NotFound,
        Err(error) => ReplyView::Failed(error),
    }
}

/// The answer to a request to delete one record, where the delete statement
/// affected `affected` rows: not found if it affected none.
pub open spec fn deleted<V>(affected: Result<usize, StoreError>) -> ReplyView<V> {
    match affected {
        Ok(n) => if n == 0 {
            ReplyView::NotFound
        } else {
            ReplyView::Done
        },
        Err(error) => ReplyView::Failed(error),
    }
}

/// The answer when all records were to be deleted and the delete statement
/// affected `affected` rows: done, however many they were. No request asks
/// for this; the holder of a service may.
pub open spec fn cleared<V>(affected: Result<usize, StoreError>) -> ReplyView<V> {
    match affected {
        Ok(_) => ReplyView::Done,
        Err(error) => ReplyView::Failed(error),
    }
}

/// The ids that a select statement returned, as a sequence.
pub open spec fn ids_of(ids: Result<Vec<i32>, StoreError>) -> Result<Seq<i32>, StoreError> {
    match ids {
        Ok(ids) => Ok(ids@),
        Err(error) => Err(error),
    }
}

/// The row that a select statement returned, as a view.
pub open spec fn outcome_of<R: Record>(row: Result<Option<R>, StoreError>) -> Result<
    Option<R::V>,
    StoreError,
> {
    match row {
        Ok(Some(record)) => Ok(Some(record@)),
        Ok(None) => Ok(None),
        Err(error) => Err(error),
    }
}

/// Answers the submission of `record`, given what the insert statement
/// returned.
pub fn create<R: Record>(record: R, inserted: Result<usize, StoreError>) -> (reply: Reply<R>)
    ensures
        reply@ == created(record@, inserted),
{
    match inserted {
        Ok(_) => Reply::Created(record),
        Err(error) => Reply::Failed(error),
    }
}

/// Answers a request for the ids, given what the select statement returned.
pub fn list<R: Record>(ids: Result<Vec<i32>, StoreError>) -> (reply: Reply<R>)
    ensures
        reply@ == listed::<R::V>(ids_of(ids)),
{
    match ids {
        Ok(ids) => Reply::Listed(ids),
        Err(error) => Reply::Failed(error),
    }
}

/// Answers a request for one record, given what the select statement
/// returned.
pub fn get<R: Record>(row: Result<Option<R>, StoreError>) -> (reply: Reply<R>)
    ensures
        reply@ == found(outcome_of(row)),
{
    match row {
        Ok(Some(record)) => Reply::Found(record),
        Ok(None) => Reply::NotFound,
        Err(error) => Reply::Failed(error),
    }
}

/// Answers a request to delete one record, given what the delete statement
/// returned.
pub fn delete<R: Record>(affected: Result<usize, StoreError>) -> (reply: Reply<R>)
    ensures
        reply@ == deleted::<R::V>(affected),
{
    match affected {
        Ok(n) => if n == 0 {
            Reply::NotFound
        } else {
            Reply::Done
        },
        Err(error) => Reply::Failed(error),
    }
}

/// Answers the deleting of all records, given what the delete statement
/// returned.
pub fn clear<R: Record>(affected: Result<usize, StoreError>) -> (reply: Reply<R>)
    ensures
        reply@ == cleared::<R::V>(affected),
{
    match affected {
        Ok(_) => Reply::Done,
        Err(error) => Reply::Failed(error),
    }
}

} // verus!
