//! A table of records held in memory, and what the statements on it mean:
//! insert, select the ids, select by id, delete by id, delete all.

use vstd::prelude::*;
use crate::record::Record;
use crate::seq_lemmas::{lemma_filter_around, lemma_filter_drops_all, lemma_filter_keeps_all};

verus! {

/// Why a statement was not carried out.
#[derive(Clone, Copy, Debug, PartialEq, Eq, Structural)]
pub enum StoreError {
    /// The table has assigned its last id.
    Exhausted,
    /// The storage behind the service failed.
    Backend,
}

/// The test that a row has the given id.
pub open spec fn has_id<R: Record>(id: i32) -> spec_fn(R::V) -> bool {
    |row: R::V| R::key(row) == Some(id)
}

/// The test that a row has another id, or none.
pub open spec fn lacks_id<R: Record>(id: i32) -> spec_fn(R::V) -> bool {
    |row: R::V| R::key(row) != Some(id)
}

/// What a table holds: its rows, oldest first, and the last id it assigned.
pub struct TableView<R: Record> {
    pub rows: Seq<R::V>,
    pub last: i32,
}

impl<R: Record> TableView<R> {
    /// Every row has an id, no id is above the last one assigned, and the
    /// ids grow along the rows, so that no two rows share one.
    pub open spec fn wf(self) -> bool {
        &&& forall|i: int|
            0 <= i < self.rows.len() ==> {
                &&& (#[trigger] R::key(self.rows[i])) is Some
                &&& R::key(self.rows[i])->0 <= self.last
            }
        &&& forall|i: int, j: int|
            0 <= i < j < self.rows.len() ==> (#[trigger] R::key(self.rows[i]))->0 < (
            #[trigger] R::key(self.rows[j]))->0
    }

    /// The table without rows that has assigned ids up to `last`.
    pub open spec fn empty(last: i32) -> Self {
        TableView { rows: Seq::empty(), last }
    }

    /// Whether an id is left for one more row.
    pub open spec fn has_room(self) -> bool {
        self.last < i32::MAX
    }

    /// The table after `row` was inserted: it stands last, under the id that
    /// follows the last one assigned, whatever id it came with.
    pub open spec fn inserted(self, row: R::V) -> Self
        recommends
            self.has_room(),
    {
        let id = (self.last + 1) as i32;
        TableView { rows: self.rows.push(R::rekeyed(row, Some(id))), last: id }
    }

    /// The ids of the rows, in the order of the rows.
    pub open spec fn ids(self) -> Seq<i32> {
        Seq::new(self.rows.len(), |i: int| R::key(self.rows[i]).unwrap())
    }

    /// The rows that a statement on `id` affects.
    pub open spec fn matching(self, id: i32) -> Seq<R::V> {
        self.rows.filter(has_id::<R>(id))
    }

    /// The first row with the given id, if there is one.
    pub open spec fn first(self, id: i32) -> Option<R::V> {
        if self.matching(id).len() > 0 {
            Some(self.matching(id)[0])
        } else {
            None
        }
    }

    /// The table after the rows with the given id were deleted.
    pub open spec fn without(self, id: i32) -> Self {
        TableView { rows: self.rows.filter(lacks_id::<R>(id)), last: self.last }
    }

    /// The table after all its rows were deleted. The ids that it assigned
    /// stay assigned.
    pub open spec fn cleared(self) -> Self {
        TableView { rows: Seq::empty(), last: self.last }
    }

    /// Whether a row has the given id.
    pub open spec fn holds(self, id: i32) -> bool {
        exists|i: int| 0 <= i < self.rows.len() && #[trigger] R::key(self.rows[i]) == Some(id)
    }

    /// In a well-formed table the row at `i` is the only one with its id:
    /// a statement on that id finds and affects this row and no other.
    pub proof fn lemma_hit(self, id: i32, i: int)
        requires
            self.wf(),
            0 <= i < self.rows.len(),
            R::key(self.rows[i]) == Some(id),
        ensures
            self.matching(id) == seq![self.rows[i]],
            self.first(id) == Some(self.rows[i]),
            self.without(id).rows == self.rows.remove(i),
            self.without(id).wf(),
    {
        let before = self.rows.take(i);
        let behind = self.rows.skip(i + 1);
        assert forall|j: int| 0 <= j < before.len() implies !has_id::<R>(id)(
            #[trigger] before[j],
        ) && lacks_id::<R>(id)(before[j]) by {
            assert(R::key(self.rows[j])->0 < R::key(self.rows[i])->0);
        }
        assert forall|j: int| 0 <= j < behind.len() implies !has_id::<R>(id)(
            #[trigger] behind[j],
        ) && lacks_id::<R>(id)(behind[j]) by {
            assert(R::key(self.rows[i])->0 < R::key(self.rows[i + 1 + j])->0);
        }
        lemma_filter_around(self.rows, has_id::<R>(id), i);
        lemma_filter_drops_all(before, has_id::<R>(id));
        lemma_filter_drops_all(behind, has_id::<R>(id));
        assert(self.matching(id) =~= seq![self.rows[i]]);
        lemma_filter_around(self.rows, lacks_id::<R>(id), i);
        lemma_filter_keeps_all(before, lacks_id::<R>(id));
        lemma_filter_keeps_all(behind, lacks_id::<R>(id));
        let rest = self.rows.remove(i);
        assert(self.without(id).rows =~= rest);
        // A row of the rest stands in the table at the same place, or one
        // place further where it stood behind the row that left.
        assert forall|a: int| 0 <= a < rest.len() implies {
            &&& (#[trigger] R::key(rest[a])) is Some
            &&& R::key(rest[a])->0 <= self.last
        } by {
            let a0 = if a < i { a } else { a + 1 };
            assert(rest[a] == self.rows[a0]);
        }
        assert forall|a: int, b: int| 0 <= a < b < rest.len() implies (#[trigger] R::key(
            rest[a],
        ))->0 < (#[trigger] R::key(rest[b]))->0 by {
            let a0 = if a < i { a } else { a + 1 };
            let b0 = if b < i { b } else { b + 1 };
            assert(rest[a] == self.rows[a0]);
            assert(rest[b] == self.rows[b0]);
            assert(R::key(self.rows[a0])->0 < R::key(self.rows[b0])->0);
        }
    }

    /// Where no row has the given id, a statement on that id finds nothing
    /// and affects nothing.
    pub proof fn lemma_miss(self, id: i32)
        requires
            !self.holds(id),
        ensures
            self.matching(id) == Seq::<R::V>::empty(),
            self.first(id) is None,
            self.without(id) == self,
    {
        assert forall|j: int| 0 <= j < self.rows.len() implies !has_id::<R>(id)(
            #[trigger] self.rows[j],
        ) && lacks_id::<R>(id)(self.rows[j]) by {
            assert(R::key(self.rows[j]) != Some(id));
        }
        lemma_filter_drops_all(self.rows, has_id::<R>(id));
        lemma_filter_keeps_all(self.rows, lacks_id::<R>(id));
    }

    /// A well-formed table with room stays well-formed when a row is
    /// inserted.
    pub proof fn lemma_inserted_wf(self, row: R::V)
        requires
            self.wf(),
            self.has_room(),
        ensures
            self.inserted(row).wf(),
    {
        let id = (self.last + 1) as i32;
        let next = self.inserted(row);
        R::rekeyed_laws(row, Some(id), None);
        assert forall|a: int| 0 <= a < next.rows.len() implies {
            &&& (#[trigger] R::key(next.rows[a])) is Some
            &&& R::key(next.rows[a])->0 <= next.last
        } by {
            if a < self.rows.len() {
                assert(next.rows[a] == self.rows[a]);
            }
        }
        assert forall|a: int, b: int| 0 <= a < b < next.rows.len() implies (#[trigger] R::key(
            next.rows[a],
        ))->0 < (#[trigger] R::key(next.rows[b]))->0 by {
            assert(next.rows[a] == self.rows[a]);
            if b < self.rows.len() {
                assert(next.rows[b] == self.rows[b]);
            }
        }
    }
}

/// The views of the given records, in their order.
pub open spec fn rows_of<R: Record>(records: Seq<R>) -> Seq<R::V> {
    records.map_values(|r: R| r@)
}

/// The view of a record that may be absent.
pub open spec fn row_of<R: Record>(record: Option<R>) -> Option<R::V> {
    match record {
        Some(r) => Some(r@),
        None => None,
    }
}

/// A table of records of one resource, held in memory.
///
/// It assigns the ids: each inserted row gets the id that follows the last
/// one assigned, and an id is not assigned again, also not after its row was
/// deleted.
pub struct Table<R: Record> {
    rows: Vec<R>,
    last: i32,
}

impl<R: Record> View for Table<R> {
    type V = TableView<R>;

    closed spec fn view(&self) -> TableView<R> {
        TableView { rows: rows_of(self.rows@), last: self.last }
    }
}

impl<R: Record> Table<R> {
    #[verifier::type_invariant]
    spec fn inv(self) -> bool {
        self@.wf()
    }

    /// An empty table whose first row will get the id 1.
    pub fn new() -> (table: Self)
        ensures
            table@ == TableView::<R>::empty(0),
            table@.wf(),
    {
        Self::starting_after(0)
    }

    /// An empty table whose first row will get the id that follows `last`.
    pub fn starting_after(last: i32) -> (table: Self)
        ensures
            table@ == TableView::<R>::empty(last),
            table@.wf(),
    {
        let rows: Vec<R> = Vec::new();
        assert(rows_of(rows@) =~= Seq::empty());
        Table { rows, last }
    }

    /// The number of rows.
    pub fn len(&self) -> (n: usize)
        ensures
            n == self@.rows.len(),
            self@.wf(),
    {
        proof {
            use_type_invariant(self);
        }
        self.rows.len()
    }

    /// Inserts a copy of `record` as a new row and returns the number of
    /// rows affected, which is 1. The table is left as it was when it has no
    /// id left.
    pub fn insert(&mut self, record: &R) -> (out: Result<usize, StoreError>)
        ensures
            final(self)@.wf(),
            old(self)@.has_room() ==> out == Ok::<usize, StoreError>(1) && final(self)@ == old(
                self,
            )@.inserted(record@),
            !old(self)@.has_room() ==> out == Err::<usize, StoreError>(StoreError::Exhausted)
                && final(self)@ == old(self)@,
    {
        proof {
            use_type_invariant(&*self);
        }
        if self.last == i32::MAX {
            return Err(StoreError::Exhausted);
        }
        let id = self.last + 1;
        let row = record.with_id(Some(id));
        let mut rows: Vec<R> = Vec::new();
        std::mem::swap(&mut rows, &mut self.rows);
        rows.push(row);
        proof {
            old(self)@.lemma_inserted_wf(record@);
            assert(rows_of(rows@) =~= old(self)@.inserted(record@).rows);
        }
        self.last = id;
        self.rows = rows;
        Ok(1)
    }

    /// The ids of all rows, oldest row first.
    pub fn select_ids(&self) -> (ids: Vec<i32>)
        ensures
            ids@ == self@.ids(),
            self@.wf(),
    {
        proof {
            use_type_invariant(self);
        }
        let mut ids: Vec<i32> = Vec::new();
        let mut i: usize = 0;
        while i < self.rows.len()
            invariant
                i <= self.rows.len(),
                self@.wf(),
                ids@ == self@.ids().take(i as int),
            decreases self.rows.len() - i,
        {
            assert(R::key(self@.rows[i as int]) is Some);
            if let Some(id) = self.rows[i].id() {
                ids.push(id);
            }
            i += 1;
        }
        ids
    }

    /// A copy of the first row with the given id, if there is one.
    pub fn select_by_id(&self, id: i32) -> (found: Option<R>)
        ensures
            row_of(found) == self@.first(id),
            self@.wf(),
    {
        proof {
            use_type_invariant(self);
        }
        let mut i: usize = 0;
        while i < self.rows.len()
            invariant
                i <= self.rows.len(),
                self@.wf(),
                forall|j: int| 0 <= j < i ==> #[trigger] R::key(self@.rows[j]) != Some(id),
            decreases self.rows.len() - i,
        {
            if let Some(k) = self.rows[i].id() {
                if k == id {
                    // The row carries `id` already: this copies it.
                    let row = self.rows[i].with_id(Some(id));
                    proof {
                        R::rekeyed_laws(self@.rows[i as int], None, None);
                        self@.lemma_hit(id, i as int);
                    }
                    return Some(row);
                }
            }
            i += 1;
        }
        proof {
            self@.lemma_miss(id);
        }
        None
    }

    /// Deletes the rows with the given id and returns how many they were.
    pub fn delete_by_id(&mut self, id: i32) -> (affected: usize)
        ensures
            final(self)@.wf(),
            final(self)@ == old(self)@.without(id),
            affected == old(self)@.matching(id).len(),
    {
        proof {
            use_type_invariant(&*self);
        }
        let mut i: usize = 0;
        while i < self.rows.len()
            invariant
                i <= self.rows.len(),
                *self == *old(self),
                self@.wf(),
                forall|j: int| 0 <= j < i ==> #[trigger] R::key(self@.rows[j]) != Some(id),
            decreases self.rows.len() - i,
        {
            if let Some(k) = self.rows[i].id() {
                if k == id {
                    let mut rows: Vec<R> = Vec::new();
                    std::mem::swap(&mut rows, &mut self.rows);
                    rows.remove(i);
                    proof {
                        old(self)@.lemma_hit(id, i as int);
                        assert(rows_of(rows@) =~= old(self)@.rows.remove(i as int));
                    }
                    self.rows = rows;
                    return 1;
                }
            }
            i += 1;
        }
        proof {
            self@.lemma_miss(id);
        }
        0
    }

    /// Deletes all rows and returns how many they were.
    pub fn delete_all(&mut self) -> (affected: usize)
        ensures
            final(self)@.wf(),
            final(self)@ == old(self)@.cleared(),
            affected == old(self)@.rows.len(),
    {
        proof {
            use_type_invariant(&*self);
        }
        let affected = self.rows.len();
        let rows: Vec<R> = Vec::new();
        assert(rows_of(rows@) =~= Seq::empty());
        self.rows = rows;
        affected
    }
}

} // verus!
