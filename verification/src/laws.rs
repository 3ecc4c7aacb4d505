//! What holds of the operations on a resource, whatever the table and the
//! records.

use vstd::prelude::*;
use crate::operation::Operation;
use crate::record::{same_content, Record};
use crate::reply::ReplyView;
use crate::table::TableView;

verus! {

/// In a well-formed table the listed ids are the ids of the rows: an id is
/// listed if and only if a row has it.
pub proof fn lemma_listed_is_held<R: Record>(table: TableView<R>, id: i32)
    requires
        table.wf(),
    ensures
        table.ids().contains(id) <==> table.holds(id),
{
    if table.ids().contains(id) {
        let i = choose|i: int| 0 <= i < table.ids().len() && table.ids()[i] == id;
        assert(R::key(table.rows[i]) == Some(id));
    }
    if table.holds(id) {
        let i = choose|i: int|
            0 <= i < table.rows.len() && #[trigger] R::key(table.rows[i]) == Some(id);
        assert(table.ids()[i] == id);
    }
}

/// Every operation leaves a well-formed table well-formed.
pub proof fn law_apply_keeps_wf<R: Record>(table: TableView<R>, operation: Operation<R::V>)
    requires
        table.wf(),
    ensures
        table.apply(operation).0.wf(),
{
    match operation {
        Operation::Create(row) => {
            if table.has_room() {
                table.lemma_inserted_wf(row);
            }
        },
        Operation::Delete(id) => {
            if table.holds(id) {
                let i = choose|i: int|
                    0 <= i < table.rows.len() && #[trigger] R::key(table.rows[i]) == Some(id);
                table.lemma_hit(id, i);
            } else {
                table.lemma_miss(id);
            }
        },
        _ => {},
    }
}

/// A record that was created is the last one listed, and a get of the id
/// listed for it returns the record as it was submitted, id aside. Create
/// succeeds whenever the table has an id left.
pub proof fn law_create_then_get<R: Record>(table: TableView<R>, row: R::V)
    requires
        table.wf(),
    ensures
        table.apply(Operation::Create(row)).1 is Created <==> table.has_room(),
        table.apply(Operation::Create(row)).1 is Created ==> {
            let after = table.apply(Operation::Create(row)).0;
            let ids = after.ids();
            &&& table.apply(Operation::Create(row)).1 == ReplyView::Created(row)
            &&& after.apply(Operation::List).1 == ReplyView::<R::V>::Listed(ids)
            &&& ids == table.ids().push(ids.last())
            &&& !table.ids().contains(ids.last())
            &&& after.apply(Operation::Get(ids.last())).1 is Found
            &&& same_content::<R>(after.apply(Operation::Get(ids.last())).1->Found_0, row)
            &&& R::key(after.apply(Operation::Get(ids.last())).1->Found_0) == Some(ids.last())
        },
{
    if table.has_room() {
        let after = table.inserted(row);
        let id = after.last;
        R::rekeyed_laws(row, Some(id), None);
        table.lemma_inserted_wf(row);
        after.lemma_hit(id, table.rows.len() as int);
        assert(after.ids() =~= table.ids().push(id));
        // The id is new: every id of the table before is at most its last.
        if table.ids().contains(id) {
            let i = choose|i: int| 0 <= i < table.ids().len() && table.ids()[i] == id;
            assert(R::key(table.rows[i])->0 <= table.last);
        }
    }
}

/// The table after the given operations were applied to `table`, one after
/// the other.
pub open spec fn run<R: Record>(table: TableView<R>, operations: Seq<Operation<R::V>>) -> TableView<
    R,
>
    decreases operations.len(),
{
    if operations.len() == 0 {
        table
    } else {
        run(table, operations.drop_last()).apply(operations.last()).0
    }
}

/// The number of records that the given operations, applied to `table` one
/// after the other, created and did not delete since, counted by the
/// answers: a create that was answered with the record adds one, and a
/// delete that was answered with done takes one.
pub open spec fn live<R: Record>(table: TableView<R>, operations: Seq<Operation<R::V>>) -> int
    decreases operations.len(),
{
    if operations.len() == 0 {
        0
    } else {
        let before = live(table, operations.drop_last());
        let reply = run(table, operations.drop_last()).apply(operations.last()).1;
        match operations.last() {
            Operation::Create(_) => if reply is Created {
                before + 1
            } else {
                before
            },
            Operation::Delete(_) => if reply is Done {
                before - 1
            } else {
                before
            },
            _ => before,
        }
    }
}

/// After any operations on a table that was empty, list returns as many ids
/// as records were created and not deleted since.
pub proof fn law_list_counts_live<R: Record>(table: TableView<R>, operations: Seq<Operation<R::V>>)
    requires
        table.wf(),
        table.rows.len() == 0,
    ensures
        run(table, operations).wf(),
        run(table, operations).apply(Operation::List).1 is Listed,
        run(table, operations).apply(Operation::List).1->Listed_0.len() == live(
            table,
            operations,
        ),
    decreases operations.len(),
{
    if operations.len() > 0 {
        let earlier = operations.drop_last();
        let before = run(table, earlier);
        law_list_counts_live(table, earlier);
        law_apply_keeps_wf(before, operations.last());
        match operations.last() {
            Operation::Delete(id) => {
                if before.holds(id) {
                    let i = choose|i: int|
                        0 <= i < before.rows.len() && #[trigger] R::key(before.rows[i]) == Some(
                            id,
                        );
                    before.lemma_hit(id, i);
                } else {
                    before.lemma_miss(id);
                }
            },
            _ => {},
        }
    }
}

/// A delete of an id that is listed is answered with done and takes that id,
/// and no other, from the list; a second delete of the same id is answered
/// with not found.
pub proof fn law_delete_once<R: Record>(table: TableView<R>, id: i32)
    requires
        table.wf(),
        table.ids().contains(id),
    ensures
        table.apply(Operation::Delete(id)).1 == ReplyView::<R::V>::Done,
        table.apply(Operation::Delete(id)).0.apply(Operation::Delete(id)).1 == ReplyView::<
            R::V,
        >::NotFound,
        !table.apply(Operation::Delete(id)).0.ids().contains(id),
        table.apply(Operation::Delete(id)).0.ids() == table.ids().remove(
            table.ids().index_of(id),
        ),
{
    lemma_listed_is_held(table, id);
    let i = choose|i: int|
        0 <= i < table.rows.len() && #[trigger] R::key(table.rows[i]) == Some(id);
    table.lemma_hit(id, i);
    let after = table.without(id);
    // A row of the table after stands in the table before at the same
    // place, or one place further: it is not the row that left.
    assert forall|j: int| 0 <= j < after.rows.len() implies #[trigger] R::key(after.rows[j])
        != Some(id) && after.ids()[j] == table.ids().remove(i)[j] by {
        let j0 = if j < i { j } else { j + 1 };
        assert(after.rows[j] == table.rows[j0]);
        if j0 < i {
            assert(R::key(table.rows[j0])->0 < R::key(table.rows[i])->0);
        } else {
            assert(R::key(table.rows[i])->0 < R::key(table.rows[j0])->0);
        }
    }
    assert(after.ids() =~= table.ids().remove(i));
    after.lemma_miss(id);
    lemma_listed_is_held(after, id);
    // The id is listed once, at the place of its row.
    assert(table.ids()[i] == id);
    let k = table.ids().index_of(id);
    if k < i {
        assert(R::key(table.rows[k])->0 < R::key(table.rows[i])->0);
    } else if i < k {
        assert(R::key(table.rows[i])->0 < R::key(table.rows[k])->0);
    }
}

/// A delete of an id that is not listed is answered with not found and
/// changes nothing.
pub proof fn law_delete_unlisted<R: Record>(table: TableView<R>, id: i32)
    requires
        table.wf(),
        !table.ids().contains(id),
    ensures
        table.apply(Operation::Delete(id)) == (table, ReplyView::<R::V>::NotFound),
{
    lemma_listed_is_held(table, id);
    table.lemma_miss(id);
}

/// A get of an id that is not listed is answered with not found.
pub proof fn law_get_unlisted<R: Record>(table: TableView<R>, id: i32)
    requires
        table.wf(),
        !table.ids().contains(id),
    ensures
        table.apply(Operation::Get(id)).1 == ReplyView::<R::V>::NotFound,
{
    lemma_listed_is_held(table, id);
    table.lemma_miss(id);
}

/// A get of an id that is listed returns the one row with that id.
pub proof fn law_get_listed<R: Record>(table: TableView<R>, i: int)
    requires
        table.wf(),
        0 <= i < table.ids().len(),
    ensures
        table.apply(Operation::Get(table.ids()[i])).1 == ReplyView::Found(table.rows[i]),
        R::key(table.rows[i]) == Some(table.ids()[i]),
{
    assert(R::key(table.rows[i]) is Some);
    table.lemma_hit(table.ids()[i], i);
}

/// List returns the ids in growing order, so that none comes twice.
pub proof fn law_listed_ids_grow<R: Record>(table: TableView<R>, i: int, j: int)
    requires
        table.wf(),
        0 <= i < j < table.ids().len(),
    ensures
        table.apply(Operation::List).1 == ReplyView::<R::V>::Listed(table.ids()),
        table.ids()[i] < table.ids()[j],
{
    assert(R::key(table.rows[i])->0 < R::key(table.rows[j])->0);
}

/// Deleting all rows of a table, empty or not, leaves a table of which
/// list returns no id, and leaves an empty table as it was.
pub proof fn law_clear_empties<R: Record>(table: TableView<R>)
    ensures
        table.cleared().wf(),
        table.cleared().apply(Operation::List).1 == ReplyView::<R::V>::Listed(Seq::empty()),
        table.rows.len() == 0 ==> table.cleared() == table,
{
    assert(table.cleared().ids() =~= Seq::<i32>::empty());
    if table.rows.len() == 0 {
        assert(table.cleared().rows =~= table.rows);
    }
}

} // verus!
