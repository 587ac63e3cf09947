//! What the service expects of its database.
//!
//! The table is not the library's: the database keeps it, on disk, and the
//! library never sees more of it than what a command reports. This module
//! says, for laws to assume, what a database that keeps its word does to the
//! rows of `todo_list`. Nothing here is proved of any database. The laws that
//! assume it say what then holds of the replies.
//!
//! A table is given by its rows as a listing reads them. The order in which a
//! listing reads is the database's, so the expectations speak of the rows
//! whatever their order.

use vstd::prelude::*;
use crate::model::TodoItemView;

verus! {

/// Whether some row has the key `id`.
pub open spec fn has_key(rows: Seq<TodoItemView>, id: int) -> bool {
    exists|i: int| 0 <= i < rows.len() && (#[trigger] rows[i]).id == id
}

/// Whether no two rows share a key, as the primary key of the table demands.
pub open spec fn keys_differ(rows: Seq<TodoItemView>) -> bool {
    forall|i: int, j: int|
        0 <= i < rows.len() && 0 <= j < rows.len() && i != j ==> (#[trigger] rows[i]).id != (
        #[trigger] rows[j]).id
}

/// What an insert of `text` does: the table gains one row with that text,
/// under a key that no row had, and keeps every other row.
pub open spec fn insert_adds(
    before: Seq<TodoItemView>,
    text: Seq<char>,
    key: int,
    after: Seq<TodoItemView>,
) -> bool {
    &&& !has_key(before, key)
    &&& after.to_multiset() == before.to_multiset().insert(TodoItemView { id: key, item: text })
}

/// What a delete of the key `id` does: the table loses the rows with that key
/// and keeps every other row.
pub open spec fn delete_leaves(before: Seq<TodoItemView>, id: int, after: Seq<TodoItemView>) -> bool {
    after.to_multiset() == before.to_multiset().filter(|row: TodoItemView| row.id != id)
}

/// The number of rows that a delete reports: as many as the table lost.
pub open spec fn rows_lost(before: Seq<TodoItemView>, after: Seq<TodoItemView>) -> nat {
    (before.len() - after.len()) as nat
}

/// A row that is in a table under a key is the only row under that key.
pub proof fn key_finds_one_row(rows: Seq<TodoItemView>, i: int, row: TodoItemView)
    requires
        keys_differ(rows),
        0 <= i < rows.len(),
        rows.contains(row),
        row.id == rows[i].id,
    ensures
        row == rows[i],
        rows.to_multiset().count(row) == 1,
{
    let j = choose|j: int| 0 <= j < rows.len() && rows[j] == row;
    assert(rows[j].id == rows[i].id);
    assert(rows.no_duplicates());
    rows.lemma_multiset_has_no_duplicates();
    vstd::seq_lib::to_multiset_contains(rows, row);
}

} // verus!
