//! What holds of the service as a whole, proved from the rules of the
//! [gateway](crate::gateway), the [handlers](crate::handlers) and
//! [start-up](crate::startup).

use vstd::prelude::*;
use crate::decimal::{decimal, decimal_before_a_tail_is_injective};
use crate::gateway::{
    commands_after, commands_of, query_report, result_after, result_of, run_result, script,
    CompletionView, OperationView, OutcomeView, StorageError, YieldView,
};
use crate::handlers::{
    code_of, create_reply, delete_reply, deleted_text, fetch_all_reply, inserted_text,
};
use crate::model::{StatusView, TodoItemView};
use crate::startup::{self, end_after, end_of, BootEnd, BootOutcome};
use crate::store::{delete_leaves, has_key, insert_adds, key_finds_one_row, keys_differ, rows_lost};

verus! {

/// An operation is over after at most three outcomes, and its result is
/// decided by the first step that fails: a failed connect is a connection
/// error, a failed prepare a preparation error, and otherwise the result is
/// that of the run. Outcomes after the deciding one change nothing.
pub proof fn operation_ends_at_first_failure(operation: OperationView, answers: Seq<OutcomeView>)
    ensures
        answers.len() >= 1 && !(answers[0] is Connected) ==> result_of(operation, answers) == Some(
            Err::<YieldView, StorageError>(StorageError::Connection),
        ),
        answers.len() >= 2 && answers[0] is Connected && !(answers[1] is Prepared) ==> result_of(
            operation,
            answers,
        ) == Some(Err::<YieldView, StorageError>(StorageError::Preparation)),
        answers.len() >= 3 && answers[0] is Connected && answers[1] is Prepared ==> result_of(
            operation,
            answers,
        ) == Some(run_result(operation, answers[2])),
        answers.len() >= 3 ==> result_of(operation, answers) is Some,
        result_of(operation, answers) matches Some(Ok(_)) ==> answers.len() >= 3
            && answers[0] is Connected && answers[1] is Prepared,
{
    reveal_with_fuel(result_after, 4);
    if answers.len() >= 2 {
        let rest = answers.drop_first();
        assert(rest[0] == answers[1]);
        if answers.len() >= 3 {
            assert(rest.drop_first()[0] == answers[2]);
        }
    }
}

/// Whatever is reported, the commands of an operation are an initial part of
/// its script: connect, prepare the one statement, run it with what the
/// request brought. Nothing is asked for twice, out of order, or after a
/// failure, and how far the script gets depends only on which steps succeeded.
pub proof fn commands_follow_the_script(operation: OperationView, answers: Seq<OutcomeView>)
    ensures
        commands_of(operation, answers) == script(operation).take(
            commands_of(operation, answers).len() as int,
        ),
        commands_of(operation, answers).len() == (if answers.len() >= 1 && answers[0] is Connected {
            if answers.len() >= 2 && answers[1] is Prepared {
                3int
            } else {
                2int
            }
        } else {
            1int
        }),
{
    reveal_with_fuel(commands_after, 4);
    if answers.len() >= 2 {
        let rest = answers.drop_first();
        assert(rest[0] == answers[1]);
    }
    let issued = commands_of(operation, answers);
    assert(issued =~= script(operation).take(issued.len() as int));
}

/// A listing hands back rows or an error, never a row count; an insert or a
/// delete hands back a row count or an error, never rows.
pub proof fn result_fits_operation(operation: OperationView, answers: Seq<OutcomeView>)
    ensures
        operation is ListItems ==> !(result_of(operation, answers) matches Some(
            Ok(YieldView::RowsAffected(_)),
        )),
        !(operation is ListItems) ==> !(result_of(operation, answers) matches Some(
            Ok(YieldView::Items(_)),
        )),
{
    reveal_with_fuel(result_after, 4);
}

/// A listing that ran is answered with status 200 and exactly the rows that
/// were read, in their order. If the table is empty, that is the empty list,
/// and no error.
pub proof fn listing_answers_with_the_rows(rows: Seq<TodoItemView>)
    ensures
        result_of(
            OperationView::ListItems,
            seq![OutcomeView::Connected, OutcomeView::Prepared, OutcomeView::Rows(rows)],
        ) == Some(Ok::<YieldView, StorageError>(YieldView::Items(rows))),
        fetch_all_reply(Ok(YieldView::Items(rows))) == Ok::<Seq<TodoItemView>, StatusView>(rows),
        code_of(fetch_all_reply(Ok(YieldView::Items(rows)))) == 200,
{
    operation_ends_at_first_failure(
        OperationView::ListItems,
        seq![OutcomeView::Connected, OutcomeView::Prepared, OutcomeView::Rows(rows)],
    );
}

/// An insert that ran is answered with status 200 and a sentence that names
/// the number of rows the database reported.
pub proof fn insert_answers_with_the_count(text: Seq<char>, count: nat)
    ensures
        result_of(
            OperationView::InsertItem { text },
            seq![OutcomeView::Connected, OutcomeView::Prepared, OutcomeView::Changed(count)],
        ) == Some(Ok::<YieldView, StorageError>(YieldView::RowsAffected(count))),
        create_reply(Ok(YieldView::RowsAffected(count))) == Ok::<Seq<char>, StatusView>(
            decimal(count) + " rows inserted"@,
        ),
        code_of(create_reply(Ok(YieldView::RowsAffected(count)))) == 200,
{
    operation_ends_at_first_failure(
        OperationView::InsertItem { text },
        seq![OutcomeView::Connected, OutcomeView::Prepared, OutcomeView::Changed(count)],
    );
}

/// A delete that ran is answered with status 200 and a sentence that names the
/// number of rows the database reported. That holds for zero as well: a key
/// that is not in the table is no error.
pub proof fn delete_answers_with_the_count(id: int, count: nat)
    ensures
        result_of(
            OperationView::DeleteItem { id },
            seq![OutcomeView::Connected, OutcomeView::Prepared, OutcomeView::Changed(count)],
        ) == Some(Ok::<YieldView, StorageError>(YieldView::RowsAffected(count))),
        delete_reply(Ok(YieldView::RowsAffected(count))) == Ok::<Seq<char>, StatusView>(
            decimal(count) + " row deleted"@,
        ),
        code_of(delete_reply(Ok(YieldView::RowsAffected(count)))) == 200,
{
    operation_ends_at_first_failure(
        OperationView::DeleteItem { id },
        seq![OutcomeView::Connected, OutcomeView::Prepared, OutcomeView::Changed(count)],
    );
}

/// The sentences of two different row counts differ, so the body of a reply
/// tells whether a delete found its row.
pub proof fn sentences_tell_counts_apart(a: nat, b: nat)
    requires
        a != b,
    ensures
        inserted_text(a) != inserted_text(b),
        deleted_text(a) != deleted_text(b),
{
    decimal_before_a_tail_is_injective(a, b, " rows inserted"@);
    decimal_before_a_tail_is_injective(a, b, " row deleted"@);
}

/// If the database cannot be opened, every operation ends with a connection
/// error, whatever is reported afterwards, and each of the three `/todo`
/// routes answers 500 with its own fixed reason. The landing route takes no
/// part in this: it has no input at all.
pub proof fn unreachable_database_fails_every_todo_route(
    operation: OperationView,
    answers: Seq<OutcomeView>,
)
    requires
        answers.len() >= 1,
        !(answers[0] is Connected),
    ensures
        result_of(operation, answers) == Some(
            Err::<YieldView, StorageError>(StorageError::Connection),
        ),
        fetch_all_reply(Err(StorageError::Connection)) == Err::<Seq<TodoItemView>, StatusView>(
            StatusView { code: 500, reason: "Error fetching todo items"@ },
        ),
        create_reply(Err(StorageError::Connection)) == Err::<Seq<char>, StatusView>(
            StatusView { code: 500, reason: "Error inserting"@ },
        ),
        delete_reply(Err(StorageError::Connection)) == Err::<Seq<char>, StatusView>(
            StatusView { code: 500, reason: "Error deleting"@ },
        ),
{
    operation_ends_at_first_failure(operation, answers);
}

/// A failed operation is answered with 500 and the route's one reason,
/// whichever step failed: the reply gives no detail of the cause.
pub proof fn failure_replies_hide_the_cause(error: StorageError)
    ensures
        fetch_all_reply(Err(error)) == Err::<Seq<TodoItemView>, StatusView>(
            StatusView { code: 500, reason: "Error fetching todo items"@ },
        ),
        create_reply(Err(error)) == Err::<Seq<char>, StatusView>(
            StatusView { code: 500, reason: "Error inserting"@ },
        ),
        delete_reply(Err(error)) == Err::<Seq<char>, StatusView>(
            StatusView { code: 500, reason: "Error deleting"@ },
        ),
{
}

/// A listing is all or nothing: if even one row could not be decoded, the
/// operation ends with an execution error and `GET /todo` answers its failure,
/// however many rows were read well.
pub proof fn one_bad_row_fails_the_listing(rows: Seq<TodoItemView>, undecoded: nat)
    requires
        undecoded > 0,
    ensures
        result_of(
            OperationView::ListItems,
            seq![OutcomeView::Connected, OutcomeView::Prepared, query_report(rows, undecoded)],
        ) == Some(Err::<YieldView, StorageError>(StorageError::Execution)),
        fetch_all_reply(Err(StorageError::Execution)) == Err::<Seq<TodoItemView>, StatusView>(
            StatusView { code: 500, reason: "Error fetching todo items"@ },
        ),
{
    operation_ends_at_first_failure(
        OperationView::ListItems,
        seq![OutcomeView::Connected, OutcomeView::Prepared, query_report(rows, undecoded)],
    );
}

/// Insert, then list. Assume of the database that the table had pairwise
/// different keys, and that the insert added one row with `text` under a key
/// that no row had. Then the insert, reported as one row, is answered 200; the
/// listing that follows is answered 200 with the rows of the table; it is one
/// row longer than before; exactly one of its rows is no row of the old table,
/// and that row has the text and the new key; every old row is still there;
/// and its keys are pairwise different again.
pub proof fn insert_then_list_shows_the_text_under_a_new_key(
    before: Seq<TodoItemView>,
    text: Seq<char>,
    key: int,
    after: Seq<TodoItemView>,
)
    requires
        keys_differ(before),
        insert_adds(before, text, key, after),
    ensures
        create_reply(Ok(YieldView::RowsAffected(1))) == Ok::<Seq<char>, StatusView>(
            decimal(1) + " rows inserted"@,
        ),
        result_of(
            OperationView::ListItems,
            seq![OutcomeView::Connected, OutcomeView::Prepared, OutcomeView::Rows(after)],
        ) == Some(Ok::<YieldView, StorageError>(YieldView::Items(after))),
        fetch_all_reply(Ok(YieldView::Items(after))) == Ok::<Seq<TodoItemView>, StatusView>(after),
        after.len() == before.len() + 1,
        !before.contains(TodoItemView { id: key, item: text }),
        exists|i: int|
            0 <= i < after.len() && #[trigger] after[i] == (TodoItemView { id: key, item: text })
                && forall|j: int|
                0 <= j < after.len() && j != i ==> before.contains(#[trigger] after[j]),
        forall|j: int| 0 <= j < before.len() ==> after.contains(#[trigger] before[j]),
        keys_differ(after),
{
    let added = TodoItemView { id: key, item: text };
    let old = before.to_multiset();
    let new = after.to_multiset();
    listing_answers_with_the_rows(after);
    vstd::seq_lib::to_multiset_len(before);
    vstd::seq_lib::to_multiset_len(after);
    assert forall|row: TodoItemView| before.contains(row) <==> old.count(row) > 0 by {
        vstd::seq_lib::to_multiset_contains(before, row);
    }
    assert forall|row: TodoItemView| after.contains(row) <==> new.count(row) > 0 by {
        vstd::seq_lib::to_multiset_contains(after, row);
    }
    assert forall|row: TodoItemView| new.count(row) == old.count(row) + (if row == added {
        1int
    } else {
        0int
    }) by {}
    assert(!before.contains(added)) by {
        if before.contains(added) {
            let at = choose|at: int| 0 <= at < before.len() && before[at] == added;
            assert(before[at].id == key);
        }
    }
    assert(before.no_duplicates());
    before.lemma_multiset_has_no_duplicates();
    assert forall|row: TodoItemView| new.contains(row) implies new.count(row) == 1 by {}
    after.lemma_multiset_has_no_duplicates_conv();
    assert(after.contains(added));
    let i = choose|i: int| 0 <= i < after.len() && after[i] == added;
    assert forall|j: int| 0 <= j < after.len() && j != i implies before.contains(
        #[trigger] after[j],
    ) by {
        assert(after.contains(after[j]));
        assert(after[j] != after[i]);
    }
    assert forall|j: int| 0 <= j < before.len() implies after.contains(#[trigger] before[j]) by {
        assert(before.contains(before[j]));
    }
    assert forall|a: int, b: int| 0 <= a < after.len() && 0 <= b < after.len() && a != b implies (
    #[trigger] after[a]).id != (#[trigger] after[b]).id by {
        assert(after[a] != after[b]);
        assert(after.contains(after[a]) && after.contains(after[b]));
        if after[a].id == after[b].id {
            if after[a] != added && after[b] != added {
                let x = choose|x: int| 0 <= x < before.len() && before[x] == after[a];
                let y = choose|y: int| 0 <= y < before.len() && before[y] == after[b];
                assert(before[x].id == before[y].id);
            } else if after[a] == added {
                let y = choose|y: int| 0 <= y < before.len() && before[y] == after[b];
                assert(before[y].id == key);
            } else {
                let x = choose|x: int| 0 <= x < before.len() && before[x] == after[a];
                assert(before[x].id == key);
            }
        }
    }
}

/// Delete of a key that is not there. Assume of the database that the delete
/// removed the rows with the key `id` and no others, and that no row had that
/// key. Then no row was lost, the table holds the same rows as before, and
/// the delete, reported with that count, is answered 200 with the sentence for
/// zero rows: it is no error.
pub proof fn delete_of_an_absent_key_changes_nothing(
    before: Seq<TodoItemView>,
    id: int,
    after: Seq<TodoItemView>,
)
    requires
        !has_key(before, id),
        delete_leaves(before, id, after),
    ensures
        rows_lost(before, after) == 0,
        after.to_multiset() == before.to_multiset(),
        result_of(
            OperationView::DeleteItem { id },
            seq![
                OutcomeView::Connected,
                OutcomeView::Prepared,
                OutcomeView::Changed(rows_lost(before, after)),
            ],
        ) == Some(Ok::<YieldView, StorageError>(YieldView::RowsAffected(0))),
        delete_reply(Ok(YieldView::RowsAffected(0))) == Ok::<Seq<char>, StatusView>(
            decimal(0) + " row deleted"@,
        ),
        code_of(delete_reply(Ok(YieldView::RowsAffected(0)))) == 200,
{
    let old = before.to_multiset();
    assert forall|row: TodoItemView| row.id == id implies old.count(row) == 0 by {
        vstd::seq_lib::to_multiset_contains(before, row);
        if before.contains(row) {
            let at = choose|at: int| 0 <= at < before.len() && before[at] == row;
            assert(before[at].id == id);
        }
    }
    assert(after.to_multiset() =~= old);
    vstd::seq_lib::to_multiset_len(before);
    vstd::seq_lib::to_multiset_len(after);
    delete_answers_with_the_count(id, 0);
}

/// Delete of a key that is there. Assume of the database that the table had
/// pairwise different keys, one of them `id`, and that each delete removed the
/// rows with that key and no others. Then the first delete lost exactly one
/// row and is answered 200 with the sentence for one row; the listing that
/// follows is answered 200 with a table that is one row shorter and has no row
/// with that key; and a second delete of the same key loses nothing and is
/// answered with the sentence for zero rows.
pub proof fn delete_of_a_present_key_removes_it_once(
    before: Seq<TodoItemView>,
    id: int,
    after: Seq<TodoItemView>,
    again: Seq<TodoItemView>,
)
    requires
        keys_differ(before),
        has_key(before, id),
        delete_leaves(before, id, after),
        delete_leaves(after, id, again),
    ensures
        rows_lost(before, after) == 1,
        result_of(
            OperationView::DeleteItem { id },
            seq![
                OutcomeView::Connected,
                OutcomeView::Prepared,
                OutcomeView::Changed(rows_lost(before, after)),
            ],
        ) == Some(Ok::<YieldView, StorageError>(YieldView::RowsAffected(1))),
        delete_reply(Ok(YieldView::RowsAffected(1))) == Ok::<Seq<char>, StatusView>(
            decimal(1) + " row deleted"@,
        ),
        fetch_all_reply(Ok(YieldView::Items(after))) == Ok::<Seq<TodoItemView>, StatusView>(after),
        after.len() == before.len() - 1,
        !has_key(after, id),
        forall|j: int| 0 <= j < after.len() ==> before.contains(#[trigger] after[j]),
        forall|j: int|
            0 <= j < before.len() && (#[trigger] before[j]).id != id ==> after.contains(before[j]),
        rows_lost(after, again) == 0,
        delete_reply(Ok(YieldView::RowsAffected(rows_lost(after, again)))) == Ok::<
            Seq<char>,
            StatusView,
        >(decimal(0) + " row deleted"@),
{
    let old = before.to_multiset();
    let new = after.to_multiset();
    let at = choose|at: int| 0 <= at < before.len() && (#[trigger] before[at]).id == id;
    let gone = before[at];
    assert(before.contains(gone));
    assert forall|row: TodoItemView| before.contains(row) <==> old.count(row) > 0 by {
        vstd::seq_lib::to_multiset_contains(before, row);
    }
    assert forall|row: TodoItemView| after.contains(row) <==> new.count(row) > 0 by {
        vstd::seq_lib::to_multiset_contains(after, row);
    }
    assert forall|row: TodoItemView| old.count(row) == new.insert(gone).count(row) by {
        if row.id == id {
            if before.contains(row) {
                key_finds_one_row(before, at, row);
            }
        }
    }
    assert(old =~= new.insert(gone));
    vstd::seq_lib::to_multiset_len(before);
    vstd::seq_lib::to_multiset_len(after);
    assert(!has_key(after, id)) by {
        if has_key(after, id) {
            let i = choose|i: int| 0 <= i < after.len() && (#[trigger] after[i]).id == id;
            assert(after.contains(after[i]));
        }
    }
    assert forall|j: int| 0 <= j < after.len() implies before.contains(#[trigger] after[j]) by {
        assert(after.contains(after[j]));
    }
    assert forall|j: int| 0 <= j < before.len() && (#[trigger] before[j]).id != id implies
        after.contains(before[j]) by {
        assert(before.contains(before[j]));
    }
    delete_answers_with_the_count(id, 1);
    listing_answers_with_the_rows(after);
    delete_of_an_absent_key_changes_nothing(after, id, again);
}

/// Every reply of a `/todo` route is sent as 200 or as 500, and a storage
/// error is always sent as 500.
pub proof fn every_reply_is_200_or_500(done: CompletionView)
    ensures
        code_of(fetch_all_reply(done)) == 200 || code_of(fetch_all_reply(done)) == 500,
        code_of(create_reply(done)) == 200 || code_of(create_reply(done)) == 500,
        code_of(delete_reply(done)) == 200 || code_of(delete_reply(done)) == 500,
        done is Err ==> code_of(fetch_all_reply(done)) == 500 && code_of(create_reply(done)) == 500
            && code_of(delete_reply(done)) == 500,
{
}

/// Start-up is soft on a database that cannot be opened and hard on one that
/// refuses a table. It ends after at most three outcomes. If connecting fails,
/// the service starts without tables and no statement is tried. Once connected,
/// the service starts only after both statements ran, `users` first; if either
/// is refused, the process stops, and the second is not tried after the first
/// was refused.
pub proof fn startup_is_soft_on_connect_and_hard_on_tables(answers: Seq<BootOutcome>)
    ensures
        answers.len() >= 1 && answers[0] != BootOutcome::Connected ==> end_of(answers) == Some(
            BootEnd::Serve { tables_ensured: false },
        ),
        answers.len() >= 2 && answers[0] == BootOutcome::Connected && answers[1]
            != BootOutcome::Executed ==> end_of(answers) == Some(BootEnd::Abort),
        answers.len() >= 3 && answers[0] == BootOutcome::Connected && answers[1]
            == BootOutcome::Executed ==> end_of(answers) == Some(
            if answers[2] == BootOutcome::Executed {
                BootEnd::Serve { tables_ensured: true }
            } else {
                BootEnd::Abort
            },
        ),
        answers.len() >= 3 ==> end_of(answers) is Some,
        end_of(answers) == Some(BootEnd::Serve { tables_ensured: true }) ==> answers.len() >= 3
            && answers[0] == BootOutcome::Connected && answers[1] == BootOutcome::Executed
            && answers[2] == BootOutcome::Executed,
        end_of(answers) == Some(BootEnd::Abort) ==> answers.len() >= 2 && answers[0]
            == BootOutcome::Connected,
{
    reveal_with_fuel(end_after, 4);
    if answers.len() >= 2 {
        let rest = answers.drop_first();
        assert(rest[0] == answers[1]);
        if answers.len() >= 3 {
            assert(rest.drop_first()[0] == answers[2]);
        }
    }
}

/// Whatever is reported, the commands of start-up are an initial part of its
/// script: connect, make sure of `users`, make sure of `todo_list`. Nothing is
/// asked for twice, out of order, or after a failure.
pub proof fn startup_commands_follow_the_script(answers: Seq<BootOutcome>)
    ensures
        startup::commands_of(answers) == startup::script().take(
            startup::commands_of(answers).len() as int,
        ),
        startup::commands_of(answers).len() == (if answers.len() >= 1 && answers[0]
            == BootOutcome::Connected {
            if answers.len() >= 2 && answers[1] == BootOutcome::Executed {
                3int
            } else {
                2int
            }
        } else {
            1int
        }),
{
    reveal_with_fuel(startup::commands_after, 4);
    if answers.len() >= 2 {
        let rest = answers.drop_first();
        assert(rest[0] == answers[1]);
    }
    let issued = startup::commands_of(answers);
    assert(issued =~= startup::script().take(issued.len() as int));
}

} // verus!
