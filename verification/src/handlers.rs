//! The four routes: what each one answers.
//!
//! The landing route answers by itself. The three routes under `/todo` each
//! stand for one operation of the [gateway](crate::gateway); once that
//! operation is over, the route's handler turns its result into the reply. A
//! reply is either a body, sent with status 200, or a failure status. Whether a
//! delete found its row makes no difference to the status: the body tells.
//!
//! A failure is always 500, and each route has one fixed reason for it. The
//! reason is the same whichever step failed, so a reply never tells the client
//! what went wrong inside.

use vstd::prelude::*;
use crate::decimal::{decimal, push_decimal};
use crate::gateway::{completion_view, CompletionView, StorageError, Yield, YieldView};
use crate::model::{Status, StatusMessage, StatusView, TodoItemView, TodoList};

verus! {

/// Body of the landing route.
pub open spec fn greeting() -> Seq<char> {
    "Hello, world!"@
}

/// The one reason that `GET /todo` gives for a failure.
pub open spec fn fetch_failure_text() -> Seq<char> {
    "Error fetching todo items"@
}

/// The one reason that `POST /todo` gives for a failure.
pub open spec fn insert_failure_text() -> Seq<char> {
    "Error inserting"@
}

/// The one reason that `DELETE /todo/<id>` gives for a failure.
pub open spec fn delete_failure_text() -> Seq<char> {
    "Error deleting"@
}

/// The status that reports a failure on a route whose reason is `own`: always
/// 500 with that reason, whatever the storage error was.
pub open spec fn failure(own: Seq<char>) -> StatusView {
    StatusView { code: 500, reason: own }
}

/// Body of a successful insert that changed `count` rows.
pub open spec fn inserted_text(count: nat) -> Seq<char> {
    decimal(count) + " rows inserted"@
}

/// Body of a successful delete that changed `count` rows.
pub open spec fn deleted_text(count: nat) -> Seq<char> {
    decimal(count) + " row deleted"@
}

/// What `GET /todo` answers to a finished listing: the rows as they were read,
/// or the route's failure. A result that is no listing counts as a failure.
pub open spec fn fetch_all_reply(done: CompletionView) -> Result<Seq<TodoItemView>, StatusView> {
    match done {
        Ok(YieldView::Items(rows)) => Ok(rows),
        _ => Err(failure(fetch_failure_text())),
    }
}

/// What `POST /todo` answers to a finished insert: a sentence with the number
/// of rows, or the route's failure. A result that is no row count counts as a
/// failure.
pub open spec fn create_reply(done: CompletionView) -> Result<Seq<char>, StatusView> {
    match done {
        Ok(YieldView::RowsAffected(count)) => Ok(inserted_text(count)),
        _ => Err(failure(insert_failure_text())),
    }
}

/// What `DELETE /todo/<id>` answers to a finished delete: a sentence with the
/// number of rows, zero included, or the route's failure. A result that is no
/// row count counts as a failure.
pub open spec fn delete_reply(done: CompletionView) -> Result<Seq<char>, StatusView> {
    match done {
        Ok(YieldView::RowsAffected(count)) => Ok(deleted_text(count)),
        _ => Err(failure(delete_failure_text())),
    }
}

/// What a listing's reply is in contracts.
pub open spec fn list_reply_view(reply: Result<TodoList, Status>) -> Result<
    Seq<TodoItemView>,
    StatusView,
> {
    match reply {
        Ok(list) => Ok(list@),
        Err(status) => Err(status@),
    }
}

/// What the reply to an insert or a delete is in contracts.
pub open spec fn message_reply_view(reply: Result<StatusMessage, Status>) -> Result<
    Seq<char>,
    StatusView,
> {
    match reply {
        Ok(message) => Ok(message@),
        Err(status) => Err(status@),
    }
}

/// The status code under which a reply in contracts is sent.
pub open spec fn code_of<T>(reply: Result<T, StatusView>) -> int {
    match reply {
        Ok(_) => 200,
        Err(status) => status.code,
    }
}

/// `GET /`: a fixed greeting. It takes nothing, so no state of the database
/// can change what it answers.
pub fn index() -> (body: &'static str)
    ensures
        body@ == greeting(),
{
    "Hello, world!"
}

/// The status for a failure on a route whose reason is `own`.
fn failure_status(own: &'static str) -> (status: Status)
    ensures
        status@ == failure(own@),
{
    Status { code: 500, reason: own }
}

/// The sentence made of `count` in decimal notation and `tail`.
fn counted_message(count: usize, tail: &str) -> (body: StatusMessage)
    ensures
        body@ == decimal(count as nat) + tail@,
{
    let mut message = String::new();
    push_decimal(&mut message, count);
    message.append(tail);
    assert(message@ =~= decimal(count as nat) + tail@);
    StatusMessage { message }
}

/// `GET /todo`: the reply to a finished listing, as [`fetch_all_reply`] says.
pub fn fetch_all_todo(done: Result<Yield, StorageError>) -> (reply: Result<TodoList, Status>)
    ensures
        list_reply_view(reply) == fetch_all_reply(completion_view(done)),
{
    match done {
        Ok(Yield::Items(items)) => Ok(TodoList { items }),
        _ => Err(failure_status("Error fetching todo items")),
    }
}

/// `POST /todo`: the reply to a finished insert, as [`create_reply`] says.
pub fn create_todo(done: Result<Yield, StorageError>) -> (reply: Result<StatusMessage, Status>)
    ensures
        message_reply_view(reply) == create_reply(completion_view(done)),
{
    match done {
        Ok(Yield::RowsAffected(count)) => Ok(counted_message(count, " rows inserted")),
        _ => Err(failure_status("Error inserting")),
    }
}

/// `DELETE /todo/<id>`: the reply to a finished delete, as [`delete_reply`] says.
pub fn delete_todo(done: Result<Yield, StorageError>) -> (reply: Result<StatusMessage, Status>)
    ensures
        message_reply_view(reply) == delete_reply(completion_view(done)),
{
    match done {
        Ok(Yield::RowsAffected(count)) => Ok(counted_message(count, " row deleted")),
        _ => Err(failure_status("Error deleting")),
    }
}

/// The status code under which a reply is sent: 200 with a body, else the
/// code of the failure.
pub fn status_code<T>(reply: &Result<T, Status>) -> (code: u16)
    ensures
        code == match *reply {
            Ok(_) => 200,
            Err(status) => status.code as int,
        },
{
    match reply {
        Ok(_) => 200,
        Err(status) => status.code,
    }
}

} // verus!
