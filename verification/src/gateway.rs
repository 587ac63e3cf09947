//! The persistence gateway: one database operation, step by step.
//!
//! An operation is carried out on a connection of its own, in three steps:
//! connect, prepare one statement, run it. Each step is work that only the
//! caller can do. So the gateway is written as a dialogue: it names the next
//! [`Command`], the caller carries it out and reports the [`Outcome`], and
//! [`advance`] decides what follows. No step is ever asked for twice.

use vstd::prelude::*;
use crate::model::{item_views, TodoItem, TodoItemView};

verus! {

/// What the service can ask of its storage.
#[derive(Debug, Clone, PartialEq, Eq)]
pub enum Operation {
    /// Read every row of the table.
    ListItems,
    /// Add one row with this text; the database assigns the key.
    InsertItem { text: String },
    /// Remove the row with this key, if there is one.
    DeleteItem { id: i64 },
}

/// What an [`Operation`] is in contracts.
pub enum OperationView {
    ListItems,
    InsertItem { text: Seq<char> },
    DeleteItem { id: int },
}

impl View for Operation {
    type V = OperationView;

    open spec fn view(&self) -> OperationView {
        match *self {
            Operation::ListItems => OperationView::ListItems,
            Operation::InsertItem { text } => OperationView::InsertItem { text: text@ },
            Operation::DeleteItem { id } => OperationView::DeleteItem { id: id as int },
        }
    }
}

/// Why an operation came to nothing: the step that failed.
#[derive(Debug, Clone, Copy, PartialEq, Eq, Structural)]
pub enum StorageError {
    /// The database file could not be opened.
    Connection,
    /// The statement could not be prepared.
    Preparation,
    /// The statement failed while running, or a row could not be decoded.
    Execution,
}

/// One piece of work for the caller to carry out on the database.
#[derive(Debug, Clone, PartialEq, Eq)]
pub enum Command {
    /// Open a fresh connection to the database file at `path`.
    Connect { path: &'static str },
    /// Prepare `sql` on the open connection.
    Prepare { sql: &'static str },
    /// Run the prepared statement without parameters and decode every row
    /// into a [`TodoItem`]: column 0 is the key, column 1 the text. What was
    /// read is reported through [`query_outcome`].
    Query,
    /// Run the prepared statement with `text` as its one parameter.
    ExecuteText { text: String },
    /// Run the prepared statement with `id` as its one parameter.
    ExecuteInteger { id: i64 },
}

/// What a [`Command`] is in contracts.
pub enum CommandView {
    Connect { path: Seq<char> },
    Prepare { sql: Seq<char> },
    Query,
    ExecuteText { text: Seq<char> },
    ExecuteInteger { id: int },
}

impl View for Command {
    type V = CommandView;

    open spec fn view(&self) -> CommandView {
        match *self {
            Command::Connect { path } => CommandView::Connect { path: path@ },
            Command::Prepare { sql } => CommandView::Prepare { sql: sql@ },
            Command::Query => CommandView::Query,
            Command::ExecuteText { text } => CommandView::ExecuteText { text: text@ },
            Command::ExecuteInteger { id } => CommandView::ExecuteInteger { id: id as int },
        }
    }
}

/// What the caller reports after carrying out a [`Command`].
#[derive(Debug, Clone, PartialEq, Eq)]
pub enum Outcome {
    /// The command failed, for whatever reason.
    Failed,
    /// A connection is open.
    Connected,
    /// The statement is prepared.
    Prepared,
    /// The query ran and every row was decoded; here they are, in order.
    Rows(Vec<TodoItem>),
    /// The statement ran and changed this many rows.
    Changed(usize),
}

/// What an [`Outcome`] is in contracts.
pub enum OutcomeView {
    Failed,
    Connected,
    Prepared,
    Rows(Seq<TodoItemView>),
    Changed(nat),
}

impl View for Outcome {
    type V = OutcomeView;

    open spec fn view(&self) -> OutcomeView {
        match *self {
            Outcome::Failed => OutcomeView::Failed,
            Outcome::Connected => OutcomeView::Connected,
            Outcome::Prepared => OutcomeView::Prepared,
            Outcome::Rows(rows) => OutcomeView::Rows(item_views(rows@)),
            Outcome::Changed(count) => OutcomeView::Changed(count as nat),
        }
    }
}

/// Where an operation stands: which outcome the gateway is waiting for.
#[derive(Debug, Clone, PartialEq, Eq)]
pub enum Session {
    /// Asked to connect.
    Connecting(Operation),
    /// Connected; asked to prepare the operation's statement.
    Preparing(Operation),
    /// Asked to run the query.
    Querying,
    /// Asked to run the insert or the delete.
    Changing,
}

/// What a [`Session`] is in contracts.
pub enum SessionView {
    Connecting(OperationView),
    Preparing(OperationView),
    Querying,
    Changing,
}

impl View for Session {
    type V = SessionView;

    open spec fn view(&self) -> SessionView {
        match *self {
            Session::Connecting(operation) => SessionView::Connecting(operation@),
            Session::Preparing(operation) => SessionView::Preparing(operation@),
            Session::Querying => SessionView::Querying,
            Session::Changing => SessionView::Changing,
        }
    }
}

/// What a successful operation hands back.
#[derive(Debug, Clone, PartialEq, Eq)]
pub enum Yield {
    /// The rows that a listing read.
    Items(Vec<TodoItem>),
    /// The number of rows that an insert or a delete changed.
    RowsAffected(usize),
}

/// What a [`Yield`] is in contracts.
pub enum YieldView {
    Items(Seq<TodoItemView>),
    RowsAffected(nat),
}

impl View for Yield {
    type V = YieldView;

    open spec fn view(&self) -> YieldView {
        match *self {
            Yield::Items(rows) => YieldView::Items(item_views(rows@)),
            Yield::RowsAffected(count) => YieldView::RowsAffected(count as nat),
        }
    }
}

/// How an operation ended, in contracts.
pub type CompletionView = Result<YieldView, StorageError>;

/// What a finished operation is in contracts.
pub open spec fn completion_view(done: Result<Yield, StorageError>) -> CompletionView {
    match done {
        Ok(gain) => Ok(gain@),
        Err(error) => Err(error),
    }
}

/// What [`advance`] decides: more work, or the end of the operation.
#[derive(Debug, PartialEq, Eq)]
pub enum Progress {
    /// Carry out the command and come back with its outcome.
    Continue(Session, Command),
    /// The operation is over; the connection can be closed.
    Finished(Result<Yield, StorageError>),
}

/// What a [`Progress`] is in contracts.
pub enum ProgressView {
    Continue(SessionView, CommandView),
    Finished(CompletionView),
}

impl View for Progress {
    type V = ProgressView;

    open spec fn view(&self) -> ProgressView {
        match *self {
            Progress::Continue(session, command) => ProgressView::Continue(session@, command@),
            Progress::Finished(done) => ProgressView::Finished(completion_view(done)),
        }
    }
}

/// Where the database file lies, relative to the working directory.
pub open spec fn database_path() -> Seq<char> {
    "data.sqlite"@
}

/// The statement that reads all rows.
pub open spec fn list_sql() -> Seq<char> {
    "SELECT id, item FROM todo_list"@
}

/// The statement that adds a row; its one parameter is the text.
pub open spec fn insert_sql() -> Seq<char> {
    "INSERT INTO todo_list (id, item) VALUES (NULL, ?)"@
}

/// The statement that removes a row; its one parameter is the key.
pub open spec fn delete_sql() -> Seq<char> {
    "DELETE FROM todo_list WHERE id = ?"@
}

/// The one statement that belongs to an operation.
pub open spec fn statement_of(operation: OperationView) -> Seq<char> {
    match operation {
        OperationView::ListItems => list_sql(),
        OperationView::InsertItem { .. } => insert_sql(),
        OperationView::DeleteItem { .. } => delete_sql(),
    }
}

/// How an operation starts: by connecting.
pub open spec fn first_step(operation: OperationView) -> (SessionView, CommandView) {
    (SessionView::Connecting(operation), CommandView::Connect { path: database_path() })
}

/// The command that runs an operation's prepared statement. It carries what
/// the request brought, unchanged: the text to insert, or the key to delete.
pub open spec fn run_command(operation: OperationView) -> CommandView {
    match operation {
        OperationView::ListItems => CommandView::Query,
        OperationView::InsertItem { text } => CommandView::ExecuteText { text },
        OperationView::DeleteItem { id } => CommandView::ExecuteInteger { id },
    }
}

/// The session that waits for the outcome of [`run_command`].
pub open spec fn run_session(operation: OperationView) -> SessionView {
    match operation {
        OperationView::ListItems => SessionView::Querying,
        _ => SessionView::Changing,
    }
}

/// All that an operation ever asks of the database, in order: connect to the
/// database file, prepare the operation's one statement, run it.
pub open spec fn script(operation: OperationView) -> Seq<CommandView> {
    seq![
        CommandView::Connect { path: database_path() },
        CommandView::Prepare { sql: statement_of(operation) },
        run_command(operation),
    ]
}

/// The gateway's rule. An outcome other than the one a session waits for counts
/// as the failure of the step that was asked for, and a failure ends the
/// operation at once.
pub open spec fn next(session: SessionView, outcome: OutcomeView) -> ProgressView {
    match session {
        SessionView::Connecting(operation) => if outcome is Connected {
            ProgressView::Continue(
                SessionView::Preparing(operation),
                CommandView::Prepare { sql: statement_of(operation) },
            )
        } else {
            ProgressView::Finished(Err(StorageError::Connection))
        },
        SessionView::Preparing(operation) => if outcome is Prepared {
            ProgressView::Continue(run_session(operation), run_command(operation))
        } else {
            ProgressView::Finished(Err(StorageError::Preparation))
        },
        SessionView::Querying => match outcome {
            OutcomeView::Rows(rows) => ProgressView::Finished(Ok(YieldView::Items(rows))),
            _ => ProgressView::Finished(Err(StorageError::Execution)),
        },
        SessionView::Changing => match outcome {
            OutcomeView::Changed(count) => ProgressView::Finished(
                Ok(YieldView::RowsAffected(count)),
            ),
            _ => ProgressView::Finished(Err(StorageError::Execution)),
        },
    }
}

/// The number of commands that a session may still issue, the outstanding one
/// included.
pub open spec fn steps_left(session: SessionView) -> nat {
    match session {
        SessionView::Connecting(_) => 3,
        SessionView::Preparing(_) => 2,
        SessionView::Querying => 1,
        SessionView::Changing => 1,
    }
}

/// The result of the operation that `session` stands in, when `answers` are
/// the outcomes that the caller reports from now on, in order. It is `None`
/// while the operation is still waiting for an outcome.
pub open spec fn result_after(session: SessionView, answers: Seq<OutcomeView>) -> Option<
    CompletionView,
>
    decreases answers.len(),
{
    if answers.len() == 0 {
        None
    } else {
        match next(session, answers[0]) {
            ProgressView::Finished(done) => Some(done),
            ProgressView::Continue(later, _) => result_after(later, answers.drop_first()),
        }
    }
}

/// The result of a whole operation, from its first command on.
pub open spec fn result_of(operation: OperationView, answers: Seq<OutcomeView>) -> Option<
    CompletionView,
> {
    result_after(first_step(operation).0, answers)
}

/// The commands that the gateway issues in reply to `answers`, from the
/// session `session` on.
pub open spec fn commands_after(session: SessionView, answers: Seq<OutcomeView>) -> Seq<
    CommandView,
>
    decreases answers.len(),
{
    if answers.len() == 0 {
        Seq::empty()
    } else {
        match next(session, answers[0]) {
            ProgressView::Finished(_) => Seq::empty(),
            ProgressView::Continue(later, command) => seq![command] + commands_after(
                later,
                answers.drop_first(),
            ),
        }
    }
}

/// All commands of an operation whose outcomes so far are `answers`, the
/// first command included.
pub open spec fn commands_of(operation: OperationView, answers: Seq<OutcomeView>) -> Seq<
    CommandView,
> {
    seq![first_step(operation).1] + commands_after(first_step(operation).0, answers)
}

/// What an operation hands back once its statement has been run with
/// outcome `ran`: rows for a listing, a row count for an insert or a delete,
/// and an execution error for anything else.
pub open spec fn run_result(operation: OperationView, ran: OutcomeView) -> CompletionView {
    match (operation, ran) {
        (OperationView::ListItems, OutcomeView::Rows(rows)) => Ok(YieldView::Items(rows)),
        (OperationView::InsertItem { .. }, OutcomeView::Changed(count)) => Ok(
            YieldView::RowsAffected(count),
        ),
        (OperationView::DeleteItem { .. }, OutcomeView::Changed(count)) => Ok(
            YieldView::RowsAffected(count),
        ),
        _ => Err(StorageError::Execution),
    }
}

/// What a query reports when `rows` are the rows that could be read and
/// decoded, in order, and `undecoded` is the number of rows that could not: a
/// listing is all or nothing.
pub open spec fn query_report(rows: Seq<TodoItemView>, undecoded: nat) -> OutcomeView {
    if undecoded == 0 {
        OutcomeView::Rows(rows)
    } else {
        OutcomeView::Failed
    }
}

/// The statement of an operation, as text to hand to the database.
pub fn statement_for(operation: &Operation) -> (sql: &'static str)
    ensures
        sql@ == statement_of(operation@),
{
    match operation {
        Operation::ListItems => "SELECT id, item FROM todo_list",
        Operation::InsertItem { .. } => "INSERT INTO todo_list (id, item) VALUES (NULL, ?)",
        Operation::DeleteItem { .. } => "DELETE FROM todo_list WHERE id = ?",
    }
}

/// The outcome of a query that read `rows` and met `undecoded` rows that it
/// could not read or decode. One such row fails the whole listing: no part of
/// it is handed on.
pub fn query_outcome(rows: Vec<TodoItem>, undecoded: usize) -> (outcome: Outcome)
    ensures
        outcome@ == query_report(item_views(rows@), undecoded as nat),
{
    if undecoded == 0 {
        Outcome::Rows(rows)
    } else {
        Outcome::Failed
    }
}

/// Starts an operation: the session to keep and the first command.
pub fn begin(operation: Operation) -> (start: (Session, Command))
    ensures
        (start.0@, start.1@) == first_step(operation@),
{
    (Session::Connecting(operation), Command::Connect { path: "data.sqlite" })
}

/// Takes the outcome of the command that `session` was waiting for and decides
/// what follows, as [`next`] says. When it continues, the new session is one
/// step closer to the end.
pub fn advance(session: Session, outcome: Outcome) -> (progress: Progress)
    ensures
        progress@ == next(session@, outcome@),
        progress@ matches ProgressView::Continue(later, _) ==> steps_left(later) + 1 == steps_left(
            session@,
        ),
{
    match session {
        Session::Connecting(operation) => match outcome {
            Outcome::Connected => {
                let sql = statement_for(&operation);
                Progress::Continue(Session::Preparing(operation), Command::Prepare { sql })
            },
            _ => Progress::Finished(Err(StorageError::Connection)),
        },
        Session::Preparing(operation) => match outcome {
            Outcome::Prepared => match operation {
                Operation::ListItems => Progress::Continue(Session::Querying, Command::Query),
                Operation::InsertItem { text } => Progress::Continue(
                    Session::Changing,
                    Command::ExecuteText { text },
                ),
                Operation::DeleteItem { id } => Progress::Continue(
                    Session::Changing,
                    Command::ExecuteInteger { id },
                ),
            },
            _ => Progress::Finished(Err(StorageError::Preparation)),
        },
        Session::Querying => match outcome {
            Outcome::Rows(rows) => Progress::Finished(Ok(Yield::Items(rows))),
            _ => Progress::Finished(Err(StorageError::Execution)),
        },
        Session::Changing => match outcome {
            Outcome::Changed(count) => Progress::Finished(Ok(Yield::RowsAffected(count))),
            _ => Progress::Finished(Err(StorageError::Execution)),
        },
    }
}

} // verus!
