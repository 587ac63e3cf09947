//! What happens before the first request: the tables are made sure of.
//!
//! Like the [gateway](crate::gateway), start-up is a dialogue. The caller
//! carries out each [`BootCommand`] and reports the [`BootOutcome`];
//! [`advance`] decides what follows. The two kinds of failure end differently.
//! If the database cannot be opened, the service starts all the same, without
//! tables, and its requests fail one by one. If the database is open and
//! refuses a table, the process must stop.

use vstd::prelude::*;
use crate::gateway::database_path;

verus! {

/// Where start-up stands: which outcome it is waiting for.
#[derive(Debug, Clone, Copy, PartialEq, Eq, Structural)]
pub enum Boot {
    /// Asked to connect.
    Connecting,
    /// Asked to create the `users` table.
    CreatingUsers,
    /// Asked to create the `todo_list` table.
    CreatingTodoList,
}

/// One piece of start-up work for the caller to carry out.
#[derive(Debug, Clone, Copy, PartialEq, Eq)]
pub enum BootCommand {
    /// Open the database file at `path`, creating it if it is not there.
    Connect { path: &'static str },
    /// Run `sql`, which has no parameters, on the open connection.
    Execute { sql: &'static str },
}

/// What a [`BootCommand`] is in contracts.
pub enum BootCommandView {
    Connect { path: Seq<char> },
    Execute { sql: Seq<char> },
}

impl View for BootCommand {
    type V = BootCommandView;

    open spec fn view(&self) -> BootCommandView {
        match *self {
            BootCommand::Connect { path } => BootCommandView::Connect { path: path@ },
            BootCommand::Execute { sql } => BootCommandView::Execute { sql: sql@ },
        }
    }
}

/// What the caller reports after carrying out a [`BootCommand`].
#[derive(Debug, Clone, Copy, PartialEq, Eq, Structural)]
pub enum BootOutcome {
    /// The command failed, for whatever reason.
    Failed,
    /// A connection is open.
    Connected,
    /// The statement ran.
    Executed,
}

/// How start-up ends.
#[derive(Debug, Clone, Copy, PartialEq, Eq, Structural)]
pub enum BootEnd {
    /// Begin to serve requests. `tables_ensured` tells whether both tables are
    /// known to exist.
    Serve { tables_ensured: bool },
    /// Start-up cannot go on: stop the process.
    Abort,
}

/// What [`advance`] decides: more work, or the end of start-up.
#[derive(Debug, Clone, Copy, PartialEq, Eq)]
pub enum BootProgress {
    /// Carry out the command and come back with its outcome.
    Continue(Boot, BootCommand),
    /// Start-up is over; the connection can be closed.
    Finished(BootEnd),
}

/// What a [`BootProgress`] is in contracts.
pub enum BootProgressView {
    Continue(Boot, BootCommandView),
    Finished(BootEnd),
}

impl View for BootProgress {
    type V = BootProgressView;

    open spec fn view(&self) -> BootProgressView {
        match *self {
            BootProgress::Continue(boot, command) => BootProgressView::Continue(boot, command@),
            BootProgress::Finished(end) => BootProgressView::Finished(end),
        }
    }
}

/// The statement that makes sure of the `users` table. No route reads or
/// writes it; it is kept so that existing database files stay as they are.
pub open spec fn users_table_sql() -> Seq<char> {
    "CREATE TABLE IF NOT EXISTS users (id INTEGER PRIMARY KEY, name TEXT NOT NULL, email TEXT NOT NULL, password TEXT NOT NULL)"@
}

/// The statement that makes sure of the `todo_list` table.
pub open spec fn todo_list_table_sql() -> Seq<char> {
    "CREATE TABLE IF NOT EXISTS todo_list (id INTEGER PRIMARY KEY, item VARCHAR(64) NOT NULL)"@
}

/// How start-up begins: by connecting.
pub open spec fn first_step() -> (Boot, BootCommandView) {
    (Boot::Connecting, BootCommandView::Connect { path: database_path() })
}

/// The rule of start-up. An outcome other than the one awaited counts as the
/// failure of the step that was asked for.
pub open spec fn next(boot: Boot, outcome: BootOutcome) -> BootProgressView {
    match boot {
        Boot::Connecting => if outcome == BootOutcome::Connected {
            BootProgressView::Continue(
                Boot::CreatingUsers,
                BootCommandView::Execute { sql: users_table_sql() },
            )
        } else {
            BootProgressView::Finished(BootEnd::Serve { tables_ensured: false })
        },
        Boot::CreatingUsers => if outcome == BootOutcome::Executed {
            BootProgressView::Continue(
                Boot::CreatingTodoList,
                BootCommandView::Execute { sql: todo_list_table_sql() },
            )
        } else {
            BootProgressView::Finished(BootEnd::Abort)
        },
        Boot::CreatingTodoList => if outcome == BootOutcome::Executed {
            BootProgressView::Finished(BootEnd::Serve { tables_ensured: true })
        } else {
            BootProgressView::Finished(BootEnd::Abort)
        },
    }
}

/// The number of commands that start-up may still issue, the outstanding one
/// included.
pub open spec fn steps_left(boot: Boot) -> nat {
    match boot {
        Boot::Connecting => 3,
        Boot::CreatingUsers => 2,
        Boot::CreatingTodoList => 1,
    }
}

/// All that start-up ever asks of the database, in order.
pub open spec fn script() -> Seq<BootCommandView> {
    seq![
        BootCommandView::Connect { path: database_path() },
        BootCommandView::Execute { sql: users_table_sql() },
        BootCommandView::Execute { sql: todo_list_table_sql() },
    ]
}

/// The commands that start-up issues in reply to `answers`, from the state
/// `boot` on.
pub open spec fn commands_after(boot: Boot, answers: Seq<BootOutcome>) -> Seq<BootCommandView>
    decreases answers.len(),
{
    if answers.len() == 0 {
        Seq::empty()
    } else {
        match next(boot, answers[0]) {
            BootProgressView::Finished(_) => Seq::empty(),
            BootProgressView::Continue(later, command) => seq![command] + commands_after(
                later,
                answers.drop_first(),
            ),
        }
    }
}

/// All commands of a start-up whose outcomes so far are `answers`, the first
/// command included.
pub open spec fn commands_of(answers: Seq<BootOutcome>) -> Seq<BootCommandView> {
    seq![first_step().1] + commands_after(first_step().0, answers)
}

/// How start-up ends from the state `boot`, when `answers` are the outcomes
/// that the caller reports from now on, in order. It is `None` while start-up
/// is still waiting for an outcome.
pub open spec fn end_after(boot: Boot, answers: Seq<BootOutcome>) -> Option<BootEnd>
    decreases answers.len(),
{
    if answers.len() == 0 {
        None
    } else {
        match next(boot, answers[0]) {
            BootProgressView::Finished(end) => Some(end),
            BootProgressView::Continue(later, _) => end_after(later, answers.drop_first()),
        }
    }
}

/// How a whole start-up ends, from its first command on.
pub open spec fn end_of(answers: Seq<BootOutcome>) -> Option<BootEnd> {
    end_after(first_step().0, answers)
}

/// Starts start-up: the state to keep and the first command.
pub fn begin() -> (start: (Boot, BootCommand))
    ensures
        (start.0, start.1@) == first_step(),
{
    (Boot::Connecting, BootCommand::Connect { path: "data.sqlite" })
}

/// Takes the outcome of the command that `boot` was waiting for and decides
/// what follows, as [`next`] says. When it continues, the new state is one
/// step closer to the end.
pub fn advance(boot: Boot, outcome: BootOutcome) -> (progress: BootProgress)
    ensures
        progress@ == next(boot, outcome),
        progress@ matches BootProgressView::Continue(later, _) ==> steps_left(later) + 1
            == steps_left(boot),
{
    match boot {
        Boot::Connecting => match outcome {
            BootOutcome::Connected => BootProgress::Continue(
                Boot::CreatingUsers,
                BootCommand::Execute {
                    sql: "CREATE TABLE IF NOT EXISTS users (id INTEGER PRIMARY KEY, name TEXT NOT NULL, email TEXT NOT NULL, password TEXT NOT NULL)",
                },
            ),
            _ => BootProgress::Finished(BootEnd::Serve { tables_ensured: false }),
        },
        Boot::CreatingUsers => match outcome {
            BootOutcome::Executed => BootProgress::Continue(
                Boot::CreatingTodoList,
                BootCommand::Execute {
                    sql: "CREATE TABLE IF NOT EXISTS todo_list (id INTEGER PRIMARY KEY, item VARCHAR(64) NOT NULL)",
                },
            ),
            _ => BootProgress::Finished(BootEnd::Abort),
        },
        Boot::CreatingTodoList => match outcome {
            BootOutcome::Executed => BootProgress::Finished(BootEnd::Serve { tables_ensured: true }),
            _ => BootProgress::Finished(BootEnd::Abort),
        },
    }
}

} // verus!
