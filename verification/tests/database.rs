use rusqlite::{Connection, Statement};
use todo_service::gateway::{
    advance, begin, query_outcome, Command, Operation, Outcome, Progress, StorageError, Yield,
};
use todo_service::startup::{BootCommand, BootEnd, BootOutcome, BootProgress};
use todo_service::{
    create_todo, delete_todo, fetch_all_todo, index, status_code, Status, StatusMessage, TodoItem,
    TodoList,
};

/// Carries out one command of the gateway. The database of a test lives in
/// memory, so `conn` stands for the connection that opening the file would
/// give: `None` is a database that cannot be opened.
fn perform<'c>(
    conn: Option<&'c Connection>,
    statement: &mut Option<Statement<'c>>,
    command: Command,
) -> Outcome {
    match command {
        Command::Connect { path } => {
            assert_eq!(path, "data.sqlite");
            match conn {
                Some(_) => Outcome::Connected,
                None => Outcome::Failed,
            }
        }
        Command::Prepare { sql } => match conn.unwrap().prepare(sql) {
            Ok(prepared) => {
                *statement = Some(prepared);
                Outcome::Prepared
            }
            Err(_) => Outcome::Failed,
        },
        Command::Query => {
            let mapped = statement
                .as_mut()
                .unwrap()
                .query_map([], |row| Ok(TodoItem { id: row.get(0)?, item: row.get(1)? }));
            match mapped {
                Ok(mapped) => {
                    let mut rows = Vec::new();
                    let mut undecoded = 0;
                    for row in mapped {
                        match row {
                            Ok(item) => rows.push(item),
                            Err(_) => undecoded += 1,
                        }
                    }
                    query_outcome(rows, undecoded)
                }
                Err(_) => Outcome::Failed,
            }
        }
        Command::ExecuteText { text } => match statement.as_mut().unwrap().execute([&text]) {
            Ok(count) => Outcome::Changed(count),
            Err(_) => Outcome::Failed,
        },
        Command::ExecuteInteger { id } => match statement.as_mut().unwrap().execute([id]) {
            Ok(count) => Outcome::Changed(count),
            Err(_) => Outcome::Failed,
        },
    }
}

/// Runs one operation to its end and counts the commands it took.
fn run_counting(
    conn: Option<&Connection>,
    operation: Operation,
) -> (Result<Yield, StorageError>, usize) {
    let mut statement = None;
    let (mut session, mut command) = begin(operation);
    let mut commands = 0;
    loop {
        commands += 1;
        let outcome = perform(conn, &mut statement, command);
        match advance(session, outcome) {
            Progress::Continue(later, following) => {
                session = later;
                command = following;
            }
            Progress::Finished(done) => return (done, commands),
        }
    }
}

fn run(conn: Option<&Connection>, operation: Operation) -> Result<Yield, StorageError> {
    run_counting(conn, operation).0
}

/// Runs start-up to its end and counts the commands it took.
fn boot_counting(conn: Option<&Connection>) -> (BootEnd, usize) {
    let (mut state, mut command) = todo_service::startup::begin();
    let mut commands = 0;
    loop {
        commands += 1;
        let outcome = match command {
            BootCommand::Connect { path } => {
                assert_eq!(path, "data.sqlite");
                match conn {
                    Some(_) => BootOutcome::Connected,
                    None => BootOutcome::Failed,
                }
            }
            BootCommand::Execute { sql } => match conn.unwrap().execute(sql, []) {
                Ok(_) => BootOutcome::Executed,
                Err(_) => BootOutcome::Failed,
            },
        };
        match todo_service::startup::advance(state, outcome) {
            BootProgress::Continue(later, following) => {
                state = later;
                command = following;
            }
            BootProgress::Finished(end) => return (end, commands),
        }
    }
}

fn boot(conn: Option<&Connection>) -> BootEnd {
    boot_counting(conn).0
}

fn fresh_database() -> Connection {
    let conn = Connection::open_in_memory().unwrap();
    assert_eq!(boot(Some(&conn)), BootEnd::Serve { tables_ensured: true });
    conn
}

fn get_todo(conn: Option<&Connection>) -> Result<TodoList, Status> {
    fetch_all_todo(run(conn, Operation::ListItems))
}

fn post_todo(conn: Option<&Connection>, text: &str) -> Result<StatusMessage, Status> {
    create_todo(run(conn, Operation::InsertItem { text: text.to_string() }))
}

fn delete_todo_by_id(conn: Option<&Connection>, id: i64) -> Result<StatusMessage, Status> {
    delete_todo(run(conn, Operation::DeleteItem { id }))
}

fn listed(conn: &Connection) -> Vec<TodoItem> {
    get_todo(Some(conn)).unwrap().items
}

fn sentence(text: &str) -> StatusMessage {
    StatusMessage { message: text.to_string() }
}

fn refused(reason: &'static str) -> Status {
    Status { code: 500, reason }
}

fn item(id: i64, text: &str) -> TodoItem {
    TodoItem { id, item: text.to_string() }
}

#[test]
fn startup_makes_both_tables() {
    let conn = fresh_database();
    for table in ["users", "todo_list"] {
        let found: i64 = conn
            .query_row(
                "SELECT count(*) FROM sqlite_master WHERE type = 'table' AND name = ?",
                [table],
                |row| row.get(0),
            )
            .unwrap();
        assert_eq!(found, 1);
    }
}

#[test]
fn startup_can_be_repeated_without_losing_rows() {
    let conn = fresh_database();
    assert_eq!(post_todo(Some(&conn), "Buy milk"), Ok(sentence("1 rows inserted")));
    assert_eq!(boot(Some(&conn)), BootEnd::Serve { tables_ensured: true });
    assert_eq!(listed(&conn), vec![item(1, "Buy milk")]);
}

#[test]
fn startup_without_a_database_leaves_requests_to_fail() {
    let unreachable = Connection::open("no-such-directory/for-this-test/data.sqlite").ok();
    assert!(unreachable.is_none());
    assert_eq!(boot(unreachable.as_ref()), BootEnd::Serve { tables_ensured: false });
    assert_eq!(get_todo(unreachable.as_ref()), Err(refused("Error fetching todo items")));
}

#[test]
fn startup_stops_on_a_database_that_refuses_the_first_table() {
    let conn = Connection::open_in_memory().unwrap();
    conn.pragma_update(None, "query_only", true).unwrap();
    assert_eq!(boot_counting(Some(&conn)), (BootEnd::Abort, 2));
}

#[test]
fn startup_stops_on_a_database_that_refuses_the_second_table() {
    let conn = Connection::open_in_memory().unwrap();
    conn.execute("CREATE TABLE users (id INTEGER PRIMARY KEY)", []).unwrap();
    conn.pragma_update(None, "query_only", true).unwrap();
    assert_eq!(boot_counting(Some(&conn)), (BootEnd::Abort, 3));
}

#[test]
fn startup_takes_three_commands_on_a_willing_database() {
    let conn = Connection::open_in_memory().unwrap();
    assert_eq!(boot_counting(Some(&conn)), (BootEnd::Serve { tables_ensured: true }, 3));
    assert_eq!(boot_counting(None), (BootEnd::Serve { tables_ensured: false }, 1));
}

#[test]
fn listing_an_empty_table() {
    let conn = fresh_database();
    let reply = get_todo(Some(&conn));
    assert_eq!(status_code(&reply), 200);
    assert_eq!(reply, Ok(TodoList { items: vec![] }));
}

#[test]
fn insert_then_list_shows_the_text_under_a_new_key() {
    let conn = fresh_database();
    let texts = [
        "Buy milk",
        "",
        "Buy milk",
        "x'); DROP TABLE todo_list; --",
        "na\u{ef}ve caf\u{e9} \u{2713}",
        "a text that is a good deal longer than the sixty-four characters the column is declared with",
        "two\nlines",
    ];
    for text in texts {
        let before = listed(&conn);
        let reply = post_todo(Some(&conn), text);
        assert_eq!(status_code(&reply), 200);
        assert_eq!(reply, Ok(sentence("1 rows inserted")));
        let after = listed(&conn);
        assert_eq!(after.len(), before.len() + 1);
        let added: Vec<&TodoItem> = after.iter().filter(|row| !before.contains(row)).collect();
        assert_eq!(added.len(), 1);
        assert_eq!(added[0].item, text);
        assert!(before.iter().all(|row| row.id != added[0].id));
        assert!(before.iter().all(|row| after.contains(row)));
    }
}

#[test]
fn keys_are_unique() {
    let conn = fresh_database();
    for n in 0..20 {
        post_todo(Some(&conn), &format!("item {}", n)).unwrap();
    }
    let rows = listed(&conn);
    assert_eq!(rows.len(), 20);
    for (i, row) in rows.iter().enumerate() {
        for other in &rows[i + 1..] {
            assert_ne!(row.id, other.id);
        }
    }
}

#[test]
fn deleting_an_absent_key_changes_nothing_and_is_no_error() {
    let conn = fresh_database();
    post_todo(Some(&conn), "Buy milk").unwrap();
    post_todo(Some(&conn), "Walk the dog").unwrap();
    let before = listed(&conn);
    for id in [0, 3, 999, -1, i64::MAX, i64::MIN] {
        assert!(before.iter().all(|row| row.id != id));
        let reply = delete_todo_by_id(Some(&conn), id);
        assert_eq!(status_code(&reply), 200);
        assert_eq!(reply, Ok(sentence("0 row deleted")));
        assert_eq!(listed(&conn), before);
    }
}

#[test]
fn deleting_a_present_key_removes_that_row_only() {
    let conn = fresh_database();
    for text in ["a", "b", "c"] {
        post_todo(Some(&conn), text).unwrap();
    }
    let before = listed(&conn);
    assert_eq!(before, vec![item(1, "a"), item(2, "b"), item(3, "c")]);
    assert_eq!(delete_todo_by_id(Some(&conn), 2), Ok(sentence("1 row deleted")));
    assert_eq!(listed(&conn), vec![item(1, "a"), item(3, "c")]);
}

#[test]
fn deleting_twice_finds_nothing_the_second_time() {
    let conn = fresh_database();
    post_todo(Some(&conn), "Buy milk").unwrap();
    let id = listed(&conn)[0].id;
    assert_eq!(delete_todo_by_id(Some(&conn), id), Ok(sentence("1 row deleted")));
    assert!(listed(&conn).iter().all(|row| row.id != id));
    assert_eq!(delete_todo_by_id(Some(&conn), id), Ok(sentence("0 row deleted")));
    assert!(listed(&conn).is_empty());
}

#[test]
fn scenario_post_then_get() {
    let conn = fresh_database();
    let posted = post_todo(Some(&conn), "Buy milk");
    assert_eq!(status_code(&posted), 200);
    assert_eq!(posted, Ok(sentence("1 rows inserted")));
    let got = get_todo(Some(&conn));
    assert_eq!(status_code(&got), 200);
    assert_eq!(got, Ok(TodoList { items: vec![item(1, "Buy milk")] }));
}

#[test]
fn scenario_delete_after_post_then_get() {
    let conn = fresh_database();
    assert_eq!(post_todo(Some(&conn), "Buy milk"), Ok(sentence("1 rows inserted")));
    let deleted = delete_todo_by_id(Some(&conn), 1);
    assert_eq!(status_code(&deleted), 200);
    assert_eq!(deleted, Ok(sentence("1 row deleted")));
    let got = get_todo(Some(&conn));
    assert_eq!(status_code(&got), 200);
    assert_eq!(got, Ok(TodoList { items: vec![] }));
}

#[test]
fn scenario_delete_of_a_key_that_is_not_there() {
    let conn = fresh_database();
    let deleted = delete_todo_by_id(Some(&conn), 999);
    assert_eq!(status_code(&deleted), 200);
    assert_eq!(deleted, Ok(sentence("0 row deleted")));
}

#[test]
fn unreachable_database_fails_every_todo_route_and_spares_the_landing_route() {
    let unreachable = Connection::open("no-such-directory/for-this-test/data.sqlite").ok();
    assert!(unreachable.is_none());
    let conn = unreachable.as_ref();

    let got = get_todo(conn);
    assert_eq!(status_code(&got), 500);
    assert_eq!(got, Err(refused("Error fetching todo items")));

    let posted = post_todo(conn, "Buy milk");
    assert_eq!(status_code(&posted), 500);
    assert_eq!(posted, Err(refused("Error inserting")));

    let deleted = delete_todo_by_id(conn, 1);
    assert_eq!(status_code(&deleted), 500);
    assert_eq!(deleted, Err(refused("Error deleting")));

    assert_eq!(index(), "Hello, world!");
}

#[test]
fn nothing_is_retried_on_an_unreachable_database() {
    for operation in [
        Operation::ListItems,
        Operation::InsertItem { text: "Buy milk".to_string() },
        Operation::DeleteItem { id: 1 },
    ] {
        let (done, commands) = run_counting(None, operation);
        assert_eq!(done, Err(StorageError::Connection));
        assert_eq!(commands, 1);
    }
}

#[test]
fn a_database_without_tables_fails_at_prepare() {
    let conn = Connection::open_in_memory().unwrap();
    assert_eq!(run_counting(Some(&conn), Operation::ListItems), (Err(StorageError::Preparation), 2));
    assert_eq!(get_todo(Some(&conn)), Err(refused("Error fetching todo items")));
    assert_eq!(post_todo(Some(&conn), "Buy milk"), Err(refused("Error inserting")));
    assert_eq!(delete_todo_by_id(Some(&conn), 1), Err(refused("Error deleting")));
}

#[test]
fn a_row_that_cannot_be_decoded_fails_the_whole_listing() {
    let conn = Connection::open_in_memory().unwrap();
    conn.execute("CREATE TABLE todo_list (id, item)", []).unwrap();
    conn.execute("INSERT INTO todo_list (id, item) VALUES (1, 'fine')", []).unwrap();
    conn.execute("INSERT INTO todo_list (id, item) VALUES ('two', 'key is no integer')", [])
        .unwrap();
    assert_eq!(run_counting(Some(&conn), Operation::ListItems), (Err(StorageError::Execution), 3));
    let got = get_todo(Some(&conn));
    assert_eq!(status_code(&got), 500);
    assert_eq!(got, Err(refused("Error fetching todo items")));
}

#[test]
fn good_rows_after_a_bad_one_do_not_save_the_listing() {
    let conn = Connection::open_in_memory().unwrap();
    conn.execute("CREATE TABLE todo_list (id, item)", []).unwrap();
    conn.execute("INSERT INTO todo_list (id, item) VALUES ('one', 'key is no integer')", [])
        .unwrap();
    conn.execute("INSERT INTO todo_list (id, item) VALUES (2, 'fine')", []).unwrap();
    conn.execute("INSERT INTO todo_list (id, item) VALUES (3, 'fine too')", []).unwrap();
    assert_eq!(run(Some(&conn), Operation::ListItems), Err(StorageError::Execution));
    assert_eq!(get_todo(Some(&conn)), Err(refused("Error fetching todo items")));
}

#[test]
fn a_missing_text_fails_the_whole_listing() {
    let conn = Connection::open_in_memory().unwrap();
    conn.execute("CREATE TABLE todo_list (id INTEGER PRIMARY KEY, item)", []).unwrap();
    conn.execute("INSERT INTO todo_list (id, item) VALUES (1, NULL)", []).unwrap();
    assert_eq!(get_todo(Some(&conn)), Err(refused("Error fetching todo items")));
}

#[test]
fn a_refused_insert_is_reported_as_such() {
    let conn = Connection::open_in_memory().unwrap();
    conn.execute(
        "CREATE TABLE todo_list (id INTEGER PRIMARY KEY, item VARCHAR(64) NOT NULL CHECK (length(item) < 4))",
        [],
    )
    .unwrap();
    assert_eq!(post_todo(Some(&conn), "abc"), Ok(sentence("1 rows inserted")));
    let posted = post_todo(Some(&conn), "Buy milk");
    assert_eq!(status_code(&posted), 500);
    assert_eq!(posted, Err(refused("Error inserting")));
    assert_eq!(listed(&conn), vec![item(1, "abc")]);
}

#[test]
fn a_refused_delete_is_reported_as_such() {
    let conn = fresh_database();
    post_todo(Some(&conn), "Buy milk").unwrap();
    conn.execute(
        "CREATE TRIGGER keep_rows BEFORE DELETE ON todo_list BEGIN SELECT RAISE(ABORT, 'kept'); END",
        [],
    )
    .unwrap();
    let deleted = delete_todo_by_id(Some(&conn), 1);
    assert_eq!(status_code(&deleted), 500);
    assert_eq!(deleted, Err(refused("Error deleting")));
    assert_eq!(listed(&conn), vec![item(1, "Buy milk")]);
}

#[test]
fn every_operation_that_reaches_the_database_takes_three_commands() {
    let conn = fresh_database();
    let (done, commands) =
        run_counting(Some(&conn), Operation::InsertItem { text: "Buy milk".to_string() });
    assert_eq!((done, commands), (Ok(Yield::RowsAffected(1)), 3));
    let (done, commands) = run_counting(Some(&conn), Operation::ListItems);
    assert_eq!((done, commands), (Ok(Yield::Items(vec![item(1, "Buy milk")])), 3));
    let (done, commands) = run_counting(Some(&conn), Operation::DeleteItem { id: 1 });
    assert_eq!((done, commands), (Ok(Yield::RowsAffected(1)), 3));
}

#[test]
fn the_text_is_bound_and_never_read_as_sql() {
    let conn = fresh_database();
    post_todo(Some(&conn), "keep me").unwrap();
    post_todo(Some(&conn), "1; DELETE FROM todo_list").unwrap();
    post_todo(Some(&conn), "' OR '1'='1").unwrap();
    assert_eq!(
        listed(&conn),
        vec![item(1, "keep me"), item(2, "1; DELETE FROM todo_list"), item(3, "' OR '1'='1")]
    );
}
