use diesel::connection::SimpleConnection;
use diesel::sql_types::Integer;
use diesel::RunQueryDsl;
use diesel::sqlite::SqliteConnection;
use diesel::Connection;
use jotty::item::{CompletionLevel, Event, Importance, Task};
use jotty::mem_model::MemModel;
use jotty::sqlite_model::SqliteModel;
use jotty::store::{Model, StoreError};

const D: i32 = 2_460_000;

fn memory_connection() -> SqliteConnection {
    SqliteConnection::establish(":memory:").unwrap()
}

fn script<M: Model>(m: &mut M) -> Vec<Event> {
    for i in 0..3 {
        m.new_event(D, i).unwrap();
        let e = Event { title: format!("event {i}"), importance: Importance::Normal };
        m.replace_event(D, i, e).unwrap();
    }
    m.delete_event(D, 1).unwrap();
    let cycled = m.get_event(D, 0).unwrap().cycle();
    m.replace_event(D, 0, cycled).unwrap();
    let mut second = m.get_event(D, 1).unwrap();
    second.title = "renamed".to_string();
    m.replace_event(D, 1, second).unwrap();
    m.events_iter(D)
}

#[test]
fn backends_agree_on_a_script() {
    let mut mem = MemModel::new();
    let mut sql = SqliteModel::new(memory_connection());
    let a = script(&mut mem);
    let b = script(&mut sql);
    assert_eq!(a, b);
    assert_eq!(
        a,
        vec![
            Event { title: "event 0".to_string(), importance: Importance::High },
            Event { title: "renamed".to_string(), importance: Importance::Normal },
        ]
    );
    assert!(sql.err().is_ok());
}

#[test]
fn durable_store_keeps_its_rows() {
    let mut sql = SqliteModel::new(memory_connection());
    let written = script(&mut sql);
    sql.new_task(D + 1, 0).unwrap();
    let t = Task { title: "buy milk".to_string(), completion_level: CompletionLevel::Full };
    sql.replace_task(D + 1, 0, t.clone()).unwrap();
    sql.new_task(D + 1, 0).unwrap();
    let reopened = SqliteModel::new(sql.into_connection());
    assert!(reopened.err().is_ok());
    assert_eq!(reopened.events_iter(D), written);
    assert_eq!(reopened.tasks_iter(D + 1), vec![Task::new(), t]);
    assert_eq!(reopened.tasks_len(D), 0);
}

#[test]
fn durable_insert_in_the_middle_reindexes() {
    let mut sql = SqliteModel::new(memory_connection());
    for i in 0..3 {
        sql.new_task(D, i).unwrap();
        let t = Task { title: format!("t{i}"), completion_level: CompletionLevel::NotStarted };
        sql.replace_task(D, i, t).unwrap();
    }
    sql.new_task(D, 1).unwrap();
    sql.delete_task(D, 0).unwrap();
    let reopened = SqliteModel::new(sql.into_connection());
    let titles: Vec<String> = reopened.tasks_iter(D).into_iter().map(|t| t.title).collect();
    assert_eq!(titles, vec!["", "t1", "t2"]);
    assert!(reopened.err().is_ok());
}

#[test]
fn durable_index_errors() {
    let mut sql = SqliteModel::new(memory_connection());
    assert_eq!(sql.new_event(D, 1), Err(StoreError::IndexOutOfBounds));
    assert_eq!(sql.delete_task(D, 0), Err(StoreError::IndexOutOfBounds));
    assert_eq!(sql.get_event(D, 0), Err(StoreError::IndexOutOfBounds));
    assert_eq!(sql.replace_task(D, 0, Task::new()), Err(StoreError::IndexOutOfBounds));
    assert!(sql.err().is_ok());
}

#[test]
fn corrupt_tag_latches_the_fault() {
    let mut conn = memory_connection();
    conn.batch_execute(
        "CREATE TABLE events (date INTEGER NOT NULL, \"index\" INTEGER NOT NULL, title TEXT NOT NULL, importance INTEGER NOT NULL, PRIMARY KEY (date, \"index\"));
         INSERT INTO events VALUES (2460000, 0, 'bad', 7);",
    )
    .unwrap();
    let sql = SqliteModel::new(conn);
    assert!(sql.err().is_err());
    assert_eq!(sql.events_len(D), 0);
    assert!(sql.events_iter(D).is_empty());
}

#[test]
fn gap_in_indices_latches_the_fault() {
    let mut conn = memory_connection();
    conn.batch_execute(
        "CREATE TABLE tasks (date INTEGER NOT NULL, \"index\" INTEGER NOT NULL, title TEXT NOT NULL, completion_level INTEGER NOT NULL, PRIMARY KEY (date, \"index\"));
         INSERT INTO tasks VALUES (2460000, 0, 'a', 0);
         INSERT INTO tasks VALUES (2460000, 2, 'c', 0);",
    )
    .unwrap();
    let sql = SqliteModel::new(conn);
    assert!(sql.err().is_err());
    assert_eq!(sql.tasks_len(D), 0);
}

#[test]
fn dense_rows_load_in_order() {
    let mut conn = memory_connection();
    conn.batch_execute(
        "CREATE TABLE tasks (date INTEGER NOT NULL, \"index\" INTEGER NOT NULL, title TEXT NOT NULL, completion_level INTEGER NOT NULL, PRIMARY KEY (date, \"index\"));
         INSERT INTO tasks VALUES (2460000, 1, 'b', 2);
         INSERT INTO tasks VALUES (2460001, 0, 'z', 0);
         INSERT INTO tasks VALUES (2460000, 0, 'a', 1);",
    )
    .unwrap();
    let sql = SqliteModel::new(conn);
    assert!(sql.err().is_ok());
    assert_eq!(
        sql.tasks_iter(D),
        vec![
            Task { title: "a".to_string(), completion_level: CompletionLevel::Partial },
            Task { title: "b".to_string(), completion_level: CompletionLevel::Full },
        ]
    );
    assert_eq!(sql.tasks_len(D + 1), 1);
}

#[test]
fn failed_write_latches_the_fault_and_stops_writes() {
    let mut conn = memory_connection();
    conn.batch_execute(
        "CREATE TABLE events (date INTEGER NOT NULL, \"index\" INTEGER NOT NULL, title TEXT NOT NULL, importance INTEGER NOT NULL, PRIMARY KEY (date, \"index\"));
         CREATE TABLE tasks (date INTEGER NOT NULL, \"index\" INTEGER NOT NULL, title TEXT NOT NULL, completion_level INTEGER NOT NULL, PRIMARY KEY (date, \"index\"));
         INSERT INTO events VALUES (2460000, 0, 'kept', 0);
         PRAGMA query_only = ON;",
    )
    .unwrap();
    let mut sql = SqliteModel::new(conn);
    assert!(sql.err().is_ok());
    assert_eq!(sql.events_len(D), 1);
    assert_eq!(sql.new_event(D, 0), Ok(()));
    let fault = sql.err().unwrap_err();
    assert!(fault.message().contains("unrecoverable"));
    assert_eq!(sql.events_len(D), 0);
    assert!(sql.events_iter(D).is_empty());
    assert_eq!(sql.new_task(D, 0), Ok(()));
    assert_eq!(sql.new_task(D, 1), Err(StoreError::IndexOutOfBounds));
    assert_eq!(sql.tasks_len(D), 0);
    assert_eq!(sql.get_event(D, 0), Err(StoreError::IndexOutOfBounds));
}

#[test]
fn stored_indices_stay_dense() {
    let mut sql = SqliteModel::new(memory_connection());
    for i in 0..4 {
        sql.new_event(D, i).unwrap();
    }
    sql.new_event(D, 2).unwrap();
    sql.new_event(D + 1, 0).unwrap();
    sql.delete_event(D, 0).unwrap();
    sql.delete_event(D, 3).unwrap();
    sql.new_event(D, 0).unwrap();
    let mut conn = sql.into_connection();
    let rows: Vec<(i32, i32)> = diesel::dsl::sql::<(Integer, Integer)>(
        "SELECT date, \"index\" FROM events ORDER BY date, \"index\"",
    )
    .load(&mut conn)
    .unwrap();
    assert_eq!(rows, vec![(D, 0), (D, 1), (D, 2), (D, 3), (D + 1, 0)]);
}

#[test]
fn durable_insert_then_delete_restores_the_list() {
    let mut sql = SqliteModel::new(memory_connection());
    script(&mut sql);
    let before = sql.events_iter(D);
    sql.new_event(D, 1).unwrap();
    assert_eq!(sql.events_len(D), 3);
    sql.delete_event(D, 1).unwrap();
    assert_eq!(sql.events_iter(D), before);
    let reopened = SqliteModel::new(sql.into_connection());
    assert_eq!(reopened.events_iter(D), before);
}
