use jotty::item::{CompletionLevel, Event, Importance, Task};
use jotty::mem_model::{Entry, MemModel};
use jotty::store::{Model, StoreError};

const D: i32 = 2_460_000;

fn titles(m: &MemModel, date: i32) -> Vec<String> {
    m.events_iter(date).into_iter().map(|e| e.title).collect()
}

fn named(title: &str) -> Event {
    Event { title: title.to_string(), importance: Importance::Normal }
}

#[test]
fn unknown_date_is_empty() {
    let m = MemModel::new();
    assert_eq!(m.events_len(D), 0);
    assert_eq!(m.tasks_len(D), 0);
    assert!(m.events_iter(D).is_empty());
    assert!(m.tasks_iter(D).is_empty());
    assert!(m.err().is_ok());
}

#[test]
fn entry_new_is_empty() {
    let e = Entry::new();
    assert!(e.events.is_empty());
    assert!(e.tasks.is_empty());
}

#[test]
fn insert_past_the_end_is_an_index_error() {
    let mut m = MemModel::new();
    assert_eq!(m.new_event(D, 1), Err(StoreError::IndexOutOfBounds));
    assert_eq!(m.new_task(D, 1), Err(StoreError::IndexOutOfBounds));
    assert_eq!(m.events_len(D), 0);
    assert_eq!(m.new_event(D, 0), Ok(()));
    assert_eq!(m.new_event(D, 1), Ok(()));
    assert_eq!(m.new_event(D, 3), Err(StoreError::IndexOutOfBounds));
    assert_eq!(m.events_len(D), 2);
}

#[test]
fn delete_read_replace_out_of_range_are_index_errors() {
    let mut m = MemModel::new();
    assert_eq!(m.delete_event(D, 0), Err(StoreError::IndexOutOfBounds));
    assert_eq!(m.delete_task(D, 0), Err(StoreError::IndexOutOfBounds));
    assert_eq!(m.get_event(D, 0), Err(StoreError::IndexOutOfBounds));
    assert_eq!(m.get_task(D, 0), Err(StoreError::IndexOutOfBounds));
    assert_eq!(m.replace_event(D, 0, Event::new()), Err(StoreError::IndexOutOfBounds));
    assert_eq!(m.replace_task(D, 0, Task::new()), Err(StoreError::IndexOutOfBounds));
    m.new_task(D, 0).unwrap();
    assert_eq!(m.get_task(D, 1), Err(StoreError::IndexOutOfBounds));
    assert_eq!(m.delete_task(D, 1), Err(StoreError::IndexOutOfBounds));
}

#[test]
fn insert_shifts_later_items_up() {
    let mut m = MemModel::new();
    m.new_event(D, 0).unwrap();
    m.replace_event(D, 0, named("a")).unwrap();
    m.new_event(D, 1).unwrap();
    m.replace_event(D, 1, named("b")).unwrap();
    m.new_event(D, 1).unwrap();
    assert_eq!(titles(&m, D), vec!["a", "", "b"]);
    m.new_event(D, 0).unwrap();
    assert_eq!(titles(&m, D), vec!["", "a", "", "b"]);
}

#[test]
fn delete_shifts_later_items_down() {
    let mut m = MemModel::new();
    for (i, t) in ["a", "b", "c"].iter().enumerate() {
        m.new_event(D, i).unwrap();
        m.replace_event(D, i, named(t)).unwrap();
    }
    m.delete_event(D, 1).unwrap();
    assert_eq!(titles(&m, D), vec!["a", "c"]);
    assert_eq!(m.get_event(D, 1).unwrap().title, "c");
    m.delete_event(D, 0).unwrap();
    m.delete_event(D, 0).unwrap();
    assert_eq!(m.events_len(D), 0);
    assert!(m.events_iter(D).is_empty());
}

#[test]
fn insert_then_delete_restores_the_list() {
    let mut m = MemModel::new();
    for (i, t) in ["a", "b", "c"].iter().enumerate() {
        m.new_event(D, i).unwrap();
        m.replace_event(D, i, named(t)).unwrap();
    }
    let before = m.events_iter(D);
    m.new_event(D, 1).unwrap();
    assert_eq!(m.events_len(D), 4);
    m.delete_event(D, 1).unwrap();
    assert_eq!(m.events_iter(D), before);
}

#[test]
fn lists_and_dates_are_independent() {
    let mut m = MemModel::new();
    m.new_event(D, 0).unwrap();
    m.new_task(D, 0).unwrap();
    m.new_task(D, 1).unwrap();
    m.new_task(D + 1, 0).unwrap();
    m.delete_event(D, 0).unwrap();
    assert_eq!(m.events_len(D), 0);
    assert_eq!(m.tasks_len(D), 2);
    assert_eq!(m.tasks_len(D + 1), 1);
    assert_eq!(m.events_len(D + 1), 0);
}

#[test]
fn replace_overwrites_title_and_tag() {
    let mut m = MemModel::new();
    m.new_task(D, 0).unwrap();
    let t = Task { title: "write".to_string(), completion_level: CompletionLevel::Partial };
    m.replace_task(D, 0, t.clone()).unwrap();
    assert_eq!(m.get_task(D, 0), Ok(t.clone()));
    assert_eq!(m.tasks_iter(D), vec![t]);
}

#[test]
fn push_appends_at_the_end() {
    let mut m = MemModel::new();
    m.push_event(D, named("a"));
    m.push_event(D, named("b"));
    m.push_task(D, Task::new());
    assert_eq!(titles(&m, D), vec!["a", "b"]);
    assert_eq!(m.tasks_len(D), 1);
}
