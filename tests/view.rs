use jotty::calendar::{FIRST_DAY, LAST_DAY};
use jotty::item::{CompletionLevel, Event, Importance, Task};
use jotty::mem_model::MemModel;
use jotty::store::Model;
use jotty::text::{char_len, insert_char_at, remove_char_at};
use jotty::view::{Selection, View, HELP_LINES};

const D: i32 = 2_460_000;

fn titled(titles: &[&str], tasks: &[&str]) -> MemModel {
    let mut m = MemModel::new();
    for t in titles {
        m.push_event(D, Event { title: t.to_string(), importance: Importance::Normal });
    }
    for t in tasks {
        m.push_task(D, Task { title: t.to_string(), completion_level: CompletionLevel::NotStarted });
    }
    m
}

fn task_titles(v: &View<MemModel>) -> Vec<String> {
    v.tasks_iter().into_iter().map(|t| t.title).collect()
}

fn event_titles(v: &View<MemModel>) -> Vec<String> {
    v.events_iter().into_iter().map(|e| e.title).collect()
}

#[test]
fn appending_tasks_and_typing() {
    let mut v = View::new(MemModel::new(), D);
    assert_eq!(v.selection(), None);
    v.append_new_task();
    assert_eq!(v.selection(), Some(Selection::Tasks(0)));
    assert_eq!(v.editing(), Some(0));
    v.insert_char('a');
    v.insert_char('b');
    assert_eq!(task_titles(&v), vec!["ab"]);
    assert_eq!(v.editing(), Some(2));
    v.exit_editing_mode();
    assert_eq!(v.editing(), None);
    v.append_new_task();
    assert_eq!(v.tasks_len(), 2);
    assert_eq!(v.selection(), Some(Selection::Tasks(1)));
    assert_eq!(task_titles(&v), vec!["ab", ""]);
}

#[test]
fn deleting_the_only_item_clears_the_selection() {
    let mut v = View::new(titled(&["one"], &[]), D);
    assert_eq!(v.selection(), Some(Selection::Events(0)));
    v.delete();
    assert_eq!(v.events_len(), 0);
    assert_eq!(v.selection(), None);
    v.delete();
    assert_eq!(v.selection(), None);
}

#[test]
fn deleting_the_last_event_moves_to_tasks() {
    let mut v = View::new(titled(&["one"], &["a", "b"]), D);
    v.move_down();
    v.delete();
    assert_eq!(v.selection(), Some(Selection::Tasks(0)));
    let mut w = View::new(titled(&["x", "y", "z"], &[]), D);
    w.move_down();
    w.move_down();
    w.delete();
    assert_eq!(w.selection(), Some(Selection::Events(1)));
    assert_eq!(event_titles(&w), vec!["x", "y"]);
}

#[test]
fn changing_the_date_settles_the_selection() {
    let mut m = titled(&["a", "b", "c"], &[]);
    m.push_event(D + 1, Event::new());
    m.push_task(D + 2, Task::new());
    let mut v = View::new(m, D);
    v.move_down();
    v.move_down();
    assert_eq!(v.selection(), Some(Selection::Events(2)));
    v.move_to_next();
    assert_eq!(v.date(), D + 1);
    assert_eq!(v.selection(), Some(Selection::Events(0)));
    v.move_to_next();
    assert_eq!(v.selection(), Some(Selection::Tasks(0)));
    v.move_to_next();
    assert_eq!(v.selection(), None);
    v.move_to_today(D);
    assert_eq!(v.date(), D);
    assert_eq!(v.selection(), Some(Selection::Events(0)));
    v.move_to_prev();
    assert_eq!(v.date(), D - 1);
    assert_eq!(v.selection(), None);
}

#[test]
fn the_calendar_stops_at_its_ends() {
    let mut v = View::new(MemModel::new(), LAST_DAY);
    v.move_to_next();
    assert_eq!(v.date(), LAST_DAY);
    v.move_to_prev();
    assert_eq!(v.date(), LAST_DAY - 1);
    let mut w = View::new(MemModel::new(), FIRST_DAY);
    w.move_to_prev();
    assert_eq!(w.date(), FIRST_DAY);
    w.move_to_next();
    assert_eq!(w.date(), FIRST_DAY + 1);
}

#[test]
fn edit_round_trip_restores_the_title() {
    let mut v = View::new(titled(&["héllo"], &[]), D);
    v.enter_editing_mode();
    assert_eq!(v.editing(), Some(5));
    v.insert_char('x');
    assert_eq!(event_titles(&v), vec!["héllox"]);
    v.delete_char();
    assert_eq!(event_titles(&v), vec!["héllo"]);
    assert_eq!(v.editing(), Some(5));
}

#[test]
fn cursor_stops_at_both_ends() {
    let mut v = View::new(titled(&["ab"], &[]), D);
    v.enter_editing_mode();
    v.move_cursor_right();
    assert_eq!(v.editing(), Some(2));
    v.move_cursor_left();
    v.move_cursor_left();
    assert_eq!(v.editing(), Some(0));
    v.move_cursor_left();
    assert_eq!(v.editing(), Some(0));
    v.delete_char();
    assert_eq!(event_titles(&v), vec!["ab"]);
    v.move_cursor_right();
    v.insert_char('é');
    assert_eq!(event_titles(&v), vec!["aéb"]);
    assert_eq!(v.editing(), Some(2));
    v.delete_char();
    v.delete_char();
    assert_eq!(event_titles(&v), vec!["b"]);
    assert_eq!(v.editing(), Some(0));
}

#[test]
fn moving_clamps_within_lists() {
    let mut v = View::new(titled(&["a", "b", "c"], &["x"]), D);
    v.move_up();
    assert_eq!(v.selection(), Some(Selection::Events(0)));
    v.move_down();
    v.move_down();
    v.move_down();
    assert_eq!(v.selection(), Some(Selection::Events(2)));
    v.move_right();
    assert_eq!(v.selection(), Some(Selection::Tasks(0)));
    v.move_right();
    assert_eq!(v.selection(), Some(Selection::Tasks(0)));
    v.move_left();
    assert_eq!(v.selection(), Some(Selection::Events(0)));
}

#[test]
fn moving_left_needs_events() {
    let mut v = View::new(titled(&[], &["x"]), D);
    assert_eq!(v.selection(), Some(Selection::Tasks(0)));
    v.move_left();
    assert_eq!(v.selection(), Some(Selection::Tasks(0)));
}

#[test]
fn cycling_the_selection() {
    let mut v = View::new(titled(&["a"], &["x"]), D);
    v.cycle();
    assert_eq!(v.events_iter()[0].importance, Importance::High);
    v.move_right();
    v.cycle();
    v.cycle();
    assert_eq!(v.tasks_iter()[0].completion_level, CompletionLevel::Full);
    assert_eq!(v.tasks_iter()[0].title, "x");
}

#[test]
fn inserting_above_the_selection() {
    let mut v = View::new(titled(&["a", "b"], &[]), D);
    v.move_down();
    v.insert_new_item();
    assert_eq!(event_titles(&v), vec!["a", "", "b"]);
    assert_eq!(v.selection(), Some(Selection::Events(1)));
    assert_eq!(v.editing(), Some(0));
    v.insert_char('n');
    assert_eq!(event_titles(&v), vec!["a", "n", "b"]);
    let mut empty = View::new(MemModel::new(), D);
    empty.insert_new_item();
    assert_eq!(empty.events_len(), 0);
    assert_eq!(empty.editing(), None);
}

#[test]
fn help_menu_holds_the_other_intents() {
    let mut v = View::new(titled(&["a", "b"], &[]), D);
    v.toggle_help();
    assert_eq!(v.help_line(), Some(0));
    for _ in 0..20 {
        v.move_down();
    }
    assert_eq!(v.help_line(), Some(HELP_LINES - 1));
    v.move_up();
    assert_eq!(v.help_line(), Some(HELP_LINES - 2));
    v.delete();
    v.append_new_event();
    assert_eq!(v.events_len(), 2);
    assert_eq!(v.selection(), Some(Selection::Events(0)));
    v.toggle_help();
    assert_eq!(v.help_line(), None);
}

#[test]
fn editing_state_is_reported() {
    let mut v = View::new(titled(&["a"], &[]), D);
    assert!(!v.is_editing());
    v.enter_editing_mode();
    assert!(v.is_editing());
    v.move_down();
    assert!(!v.is_editing());
    let v = v.background_text("not saved".to_string());
    assert_eq!(v.background_message(), &Some("not saved".to_string()));
    assert!(v.err().is_ok());
}

#[test]
fn text_edits_count_characters() {
    assert_eq!(char_len("héllo"), 5);
    assert_eq!(insert_char_at("héllo", 2, 'x'), "héxllo");
    assert_eq!(insert_char_at("", 0, 'ß'), "ß");
    assert_eq!(remove_char_at("héllo", 1), "hllo");
    assert_eq!(remove_char_at("ab", 1), "a");
}

#[test]
fn new_view_selects_first_event_then_task() {
    let mut m = MemModel::new();
    m.new_task(D, 0).unwrap();
    let v = View::new(m, D);
    assert_eq!(v.selection(), Some(Selection::Tasks(0)));
    let w = View::new(titled(&["a"], &["b"]), D);
    assert_eq!(w.selection(), Some(Selection::Events(0)));
}
