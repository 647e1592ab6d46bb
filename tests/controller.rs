use jotty::controller::{intent_for, Controller, Intent, Key};
use jotty::mem_model::MemModel;
use jotty::view::{Selection, View};

const D: i32 = 2_460_000;

#[test]
fn keys_map_to_intents() {
    assert_eq!(intent_for(Key::Up, false, false), Some(Intent::MoveUp));
    assert_eq!(intent_for(Key::Left, true, true), Some(Intent::PreviousDay));
    assert_eq!(intent_for(Key::Left, false, true), Some(Intent::CursorLeft));
    assert_eq!(intent_for(Key::Left, false, false), Some(Intent::MoveLeft));
    assert_eq!(intent_for(Key::Right, true, false), Some(Intent::NextDay));
    assert_eq!(intent_for(Key::Enter, false, true), Some(Intent::ExitEdit));
    assert_eq!(intent_for(Key::Enter, false, false), Some(Intent::EnterEdit));
    assert_eq!(intent_for(Key::Char('q'), false, true), Some(Intent::InsertChar('q')));
    assert_eq!(intent_for(Key::Char('q'), false, false), Some(Intent::Exit));
    assert_eq!(intent_for(Key::Char(' '), false, false), Some(Intent::Cycle));
    assert_eq!(intent_for(Key::Char('d'), false, false), Some(Intent::DeleteSelected));
    assert_eq!(intent_for(Key::Char('h'), false, false), Some(Intent::ToggleHelp));
    assert_eq!(intent_for(Key::Char('z'), false, false), None);
}

#[test]
fn controller_types_and_quits() {
    let mut c = Controller::new(View::new(MemModel::new(), D));
    c.handle(Key::Char('t'), false, D);
    assert_eq!(c.view().selection(), Some(Selection::Tasks(0)));
    c.handle(Key::Char('q'), false, D);
    assert!(!c.should_exit());
    c.handle(Key::Enter, false, D);
    assert!(!c.view().is_editing());
    let titles: Vec<String> = c.view().tasks_iter().into_iter().map(|t| t.title).collect();
    assert_eq!(titles, vec!["q"]);
    c.handle(Key::Char('q'), false, D);
    assert!(c.should_exit());
}

#[test]
fn controller_changes_days() {
    let mut c = Controller::new(View::new(MemModel::new(), D));
    c.handle(Key::Right, true, D);
    assert_eq!(c.view().date(), D + 1);
    c.handle(Key::Char('c'), false, D - 5);
    assert_eq!(c.view().date(), D - 5);
    c.apply(Intent::PreviousDay, D);
    assert_eq!(c.view().date(), D - 6);
}
