use jotty::item::{CompletionLevel, Event, Importance, Task};

#[test]
fn importance_cycle_swaps() {
    assert_eq!(Importance::Normal.cycle(), Importance::High);
    assert_eq!(Importance::High.cycle(), Importance::Normal);
}

#[test]
fn completion_level_cycles_through_three() {
    assert_eq!(CompletionLevel::NotStarted.cycle(), CompletionLevel::Partial);
    assert_eq!(CompletionLevel::Partial.cycle(), CompletionLevel::Full);
    assert_eq!(CompletionLevel::Full.cycle(), CompletionLevel::NotStarted);
}

#[test]
fn tag_codes_round_trip() {
    assert_eq!(Importance::Normal.code(), 0);
    assert_eq!(Importance::High.code(), 1);
    assert_eq!(CompletionLevel::NotStarted.code(), 0);
    assert_eq!(CompletionLevel::Partial.code(), 1);
    assert_eq!(CompletionLevel::Full.code(), 2);
    assert_eq!(Importance::from_code(1), Some(Importance::High));
    assert_eq!(CompletionLevel::from_code(2), Some(CompletionLevel::Full));
}

#[test]
fn tag_codes_outside_the_enum_are_rejected() {
    assert_eq!(Importance::from_code(2), None);
    assert_eq!(Importance::from_code(-1), None);
    assert_eq!(CompletionLevel::from_code(7), None);
}

#[test]
fn new_items_are_blank() {
    let e = Event::new();
    assert_eq!(e.title, "");
    assert_eq!(e.importance, Importance::Normal);
    let t = Task::new();
    assert_eq!(t.title, "");
    assert_eq!(t.completion_level, CompletionLevel::NotStarted);
    assert_eq!(Event::default(), Event::new());
    assert_eq!(Task::default(), Task::new());
    assert_eq!(Importance::default(), Importance::Normal);
    assert_eq!(CompletionLevel::default(), CompletionLevel::NotStarted);
}

#[test]
fn cycling_an_item_keeps_its_title() {
    let e = Event { title: "standup".to_string(), importance: Importance::Normal }.cycle();
    assert_eq!(e.title, "standup");
    assert_eq!(e.importance, Importance::High);
    let t = Task { title: "laundry".to_string(), completion_level: CompletionLevel::Partial }.cycle();
    assert_eq!(t.title, "laundry");
    assert_eq!(t.completion_level, CompletionLevel::Full);
}

#[test]
fn clone_copies_title_and_tag() {
    let e = Event { title: "x".to_string(), importance: Importance::High };
    assert_eq!(e.clone(), e);
    let t = Task { title: "y".to_string(), completion_level: CompletionLevel::Full };
    assert_eq!(t.clone(), t);
}
