use vstd::prelude::*;

use crate::store::Model;
use crate::view::View;
use crate::JulianDay;

verus! {

/// A key press, as far as the journal reads keys.
#[derive(Debug, Clone, Copy, PartialEq, Eq, Structural)]
pub enum Key {
    Up,
    Down,
    Left,
    Right,
    Backspace,
    Enter,
    Esc,
    Char(char),
}

/// What the user asks of the journal.
#[derive(Debug, Clone, Copy, PartialEq, Eq, Structural)]
pub enum Intent {
    MoveUp,
    MoveDown,
    MoveLeft,
    MoveRight,
    Cycle,
    NextDay,
    PreviousDay,
    Today,
    EnterEdit,
    ExitEdit,
    CursorLeft,
    CursorRight,
    InsertChar(char),
    DeleteChar,
    AppendNewEvent,
    AppendNewTask,
    InsertAbove,
    DeleteSelected,
    ToggleHelp,
    Exit,
}

/// The intent of `key`, pressed with or without shift, while editing a title
/// or not. Arrows with shift change the day; while editing, left and right
/// move the cursor and characters are typed into the title.
pub open spec fn intent_of(key: Key, shift: bool, editing: bool) -> Option<Intent> {
    match key {
        Key::Up => Some(Intent::MoveUp),
        Key::Down => Some(Intent::MoveDown),
        Key::Left => Some(
            if shift {
                Intent::PreviousDay
            } else if editing {
                Intent::CursorLeft
            } else {
                Intent::MoveLeft
            },
        ),
        Key::Right => Some(
            if shift {
                Intent::NextDay
            } else if editing {
                Intent::CursorRight
            } else {
                Intent::MoveRight
            },
        ),
        Key::Backspace => Some(Intent::DeleteChar),
        Key::Enter => Some(
            if editing {
                Intent::ExitEdit
            } else {
                Intent::EnterEdit
            },
        ),
        Key::Esc => Some(Intent::ExitEdit),
        Key::Char(c) => if editing {
            Some(Intent::InsertChar(c))
        } else if c == 'q' {
            Some(Intent::Exit)
        } else if c == ' ' {
            Some(Intent::Cycle)
        } else if c == 'c' {
            Some(Intent::Today)
        } else if c == 'n' {
            Some(Intent::InsertAbove)
        } else if c == 'e' {
            Some(Intent::AppendNewEvent)
        } else if c == 't' {
            Some(Intent::AppendNewTask)
        } else if c == 'd' {
            Some(Intent::DeleteSelected)
        } else if c == 'h' {
            Some(Intent::ToggleHelp)
        } else {
            None
        },
    }
}

pub fn intent_for(key: Key, shift: bool, editing: bool) -> (r: Option<Intent>)
    ensures
        r == intent_of(key, shift, editing),
{
    match key {
        Key::Up => Some(Intent::MoveUp),
        Key::Down => Some(Intent::MoveDown),
        Key::Left => Some(
            if shift {
                Intent::PreviousDay
            } else if editing {
                Intent::CursorLeft
            } else {
                Intent::MoveLeft
            },
        ),
        Key::Right => Some(
            if shift {
                Intent::NextDay
            } else if editing {
                Intent::CursorRight
            } else {
                Intent::MoveRight
            },
        ),
        Key::Backspace => Some(Intent::DeleteChar),
        Key::Enter => Some(
            if editing {
                Intent::ExitEdit
            } else {
                Intent::EnterEdit
            },
        ),
        Key::Esc => Some(Intent::ExitEdit),
        Key::Char(c) => if editing {
            Some(Intent::InsertChar(c))
        } else if c == 'q' {
            Some(Intent::Exit)
        } else if c == ' ' {
            Some(Intent::Cycle)
        } else if c == 'c' {
            Some(Intent::Today)
        } else if c == 'n' {
            Some(Intent::InsertAbove)
        } else if c == 'e' {
            Some(Intent::AppendNewEvent)
        } else if c == 't' {
            Some(Intent::AppendNewTask)
        } else if c == 'd' {
            Some(Intent::DeleteSelected)
        } else if c == 'h' {
            Some(Intent::ToggleHelp)
        } else {
            None
        },
    }
}

/// Turns key presses into intents on a view, until the user asks to leave.
pub struct Controller<M: Model> {
    view: View<M>,
    should_exit: bool,
}

impl<M: Model> Controller<M> {
    pub closed spec fn view_spec(&self) -> View<M> {
        self.view
    }

    pub closed spec fn exiting(&self) -> bool {
        self.should_exit
    }

    pub fn new(view: View<M>) -> (r: Self)
        ensures
            r.view_spec() == view,
            !r.exiting(),
    {
        Controller { view, should_exit: false }
    }

    pub fn view(&self) -> (r: &View<M>)
        ensures
            *r == self.view_spec(),
    {
        &self.view
    }

    pub fn should_exit(&self) -> (r: bool)
        ensures
            r == self.exiting(),
    {
        self.should_exit
    }

    /// What carrying out `intent` does: the view moves as that intent says,
    /// and `Exit` alone raises the exit flag.
    pub open spec fn applied(pre: &Self, post: &Self, intent: Intent, today: JulianDay) -> bool {
        let before = &pre.view_spec();
        let after = &post.view_spec();
        &&& post.exiting() == (pre.exiting() || intent == Intent::Exit)
        &&& match intent {
            Intent::MoveUp => View::moved_up(before, after),
            Intent::MoveDown => View::moved_down(before, after),
            Intent::MoveLeft => View::moved_left(before, after),
            Intent::MoveRight => View::moved_right(before, after),
            Intent::Cycle => View::cycled(before, after),
            Intent::NextDay => View::moved_to_next(before, after),
            Intent::PreviousDay => View::moved_to_prev(before, after),
            Intent::Today => View::moved_to_today(before, after, today),
            Intent::EnterEdit => View::entered_edit(before, after),
            Intent::ExitEdit => View::exited_edit(before, after),
            Intent::CursorLeft => View::cursor_moved_left(before, after),
            Intent::CursorRight => View::cursor_moved_right(before, after),
            Intent::InsertChar(c) => View::inserted_char(before, after, c),
            Intent::DeleteChar => View::deleted_char(before, after),
            Intent::AppendNewEvent => View::appended_event(before, after),
            Intent::AppendNewTask => View::appended_task(before, after),
            Intent::InsertAbove => View::inserted_above(before, after),
            Intent::DeleteSelected => View::deleted_selected(before, after),
            Intent::ToggleHelp => View::toggled_help(before, after),
            Intent::Exit => *after == *before,
        }
    }

    /// Carries out `intent`; `today` is the current date, for `Today`.
    pub fn apply(&mut self, intent: Intent, today: JulianDay)
        requires
            old(self).view_spec().wf(),
        ensures
            final(self).view_spec().wf(),
            Self::applied(old(self), final(self), intent, today),
    {
        match intent {
            Intent::MoveUp => self.view.move_up(),
            Intent::MoveDown => self.view.move_down(),
            Intent::MoveLeft => self.view.move_left(),
            Intent::MoveRight => self.view.move_right(),
            Intent::Cycle => self.view.cycle(),
            Intent::NextDay => self.view.move_to_next(),
            Intent::PreviousDay => self.view.move_to_prev(),
            Intent::Today => self.view.move_to_today(today),
            Intent::EnterEdit => self.view.enter_editing_mode(),
            Intent::ExitEdit => self.view.exit_editing_mode(),
            Intent::CursorLeft => self.view.move_cursor_left(),
            Intent::CursorRight => self.view.move_cursor_right(),
            Intent::InsertChar(c) => self.view.insert_char(c),
            Intent::DeleteChar => self.view.delete_char(),
            Intent::AppendNewEvent => self.view.append_new_event(),
            Intent::AppendNewTask => self.view.append_new_task(),
            Intent::InsertAbove => self.view.insert_new_item(),
            Intent::DeleteSelected => self.view.delete(),
            Intent::ToggleHelp => self.view.toggle_help(),
            Intent::Exit => {
                self.should_exit = true;
            },
        }
    }

    /// Handles one key press: its intent, if it has one, is carried out.
    pub fn handle(&mut self, key: Key, shift: bool, today: JulianDay)
        requires
            old(self).view_spec().wf(),
        ensures
            final(self).view_spec().wf(),
            match intent_of(
                key,
                shift,
                !old(self).view_spec().faulted() && old(self).view_spec().cursor() is Some,
            ) {
                Some(intent) => Self::applied(old(self), final(self), intent, today),
                None => *final(self) == *old(self),
            },
    {
        let editing = self.view.is_editing();
        if let Some(intent) = intent_for(key, shift, editing) {
            self.apply(intent, today);
        }
    }
}

} // verus!
