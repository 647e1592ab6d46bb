use vstd::prelude::*;
use vstd::view::View as _;

use crate::calendar::{day_after, day_before, FIRST_DAY, LAST_DAY};
use crate::item::{Event, Task};
use crate::store::{blank_event_at, blank_task_at, Model, StoreFault};
use crate::text::{char_len, insert_char_at, remove_char_at};
use crate::JulianDay;

verus! {

/// The number of lines of the help menu.
pub const HELP_LINES: usize = 11;

/// The highlighted item: which list, and its index there.
#[derive(Debug, Clone, Copy, PartialEq, Eq, Structural)]
pub enum Selection {
    Events(usize),
    Tasks(usize),
}

/// `i`, or the last index of a list of `len` items if `i` lies past it.
pub open spec fn clamp(i: usize, len: nat) -> usize {
    if i < len {
        i
    } else {
        (len - 1) as usize
    }
}

/// The selection names an item of lists of `events` and `tasks` items.
pub open spec fn in_range(sel: Option<Selection>, events: nat, tasks: nat) -> bool {
    match sel {
        Some(Selection::Events(i)) => i < events,
        Some(Selection::Tasks(i)) => i < tasks,
        None => true,
    }
}

/// Where `sel` lands once the lists hold `events` and `tasks` items: it stays
/// in its list while that list has items (clamped to its end), else moves to
/// the other list at the same index (clamped), else there is none. With no
/// selection, the first event is taken, else the first task.
pub open spec fn settled(sel: Option<Selection>, events: nat, tasks: nat) -> Option<Selection> {
    match sel {
        Some(Selection::Events(i)) => if events > 0 {
            Some(Selection::Events(clamp(i, events)))
        } else if tasks > 0 {
            Some(Selection::Tasks(clamp(i, tasks)))
        } else {
            None
        },
        Some(Selection::Tasks(i)) => if tasks > 0 {
            Some(Selection::Tasks(clamp(i, tasks)))
        } else if events > 0 {
            Some(Selection::Events(clamp(i, events)))
        } else {
            None
        },
        None => if events > 0 {
            Some(Selection::Events(0))
        } else if tasks > 0 {
            Some(Selection::Tasks(0))
        } else {
            None
        },
    }
}

/// Every day but `date` holds in `post` what it held in `pre`.
pub open spec fn others_kept<M: Model>(pre: M, post: M, date: JulianDay) -> bool {
    &&& forall|d: JulianDay| d != date ==> #[trigger] post.events(d) == pre.events(d)
    &&& forall|d: JulianDay| d != date ==> #[trigger] post.tasks(d) == pre.tasks(d)
}


/// The selection settled on lists of `events` and `tasks` items.
fn settle(sel: Option<Selection>, events: usize, tasks: usize) -> (r: Option<Selection>)
    ensures
        r == settled(sel, events as nat, tasks as nat),
        in_range(r, events as nat, tasks as nat),
{
    match sel {
        Some(Selection::Events(i)) => if events > 0 {
            Some(Selection::Events(if i < events { i } else { events - 1 }))
        } else if tasks > 0 {
            Some(Selection::Tasks(if i < tasks { i } else { tasks - 1 }))
        } else {
            None
        },
        Some(Selection::Tasks(i)) => if tasks > 0 {
            Some(Selection::Tasks(if i < tasks { i } else { tasks - 1 }))
        } else if events > 0 {
            Some(Selection::Events(if i < events { i } else { events - 1 }))
        } else {
            None
        },
        None => if events > 0 {
            Some(Selection::Events(0))
        } else if tasks > 0 {
            Some(Selection::Tasks(0))
        } else {
            None
        },
    }
}

/// The navigation and editing state over a store: the day shown, the
/// selection, the edit cursor (a character offset into the selected title)
/// and the help menu's highlighted line.
pub struct View<M: Model> {
    model: M,
    date: JulianDay,
    selection: Option<Selection>,
    editing: Option<usize>,
    help_menu: Option<usize>,
    bg_message: Option<String>,
}

impl<M: Model> View<M> {
    pub closed spec fn store(&self) -> M {
        self.model
    }

    pub closed spec fn day(&self) -> JulianDay {
        self.date
    }

    pub closed spec fn sel(&self) -> Option<Selection> {
        self.selection
    }

    pub closed spec fn cursor(&self) -> Option<usize> {
        self.editing
    }

    pub closed spec fn help(&self) -> Option<usize> {
        self.help_menu
    }

    pub closed spec fn message(&self) -> Option<String> {
        self.bg_message
    }

    pub open spec fn events_now(&self) -> Seq<Event> {
        self.store().events(self.day())
    }

    pub open spec fn tasks_now(&self) -> Seq<Task> {
        self.store().tasks(self.day())
    }

    pub open spec fn faulted(&self) -> bool {
        self.store().faulted()
    }

    /// Intents other than the help menu's take effect.
    pub open spec fn active(&self) -> bool {
        !self.faulted() && self.help() is None
    }

    pub open spec fn title_of(&self, sel: Selection) -> Seq<char> {
        match sel {
            Selection::Events(i) => self.events_now()[i as int].title@,
            Selection::Tasks(i) => self.tasks_now()[i as int].title@,
        }
    }

    /// The selection names an existing item and the cursor lies within its
    /// title, while the store is sound.
    pub open spec fn wf(&self) -> bool {
        &&& self.help() matches Some(h) ==> h < HELP_LINES
        &&& !self.faulted() ==> {
            &&& in_range(self.sel(), self.events_now().len(), self.tasks_now().len())
            &&& self.cursor() matches Some(k) ==> (self.sel() matches Some(s) && k <= self.title_of(
                s,
            ).len())
        }
    }

    /// Only the selection, the cursor and the help menu may differ.
    pub open spec fn same_but_selection(&self, other: &Self) -> bool {
        &&& other.store() == self.store()
        &&& other.day() == self.day()
        &&& other.message() == self.message()
    }

    /// `EnterEdit`: the cursor goes to the end of the selected title.
    pub open spec fn entered_edit(pre: &Self, post: &Self) -> bool {
        if pre.active() && pre.sel() is Some {
            &&& pre.same_but_selection(post)
            &&& post.help() == pre.help()
            &&& post.sel() == pre.sel()
            &&& post.cursor() == Some(pre.title_of(pre.sel().unwrap()).len() as usize)
        } else {
            post == pre
        }
    }

    /// `InsertChar(c)`: `c` goes in at the cursor, which moves past it.
    pub open spec fn inserted_char(pre: &Self, post: &Self, c: char) -> bool {
        if pre.active() && pre.cursor() is Some && pre.sel() is Some && pre.cursor().unwrap()
            < usize::MAX {
            let k = pre.cursor().unwrap();
            let s = pre.sel().unwrap();
            &&& post.day() == pre.day()
            &&& post.help() == pre.help()
            &&& post.message() == pre.message()
            &&& post.sel() == pre.sel()
            &&& post.cursor() == Some((k + 1) as usize)
            &&& !post.faulted() ==> Self::retitled(pre, post, s, pre.title_of(s).insert(k as int, c))
        } else {
            post == pre
        }
    }

    /// `DeleteChar`: the character before the cursor goes, and the cursor
    /// moves back by one.
    pub open spec fn deleted_char(pre: &Self, post: &Self) -> bool {
        if pre.active() && pre.cursor() is Some && pre.sel() is Some && pre.cursor().unwrap() > 0 {
            let k = pre.cursor().unwrap();
            let s = pre.sel().unwrap();
            &&& post.day() == pre.day()
            &&& post.help() == pre.help()
            &&& post.message() == pre.message()
            &&& post.sel() == pre.sel()
            &&& post.cursor() == Some((k - 1) as usize)
            &&& !post.faulted() ==> Self::retitled(pre, post, s, pre.title_of(s).remove(k - 1))
        } else {
            post == pre
        }
    }

    /// The selected item of `pre` has title `t` in `post`, its tag and every
    /// other item unchanged.
    pub open spec fn retitled(pre: &Self, post: &Self, s: Selection, t: Seq<char>) -> bool {
        &&& others_kept(pre.store(), post.store(), pre.day())
        &&& match s {
            Selection::Events(i) => {
                &&& post.tasks_now() == pre.tasks_now()
                &&& post.events_now() == pre.events_now().update(i as int, post.events_now()[i as int])
                &&& post.events_now()[i as int].title@ == t
                &&& post.events_now()[i as int].importance == pre.events_now()[i as int].importance
            },
            Selection::Tasks(i) => {
                &&& post.events_now() == pre.events_now()
                &&& post.tasks_now() == pre.tasks_now().update(i as int, post.tasks_now()[i as int])
                &&& post.tasks_now()[i as int].title@ == t
                &&& post.tasks_now()[i as int].completion_level
                    == pre.tasks_now()[i as int].completion_level
            },
        }
    }

    /// `MoveUp`: the highlight of the help menu, or else the selection, goes
    /// up by one, stopping at the top; the cursor is dropped.
    pub open spec fn moved_up(pre: &Self, post: &Self) -> bool {
        &&& pre.faulted() ==> *post == *pre
        &&& !pre.faulted() ==> {
            &&& pre.same_but_selection(post)
            &&& post.cursor() is None
            &&& post.help() == (match pre.help() {
                Some(h) => Some(if h > 0 { (h - 1) as usize } else { 0 }),
                None => None,
            })
            &&& post.sel() == if pre.help() is Some {
                pre.sel()
            } else {
                match pre.sel() {
                    Some(Selection::Events(i)) => Some(
                        Selection::Events(if i > 0 { (i - 1) as usize } else { 0 }),
                    ),
                    Some(Selection::Tasks(i)) => Some(
                        Selection::Tasks(if i > 0 { (i - 1) as usize } else { 0 }),
                    ),
                    None => None,
                }
            }
        }
    }

    /// `MoveDown`: the highlight of the help menu, or else the selection,
    /// goes down by one, stopping at the end of its list; the cursor is
    /// dropped.
    pub open spec fn moved_down(pre: &Self, post: &Self) -> bool {
        &&& pre.faulted() ==> *post == *pre
        &&& !pre.faulted() ==> {
            &&& pre.same_but_selection(post)
            &&& post.cursor() is None
            &&& post.help() == (match pre.help() {
                Some(h) => Some(if h + 1 < HELP_LINES { (h + 1) as usize } else { h }),
                None => None,
            })
            &&& post.sel() == if pre.help() is Some {
                pre.sel()
            } else {
                match pre.sel() {
                    Some(Selection::Events(i)) => Some(
                        Selection::Events(
                            if i + 1 < pre.events_now().len() {
                                (i + 1) as usize
                            } else {
                                i
                            },
                        ),
                    ),
                    Some(Selection::Tasks(i)) => Some(
                        Selection::Tasks(
                            if i + 1 < pre.tasks_now().len() {
                                (i + 1) as usize
                            } else {
                                i
                            },
                        ),
                    ),
                    None => None,
                }
            }
        }
    }

    /// `MoveLeft`: a selected task hands the selection to the event at the
    /// same index, clamped to the events' end, if the day has events; the
    /// cursor is dropped.
    pub open spec fn moved_left(pre: &Self, post: &Self) -> bool {
        &&& !pre.active() ==> *post == *pre
        &&& pre.active() ==> {
            &&& pre.same_but_selection(post)
            &&& post.help() == pre.help()
            &&& post.cursor() is None
            &&& post.sel() == match pre.sel() {
                Some(Selection::Tasks(i)) => if pre.events_now().len() > 0 {
                    Some(Selection::Events(clamp(i, pre.events_now().len())))
                } else {
                    pre.sel()
                },
                _ => pre.sel(),
            }
        }
    }

    /// `MoveRight`: a selected event hands the selection to the task at the
    /// same index, clamped to the tasks' end, if the day has tasks; the
    /// cursor is dropped.
    pub open spec fn moved_right(pre: &Self, post: &Self) -> bool {
        &&& !pre.active() ==> *post == *pre
        &&& pre.active() ==> {
            &&& pre.same_but_selection(post)
            &&& post.help() == pre.help()
            &&& post.cursor() is None
            &&& post.sel() == match pre.sel() {
                Some(Selection::Events(i)) => if pre.tasks_now().len() > 0 {
                    Some(Selection::Tasks(clamp(i, pre.tasks_now().len())))
                } else {
                    pre.sel()
                },
                _ => pre.sel(),
            }
        }
    }

    /// `ChangeDate`: shows `date`, settles the selection on its lists and
    /// drops the cursor.
    pub open spec fn moved_to(pre: &Self, post: &Self, date: JulianDay) -> bool {
        &&& !pre.active() ==> *post == *pre
        &&& pre.active() ==> {
            &&& post.store() == pre.store()
            &&& post.help() == pre.help()
            &&& post.message() == pre.message()
            &&& post.day() == date
            &&& post.cursor() is None
            &&& post.sel() == settled(
                pre.sel(),
                pre.store().events(date).len(),
                pre.store().tasks(date).len(),
            )
            &&& in_range(
                post.sel(),
                post.events_now().len(),
                post.tasks_now().len(),
            )
        }
    }

    /// Moves to the next day; nothing happens on the calendar's last day.
    pub open spec fn moved_to_next(pre: &Self, post: &Self) -> bool {
        &&& !pre.active() || pre.day() >= LAST_DAY || pre.day() < FIRST_DAY
            ==> *post == *pre
        &&& pre.active() && FIRST_DAY <= pre.day() < LAST_DAY ==> {
            &&& post.store() == pre.store()
            &&& post.help() == pre.help()
            &&& post.message() == pre.message()
            &&& post.day() == pre.day() + 1
            &&& post.cursor() is None
            &&& post.sel() == settled(
                pre.sel(),
                post.events_now().len(),
                post.tasks_now().len(),
            )
        }
    }

    /// Moves to the previous day; nothing happens on the calendar's first
    /// day.
    pub open spec fn moved_to_prev(pre: &Self, post: &Self) -> bool {
        &&& !pre.active() || pre.day() <= FIRST_DAY || pre.day() > LAST_DAY
            ==> *post == *pre
        &&& pre.active() && FIRST_DAY < pre.day() <= LAST_DAY ==> {
            &&& post.store() == pre.store()
            &&& post.help() == pre.help()
            &&& post.message() == pre.message()
            &&& post.day() == pre.day() - 1
            &&& post.cursor() is None
            &&& post.sel() == settled(
                pre.sel(),
                post.events_now().len(),
                post.tasks_now().len(),
            )
        }
    }

    /// Moves to `today`, the current date as the caller's clock gives it.
    pub open spec fn moved_to_today(pre: &Self, post: &Self, today: JulianDay) -> bool {
        &&& !pre.active() ==> *post == *pre
        &&& pre.active() ==> {
            &&& post.store() == pre.store()
            &&& post.help() == pre.help()
            &&& post.message() == pre.message()
            &&& post.day() == today
            &&& post.cursor() is None
            &&& post.sel() == settled(
                pre.sel(),
                post.events_now().len(),
                post.tasks_now().len(),
            )
        }
    }

    /// `Cycle`: the selected item's tag advances; the cursor is dropped.
    pub open spec fn cycled(pre: &Self, post: &Self) -> bool {
        &&& !pre.active() ==> *post == *pre
        &&& pre.active() ==> {
            &&& post.day() == pre.day()
            &&& post.help() == pre.help()
            &&& post.message() == pre.message()
            &&& post.sel() == pre.sel()
            &&& post.cursor() is None
            &&& pre.sel() is None ==> post.store() == pre.store()
            &&& !post.faulted() ==> others_kept(
                pre.store(),
                post.store(),
                pre.day(),
            )
            &&& !post.faulted() ==> (match pre.sel() {
                Some(Selection::Events(i)) => {
                    &&& post.tasks_now() == pre.tasks_now()
                    &&& post.events_now() == pre.events_now().update(
                        i as int,
                        (Event {
                            title: pre.events_now()[i as int].title,
                            importance: pre.events_now()[i as int].importance.next(),
                        }),
                    )
                },
                Some(Selection::Tasks(i)) => {
                    &&& post.events_now() == pre.events_now()
                    &&& post.tasks_now() == pre.tasks_now().update(
                        i as int,
                        (Task {
                            title: pre.tasks_now()[i as int].title,
                            completion_level: pre.tasks_now()[
                                i as int
                            ].completion_level.next(),
                        }),
                    )
                },
                None => true,
            })
        }
    }

    /// `ExitEdit`: the cursor is dropped.
    pub open spec fn exited_edit(pre: &Self, post: &Self) -> bool {
        &&& pre.same_but_selection(post)
        &&& post.help() == pre.help()
        &&& post.sel() == pre.sel()
        &&& post.cursor() is None
    }

    /// `CursorLeft`: the cursor moves back by one, stopping at the start.
    pub open spec fn cursor_moved_left(pre: &Self, post: &Self) -> bool {
        &&& !pre.active() ==> *post == *pre
        &&& pre.cursor() == Some(0usize) ==> *post == *pre
        &&& pre.active() ==> {
            &&& pre.same_but_selection(post)
            &&& post.help() == pre.help()
            &&& post.sel() == pre.sel()
            &&& post.cursor() == (match pre.cursor() {
                Some(k) => Some(if k > 0 { (k - 1) as usize } else { 0 }),
                None => None,
            })
        }
    }

    /// `CursorRight`: the cursor moves on by one, stopping at the end of the
    /// title.
    pub open spec fn cursor_moved_right(pre: &Self, post: &Self) -> bool {
        &&& !pre.active() ==> *post == *pre
        &&& pre.sel() matches Some(s) ==> (pre.cursor() == Some(pre.title_of(s).len() as usize)
            ==> *post == *pre)
        &&& pre.active() ==> {
            &&& pre.same_but_selection(post)
            &&& post.help() == pre.help()
            &&& post.sel() == pre.sel()
            &&& post.cursor() == (match (pre.cursor(), pre.sel()) {
                (Some(k), Some(s)) => Some(
                    if k < pre.title_of(s).len() {
                        (k + 1) as usize
                    } else {
                        k
                    },
                ),
                _ => pre.cursor(),
            })
        }
    }

    /// `AppendNewEvent`: a blank event goes at the end of the day's events,
    /// is selected, and editing starts at its beginning.
    pub open spec fn appended_event(pre: &Self, post: &Self) -> bool {
        &&& !pre.active() ==> *post == *pre
        &&& pre.active() ==> {
            &&& post.day() == pre.day()
            &&& post.help() == pre.help()
            &&& post.message() == pre.message()
            &&& post.sel() == Some(
                Selection::Events(pre.events_now().len() as usize),
            )
            &&& post.cursor() == Some(0usize)
            &&& !post.faulted() ==> {
                &&& blank_event_at(
                    post.events_now(),
                    pre.events_now(),
                    pre.events_now().len() as int,
                )
                &&& post.tasks_now() == pre.tasks_now()
                &&& others_kept(pre.store(), post.store(), pre.day())
            }
        }
    }

    /// `AppendNewTask`: a blank task goes at the end of the day's tasks, is
    /// selected, and editing starts at its beginning.
    pub open spec fn appended_task(pre: &Self, post: &Self) -> bool {
        &&& !pre.active() ==> *post == *pre
        &&& pre.active() ==> {
            &&& post.day() == pre.day()
            &&& post.help() == pre.help()
            &&& post.message() == pre.message()
            &&& post.sel() == Some(
                Selection::Tasks(pre.tasks_now().len() as usize),
            )
            &&& post.cursor() == Some(0usize)
            &&& !post.faulted() ==> {
                &&& blank_task_at(
                    post.tasks_now(),
                    pre.tasks_now(),
                    pre.tasks_now().len() as int,
                )
                &&& post.events_now() == pre.events_now()
                &&& others_kept(pre.store(), post.store(), pre.day())
            }
        }
    }

    /// `InsertAbove`: a blank item goes in at the selected index, pushing the
    /// selected item down; the blank one is selected and editing starts at its
    /// beginning.
    pub open spec fn inserted_above(pre: &Self, post: &Self) -> bool {
        &&& !pre.active() || pre.sel() is None ==> *post == *pre
        &&& pre.active() && pre.sel() is Some ==> {
            &&& post.day() == pre.day()
            &&& post.help() == pre.help()
            &&& post.message() == pre.message()
            &&& post.sel() == pre.sel()
            &&& post.cursor() == Some(0usize)
            &&& !post.faulted() ==> others_kept(
                pre.store(),
                post.store(),
                pre.day(),
            )
            &&& !post.faulted() ==> (match pre.sel() {
                Some(Selection::Events(i)) => {
                    &&& blank_event_at(
                        post.events_now(),
                        pre.events_now(),
                        i as int,
                    )
                    &&& post.tasks_now() == pre.tasks_now()
                },
                Some(Selection::Tasks(i)) => {
                    &&& blank_task_at(post.tasks_now(), pre.tasks_now(), i as int)
                    &&& post.events_now() == pre.events_now()
                },
                None => true,
            })
        }
    }

    /// `DeleteSelected`: the selected item goes and the selection settles on
    /// what is left; the cursor is dropped.
    pub open spec fn deleted_selected(pre: &Self, post: &Self) -> bool {
        &&& !pre.active() ==> *post == *pre
        &&& pre.active() ==> {
            &&& post.day() == pre.day()
            &&& post.help() == pre.help()
            &&& post.message() == pre.message()
            &&& post.cursor() is None
            &&& pre.sel() is None ==> post.store() == pre.store()
            &&& pre.sel() is Some ==> post.sel() == settled(
                pre.sel(),
                post.events_now().len(),
                post.tasks_now().len(),
            )
            &&& pre.sel() is None ==> post.sel() is None
            &&& in_range(
                post.sel(),
                post.events_now().len(),
                post.tasks_now().len(),
            )
            &&& !post.faulted() ==> others_kept(
                pre.store(),
                post.store(),
                pre.day(),
            )
            &&& !post.faulted() ==> (match pre.sel() {
                Some(Selection::Events(i)) => {
                    &&& post.events_now() == pre.events_now().remove(i as int)
                    &&& post.tasks_now() == pre.tasks_now()
                },
                Some(Selection::Tasks(i)) => {
                    &&& post.tasks_now() == pre.tasks_now().remove(i as int)
                    &&& post.events_now() == pre.events_now()
                },
                None => true,
            })
        }
    }

    /// Opens the help menu at its first line, or closes it.
    pub open spec fn toggled_help(pre: &Self, post: &Self) -> bool {
        &&& pre.same_but_selection(post)
        &&& post.sel() == pre.sel()
        &&& post.cursor() == pre.cursor()
        &&& post.help() == (if pre.help() is Some {
            None
        } else {
            Some(0usize)
        })
    }

    /// A view of `model` on `date`, with the first event selected, else the
    /// first task, else nothing.
    pub fn new(model: M, date: JulianDay) -> (r: Self)
        ensures
            r.wf(),
            r.store() == model,
            r.day() == date,
            r.cursor() is None,
            r.help() is None,
            r.message() is None,
            r.sel() == settled(None, model.events(date).len(), model.tasks(date).len()),
    {
        let selection = if model.events_len(date) > 0 {
            Some(Selection::Events(0))
        } else if model.tasks_len(date) > 0 {
            Some(Selection::Tasks(0))
        } else {
            None
        };
        View { model, date, selection, editing: None, help_menu: None, bg_message: None }
    }

    /// The same view with `message` shown when the day is empty.
    pub fn background_text(self, message: String) -> (r: Self)
        ensures
            r.store() == self.store(),
            r.day() == self.day(),
            r.sel() == self.sel(),
            r.cursor() == self.cursor(),
            r.help() == self.help(),
            r.message() == Some(message),
            r.wf() == self.wf(),
    {
        View { bg_message: Some(message), ..self }
    }

    fn is_active(&self) -> (r: bool)
        ensures
            r == self.active(),
    {
        self.model.err().is_ok() && self.help_menu.is_none()
    }

    /// `MoveUp`: the highlight of the help menu, or else the selection, goes
    /// up by one, stopping at the top; the cursor is dropped.
    pub fn move_up(&mut self)
        requires
            old(self).wf(),
        ensures
            final(self).wf(),
            Self::moved_up(old(self), final(self)),
    {
        if self.model.err().is_err() {
            return ;
        }
        self.editing = None;
        match self.help_menu {
            Some(h) => {
                self.help_menu = Some(if h > 0 { h - 1 } else { 0 });
            },
            None => {
                self.selection = match self.selection {
                    Some(Selection::Events(i)) => Some(
                        Selection::Events(if i > 0 { i - 1 } else { 0 }),
                    ),
                    Some(Selection::Tasks(i)) => Some(
                        Selection::Tasks(if i > 0 { i - 1 } else { 0 }),
                    ),
                    None => None,
                };
            },
        }
    }

    /// `MoveDown`: the highlight of the help menu, or else the selection,
    /// goes down by one, stopping at the end of its list; the cursor is
    /// dropped.
    pub fn move_down(&mut self)
        requires
            old(self).wf(),
        ensures
            final(self).wf(),
            Self::moved_down(old(self), final(self)),
    {
        if self.model.err().is_err() {
            return ;
        }
        self.editing = None;
        match self.help_menu {
            Some(h) => {
                self.help_menu = Some(if h + 1 < HELP_LINES { h + 1 } else { h });
            },
            None => {
                self.selection = match self.selection {
                    Some(Selection::Events(i)) => {
                        let len = self.model.events_len(self.date);
                        Some(Selection::Events(if i + 1 < len { i + 1 } else { i }))
                    },
                    Some(Selection::Tasks(i)) => {
                        let len = self.model.tasks_len(self.date);
                        Some(Selection::Tasks(if i + 1 < len { i + 1 } else { i }))
                    },
                    None => None,
                };
            },
        }
    }

    /// `MoveLeft`: a selected task hands the selection to the event at the
    /// same index, clamped to the events' end, if the day has events; the
    /// cursor is dropped.
    pub fn move_left(&mut self)
        requires
            old(self).wf(),
        ensures
            final(self).wf(),
            Self::moved_left(old(self), final(self)),
    {
        if !self.is_active() {
            return ;
        }
        self.editing = None;
        if let Some(Selection::Tasks(i)) = self.selection {
            let len = self.model.events_len(self.date);
            if len > 0 {
                self.selection = Some(Selection::Events(if i < len { i } else { len - 1 }));
            }
        }
    }

    /// `MoveRight`: a selected event hands the selection to the task at the
    /// same index, clamped to the tasks' end, if the day has tasks; the
    /// cursor is dropped.
    pub fn move_right(&mut self)
        requires
            old(self).wf(),
        ensures
            final(self).wf(),
            Self::moved_right(old(self), final(self)),
    {
        if !self.is_active() {
            return ;
        }
        self.editing = None;
        if let Some(Selection::Events(i)) = self.selection {
            let len = self.model.tasks_len(self.date);
            if len > 0 {
                self.selection = Some(Selection::Tasks(if i < len { i } else { len - 1 }));
            }
        }
    }

    /// `ChangeDate`: shows `date`, settles the selection on its lists and
    /// drops the cursor.
    pub fn move_to(&mut self, date: JulianDay)
        requires
            old(self).wf(),
        ensures
            final(self).wf(),
            Self::moved_to(old(self), final(self), date),
    {
        if !self.is_active() {
            return ;
        }
        self.editing = None;
        self.date = date;
        let events = self.model.events_len(date);
        let tasks = self.model.tasks_len(date);
        self.selection = settle(self.selection, events, tasks);
    }

    /// Moves to the next day; nothing happens on the calendar's last day.
    pub fn move_to_next(&mut self)
        requires
            old(self).wf(),
        ensures
            final(self).wf(),
            Self::moved_to_next(old(self), final(self)),
    {
        if !self.is_active() {
            return ;
        }
        if let Some(next) = day_after(self.date) {
            self.move_to(next);
        }
    }

    /// Moves to the previous day; nothing happens on the calendar's first
    /// day.
    pub fn move_to_prev(&mut self)
        requires
            old(self).wf(),
        ensures
            final(self).wf(),
            Self::moved_to_prev(old(self), final(self)),
    {
        if !self.is_active() {
            return ;
        }
        if let Some(prev) = day_before(self.date) {
            self.move_to(prev);
        }
    }

    /// Moves to `today`, the current date as the caller's clock gives it.
    pub fn move_to_today(&mut self, today: JulianDay)
        requires
            old(self).wf(),
        ensures
            final(self).wf(),
            Self::moved_to_today(old(self), final(self), today),
    {
        self.move_to(today);
    }

    /// `Cycle`: the selected item's tag advances; the cursor is dropped.
    pub fn cycle(&mut self)
        requires
            old(self).wf(),
        ensures
            final(self).wf(),
            Self::cycled(old(self), final(self)),
    {
        if !self.is_active() {
            return ;
        }
        self.editing = None;
        match self.selection {
            Some(Selection::Tasks(i)) => {
                if let Ok(task) = self.model.get_task(self.date, i) {
                    let _ = self.model.replace_task(self.date, i, task.cycle());
                }
            },
            Some(Selection::Events(i)) => {
                if let Ok(event) = self.model.get_event(self.date, i) {
                    let _ = self.model.replace_event(self.date, i, event.cycle());
                }
            },
            None => {},
        }
    }

    /// The title of the selected item.
    fn selected_title(&self) -> (r: Option<String>)
        requires
            self.wf(),
            self.active(),
        ensures
            match self.sel() {
                Some(s) => r matches Some(t) && t@ == self.title_of(s),
                None => r is None,
            },
    {
        match self.selection {
            Some(Selection::Events(i)) => match self.model.get_event(self.date, i) {
                Ok(event) => Some(event.title),
                Err(_) => None,
            },
            Some(Selection::Tasks(i)) => match self.model.get_task(self.date, i) {
                Ok(task) => Some(task.title),
                Err(_) => None,
            },
            None => None,
        }
    }

    /// Gives the selected item the title `title`, keeping its tag.
    fn set_selected_title(&mut self, title: String)
        requires
            old(self).wf(),
            old(self).active(),
            old(self).sel() is Some,
        ensures
            final(self).day() == old(self).day(),
            final(self).help() == old(self).help(),
            final(self).message() == old(self).message(),
            final(self).sel() == old(self).sel(),
            final(self).cursor() == old(self).cursor(),
            !final(self).faulted() ==> Self::retitled(
                old(self),
                final(self),
                old(self).sel().unwrap(),
                title@,
            ),
    {
        match self.selection {
            Some(Selection::Events(i)) => {
                if let Ok(event) = self.model.get_event(self.date, i) {
                    let updated = Event { title, importance: event.importance };
                    let _ = self.model.replace_event(self.date, i, updated);
                }
            },
            Some(Selection::Tasks(i)) => {
                if let Ok(task) = self.model.get_task(self.date, i) {
                    let updated = Task { title, completion_level: task.completion_level };
                    let _ = self.model.replace_task(self.date, i, updated);
                }
            },
            None => {},
        }
    }

    /// `EnterEdit`: the cursor goes to the end of the selected title.
    pub fn enter_editing_mode(&mut self)
        requires
            old(self).wf(),
        ensures
            final(self).wf(),
            Self::entered_edit(old(self), final(self)),
    {
        if !self.is_active() {
            return ;
        }
        if let Some(title) = self.selected_title() {
            self.editing = Some(char_len(title.as_str()));
        }
    }

    /// `ExitEdit`: the cursor is dropped.
    pub fn exit_editing_mode(&mut self)
        requires
            old(self).wf(),
        ensures
            final(self).wf(),
            Self::exited_edit(old(self), final(self)),
    {
        self.editing = None;
    }

    /// `CursorLeft`: the cursor moves back by one, stopping at the start.
    pub fn move_cursor_left(&mut self)
        requires
            old(self).wf(),
        ensures
            final(self).wf(),
            Self::cursor_moved_left(old(self), final(self)),
    {
        if !self.is_active() {
            return ;
        }
        self.editing = match self.editing {
            Some(k) => Some(if k > 0 { k - 1 } else { 0 }),
            None => None,
        };
    }

    /// `CursorRight`: the cursor moves on by one, stopping at the end of the
    /// title.
    pub fn move_cursor_right(&mut self)
        requires
            old(self).wf(),
        ensures
            final(self).wf(),
            Self::cursor_moved_right(old(self), final(self)),
    {
        if !self.is_active() {
            return ;
        }
        if let Some(k) = self.editing {
            if let Some(title) = self.selected_title() {
                if k < char_len(title.as_str()) {
                    self.editing = Some(k + 1);
                }
            }
        }
    }

    /// `InsertChar(c)`: while editing, `c` goes into the selected title at
    /// the cursor, which moves past it.
    pub fn insert_char(&mut self, c: char)
        requires
            old(self).wf(),
        ensures
            final(self).wf(),
            Self::inserted_char(old(self), final(self), c),
    {
        if !self.is_active() {
            return ;
        }
        if let Some(k) = self.editing {
            if k < usize::MAX {
                if let Some(title) = self.selected_title() {
                    let updated = insert_char_at(title.as_str(), k, c);
                    self.set_selected_title(updated);
                    self.editing = Some(k + 1);
                }
            }
        }
    }

    /// `DeleteChar`: while editing with the cursor past the start, the
    /// character before the cursor goes and the cursor moves back by one.
    pub fn delete_char(&mut self)
        requires
            old(self).wf(),
        ensures
            final(self).wf(),
            Self::deleted_char(old(self), final(self)),
    {
        if !self.is_active() {
            return ;
        }
        if let Some(k) = self.editing {
            if k > 0 {
                if let Some(title) = self.selected_title() {
                    let updated = remove_char_at(title.as_str(), k - 1);
                    self.set_selected_title(updated);
                    self.editing = Some(k - 1);
                }
            }
        }
    }

    /// `AppendNewEvent`: a blank event goes at the end of the day's events,
    /// is selected, and editing starts at its beginning.
    pub fn append_new_event(&mut self)
        requires
            old(self).wf(),
        ensures
            final(self).wf(),
            Self::appended_event(old(self), final(self)),
    {
        if !self.is_active() {
            return ;
        }
        let index = self.model.events_len(self.date);
        let _ = self.model.new_event(self.date, index);
        self.selection = Some(Selection::Events(index));
        self.editing = Some(0);
    }

    /// `AppendNewTask`: a blank task goes at the end of the day's tasks, is
    /// selected, and editing starts at its beginning.
    pub fn append_new_task(&mut self)
        requires
            old(self).wf(),
        ensures
            final(self).wf(),
            Self::appended_task(old(self), final(self)),
    {
        if !self.is_active() {
            return ;
        }
        let index = self.model.tasks_len(self.date);
        let _ = self.model.new_task(self.date, index);
        self.selection = Some(Selection::Tasks(index));
        self.editing = Some(0);
    }

    /// `InsertAbove`: a blank item goes in at the selected index, pushing the
    /// selected item down; the blank one is selected and editing starts at its
    /// beginning.
    pub fn insert_new_item(&mut self)
        requires
            old(self).wf(),
        ensures
            final(self).wf(),
            Self::inserted_above(old(self), final(self)),
    {
        if !self.is_active() {
            return ;
        }
        match self.selection {
            Some(Selection::Events(i)) => {
                let _ = self.model.new_event(self.date, i);
                self.editing = Some(0);
            },
            Some(Selection::Tasks(i)) => {
                let _ = self.model.new_task(self.date, i);
                self.editing = Some(0);
            },
            None => {},
        }
    }

    /// `DeleteSelected`: the selected item goes and the selection settles on
    /// what is left; the cursor is dropped.
    pub fn delete(&mut self)
        requires
            old(self).wf(),
        ensures
            final(self).wf(),
            Self::deleted_selected(old(self), final(self)),
    {
        if !self.is_active() {
            return ;
        }
        self.editing = None;
        match self.selection {
            Some(Selection::Events(i)) => {
                let _ = self.model.delete_event(self.date, i);
            },
            Some(Selection::Tasks(i)) => {
                let _ = self.model.delete_task(self.date, i);
            },
            None => {
                return ;
            },
        }
        let events = self.model.events_len(self.date);
        let tasks = self.model.tasks_len(self.date);
        self.selection = settle(self.selection, events, tasks);
    }

    /// Opens the help menu at its first line, or closes it.
    pub fn toggle_help(&mut self)
        requires
            old(self).wf(),
        ensures
            final(self).wf(),
            Self::toggled_help(old(self), final(self)),
    {
        self.help_menu = if self.help_menu.is_some() {
            None
        } else {
            Some(0)
        };
    }

    pub fn date(&self) -> (r: JulianDay)
        ensures
            r == self.day(),
    {
        self.date
    }

    pub fn selection(&self) -> (r: Option<Selection>)
        ensures
            r == self.sel(),
    {
        self.selection
    }

    /// The edit cursor, while editing.
    pub fn editing(&self) -> (r: Option<usize>)
        ensures
            r == self.cursor(),
    {
        self.editing
    }

    /// Key presses go to the title being edited.
    pub fn is_editing(&self) -> (r: bool)
        ensures
            r == (!self.faulted() && self.cursor() is Some),
    {
        self.model.err().is_ok() && self.editing.is_some()
    }

    /// The highlighted line of the help menu, while it is open.
    pub fn help_line(&self) -> (r: Option<usize>)
        ensures
            r == self.help(),
    {
        self.help_menu
    }

    /// The note shown on an empty day.
    pub fn background_message(&self) -> (r: &Option<String>)
        ensures
            *r == self.message(),
    {
        &self.bg_message
    }

    pub fn events_len(&self) -> (r: usize)
        ensures
            r == self.events_now().len(),
    {
        self.model.events_len(self.date)
    }

    pub fn tasks_len(&self) -> (r: usize)
        ensures
            r == self.tasks_now().len(),
    {
        self.model.tasks_len(self.date)
    }

    /// The events of the day shown, in order.
    pub fn events_iter(&self) -> (r: Vec<Event>)
        ensures
            r@ == self.events_now(),
    {
        self.model.events_iter(self.date)
    }

    /// The tasks of the day shown, in order.
    pub fn tasks_iter(&self) -> (r: Vec<Task>)
        ensures
            r@ == self.tasks_now(),
    {
        self.model.tasks_iter(self.date)
    }

    /// The store's latched fault, if any.
    pub fn err(&self) -> (r: Result<(), StoreFault>)
        ensures
            r is Err <==> self.faulted(),
    {
        self.model.err()
    }

}

} // verus!
