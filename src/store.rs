use vstd::prelude::*;

use crate::item::{Event, Task};
use crate::JulianDay;

verus! {

/// An index outside the range that an operation accepts.
#[derive(Debug, Clone, Copy, PartialEq, Eq, Structural)]
pub enum StoreError {
    IndexOutOfBounds,
}

/// The latched fault of a backend whose storage can no longer be trusted.
#[derive(Debug, Clone, Copy, PartialEq, Eq, Structural)]
pub struct StoreFault;

/// The text shown to the user once the fault is latched.
pub const FAULT_MESSAGE: &'static str = "The database has encountered an unrecoverable error. This can occur when the database is deleted or the permissions are changed while this program is running. You must quit the app now.";

impl StoreFault {
    pub fn message(&self) -> (r: String)
        ensures
            r@ == FAULT_MESSAGE@,
    {
        String::from_str(FAULT_MESSAGE)
    }
}

/// `new` is `old` with one blank event put in at `index`.
pub open spec fn blank_event_at(new: Seq<Event>, old: Seq<Event>, index: int) -> bool {
    &&& 0 <= index < new.len()
    &&& new[index].is_blank()
    &&& new.remove(index) == old
}

/// `new` is `old` with one blank task put in at `index`.
pub open spec fn blank_task_at(new: Seq<Task>, old: Seq<Task>, index: int) -> bool {
    &&& 0 <= index < new.len()
    &&& new[index].is_blank()
    &&& new.remove(index) == old
}

/// A store of two dense, index-addressed lists per calendar day.
///
/// `events(d)` and `tasks(d)` are what the store holds for day `d` (empty
/// for a day it never saw); once `faulted()` the store reports every list as
/// empty and writes no more.
pub trait Model: Sized {
    spec fn events(&self, date: JulianDay) -> Seq<Event>;

    spec fn tasks(&self, date: JulianDay) -> Seq<Task>;

    spec fn faulted(&self) -> bool;

    proof fn lemma_fault_empties(&self, date: JulianDay)
        requires
            self.faulted(),
        ensures
            self.events(date).len() == 0,
            self.tasks(date).len() == 0,
    ;

    /// Puts a blank event in at `index`, moving later ones up by one.
    fn new_event(&mut self, date: JulianDay, index: usize) -> (r: Result<(), StoreError>)
        ensures
            r is Ok <==> index <= old(self).events(date).len(),
            r is Ok && !final(self).faulted() ==> blank_event_at(
                final(self).events(date),
                old(self).events(date),
                index as int,
            ),
            r is Err ==> final(self).faulted() == old(self).faulted(),
            r is Err ==> forall|d: JulianDay| #[trigger] final(self).events(d) == old(self).events(d),
            r is Err ==> forall|d: JulianDay| #[trigger] final(self).tasks(d) == old(self).tasks(d),
            old(self).faulted() ==> final(self).faulted(),
            r is Err ==> final(self).events(date) == old(self).events(date),
            !final(self).faulted() ==> final(self).tasks(date) == old(self).tasks(date),
            !final(self).faulted() ==> forall|d: JulianDay|
                d != date ==> #[trigger] final(self).events(d) == old(self).events(d),
            !final(self).faulted() ==> forall|d: JulianDay|
                d != date ==> #[trigger] final(self).tasks(d) == old(self).tasks(d),
    ;

    /// Puts a blank task in at `index`, moving later ones up by one.
    fn new_task(&mut self, date: JulianDay, index: usize) -> (r: Result<(), StoreError>)
        ensures
            r is Ok <==> index <= old(self).tasks(date).len(),
            r is Ok && !final(self).faulted() ==> blank_task_at(
                final(self).tasks(date),
                old(self).tasks(date),
                index as int,
            ),
            r is Err ==> final(self).faulted() == old(self).faulted(),
            r is Err ==> forall|d: JulianDay| #[trigger] final(self).events(d) == old(self).events(d),
            r is Err ==> forall|d: JulianDay| #[trigger] final(self).tasks(d) == old(self).tasks(d),
            old(self).faulted() ==> final(self).faulted(),
            !final(self).faulted() ==> final(self).events(date) == old(self).events(date),
            r is Err ==> final(self).tasks(date) == old(self).tasks(date),
            !final(self).faulted() ==> forall|d: JulianDay|
                d != date ==> #[trigger] final(self).events(d) == old(self).events(d),
            !final(self).faulted() ==> forall|d: JulianDay|
                d != date ==> #[trigger] final(self).tasks(d) == old(self).tasks(d),
    ;

    /// Takes out the event at `index`, moving later ones down by one.
    fn delete_event(&mut self, date: JulianDay, index: usize) -> (r: Result<(), StoreError>)
        ensures
            r is Ok <==> index < old(self).events(date).len(),
            r is Err ==> final(self).faulted() == old(self).faulted(),
            r is Err ==> forall|d: JulianDay| #[trigger] final(self).events(d) == old(self).events(d),
            r is Err ==> forall|d: JulianDay| #[trigger] final(self).tasks(d) == old(self).tasks(d),
            old(self).faulted() ==> final(self).faulted(),
            !final(self).faulted() ==> final(self).events(date) == if r is Ok {
                old(self).events(date).remove(index as int)
            } else {
                old(self).events(date)
            },
            !final(self).faulted() ==> final(self).tasks(date) == old(self).tasks(date),
            !final(self).faulted() ==> forall|d: JulianDay|
                d != date ==> #[trigger] final(self).events(d) == old(self).events(d),
            !final(self).faulted() ==> forall|d: JulianDay|
                d != date ==> #[trigger] final(self).tasks(d) == old(self).tasks(d),
    ;

    /// Takes out the task at `index`, moving later ones down by one.
    fn delete_task(&mut self, date: JulianDay, index: usize) -> (r: Result<(), StoreError>)
        ensures
            r is Ok <==> index < old(self).tasks(date).len(),
            r is Err ==> final(self).faulted() == old(self).faulted(),
            r is Err ==> forall|d: JulianDay| #[trigger] final(self).events(d) == old(self).events(d),
            r is Err ==> forall|d: JulianDay| #[trigger] final(self).tasks(d) == old(self).tasks(d),
            old(self).faulted() ==> final(self).faulted(),
            !final(self).faulted() ==> final(self).events(date) == old(self).events(date),
            !final(self).faulted() ==> final(self).tasks(date) == if r is Ok {
                old(self).tasks(date).remove(index as int)
            } else {
                old(self).tasks(date)
            },
            !final(self).faulted() ==> forall|d: JulianDay|
                d != date ==> #[trigger] final(self).events(d) == old(self).events(d),
            !final(self).faulted() ==> forall|d: JulianDay|
                d != date ==> #[trigger] final(self).tasks(d) == old(self).tasks(d),
    ;

    /// A copy of the event at `index`.
    fn get_event(&self, date: JulianDay, index: usize) -> (r: Result<Event, StoreError>)
        ensures
            r is Ok <==> index < self.events(date).len(),
            r matches Ok(e) ==> e == self.events(date)[index as int],
    ;

    /// A copy of the task at `index`.
    fn get_task(&self, date: JulianDay, index: usize) -> (r: Result<Task, StoreError>)
        ensures
            r is Ok <==> index < self.tasks(date).len(),
            r matches Ok(t) ==> t == self.tasks(date)[index as int],
    ;

    /// Overwrites the event at `index`.
    fn replace_event(&mut self, date: JulianDay, index: usize, event: Event) -> (r: Result<
        (),
        StoreError,
    >)
        ensures
            r is Ok <==> index < old(self).events(date).len(),
            r is Err ==> final(self).faulted() == old(self).faulted(),
            r is Err ==> forall|d: JulianDay| #[trigger] final(self).events(d) == old(self).events(d),
            r is Err ==> forall|d: JulianDay| #[trigger] final(self).tasks(d) == old(self).tasks(d),
            old(self).faulted() ==> final(self).faulted(),
            !final(self).faulted() ==> final(self).events(date) == if r is Ok {
                old(self).events(date).update(index as int, event)
            } else {
                old(self).events(date)
            },
            !final(self).faulted() ==> final(self).tasks(date) == old(self).tasks(date),
            !final(self).faulted() ==> forall|d: JulianDay|
                d != date ==> #[trigger] final(self).events(d) == old(self).events(d),
            !final(self).faulted() ==> forall|d: JulianDay|
                d != date ==> #[trigger] final(self).tasks(d) == old(self).tasks(d),
    ;

    /// Overwrites the task at `index`.
    fn replace_task(&mut self, date: JulianDay, index: usize, task: Task) -> (r: Result<
        (),
        StoreError,
    >)
        ensures
            r is Ok <==> index < old(self).tasks(date).len(),
            r is Err ==> final(self).faulted() == old(self).faulted(),
            r is Err ==> forall|d: JulianDay| #[trigger] final(self).events(d) == old(self).events(d),
            r is Err ==> forall|d: JulianDay| #[trigger] final(self).tasks(d) == old(self).tasks(d),
            old(self).faulted() ==> final(self).faulted(),
            !final(self).faulted() ==> final(self).events(date) == old(self).events(date),
            !final(self).faulted() ==> final(self).tasks(date) == if r is Ok {
                old(self).tasks(date).update(index as int, task)
            } else {
                old(self).tasks(date)
            },
            !final(self).faulted() ==> forall|d: JulianDay|
                d != date ==> #[trigger] final(self).events(d) == old(self).events(d),
            !final(self).faulted() ==> forall|d: JulianDay|
                d != date ==> #[trigger] final(self).tasks(d) == old(self).tasks(d),
    ;

    fn events_len(&self, date: JulianDay) -> (r: usize)
        ensures
            r == self.events(date).len(),
    ;

    fn tasks_len(&self, date: JulianDay) -> (r: usize)
        ensures
            r == self.tasks(date).len(),
    ;

    /// The events of `date`, in index order.
    fn events_iter(&self, date: JulianDay) -> (r: Vec<Event>)
        ensures
            r@ == self.events(date),
    ;

    /// The tasks of `date`, in index order.
    fn tasks_iter(&self, date: JulianDay) -> (r: Vec<Task>)
        ensures
            r@ == self.tasks(date),
    ;

    /// `Err` once a fault is latched.
    fn err(&self) -> (r: Result<(), StoreFault>)
        ensures
            r is Err <==> self.faulted(),
    ;
}

} // verus!
