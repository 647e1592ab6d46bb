use std::collections::HashMap;
use vstd::prelude::*;

use crate::item::{Event, Task};
use crate::store::{Model, StoreError, StoreFault};
use crate::JulianDay;

verus! {

broadcast use vstd::std_specs::hash::group_hash_axioms;

/// The two lists of one day.
pub struct Entry {
    pub events: Vec<Event>,
    pub tasks: Vec<Task>,
}

impl Entry {
    /// A day with no events and no tasks.
    pub fn new() -> (r: Self)
        ensures
            r.events@.len() == 0,
            r.tasks@.len() == 0,
    {
        Entry { events: Vec::new(), tasks: Vec::new() }
    }
}

/// The volatile store: a map from day to that day's two lists.
pub struct MemModel {
    days: HashMap<JulianDay, Entry>,
}

impl MemModel {
    /// A store that holds nothing.
    pub fn new() -> (r: Self)
        ensures
            !r.faulted(),
            forall|d: JulianDay| #[trigger] r.events(d).len() == 0,
            forall|d: JulianDay| #[trigger] r.tasks(d).len() == 0,
    {
        MemModel { days: HashMap::new() }
    }

    /// Adds `event` after the last event of `date`.
    pub fn push_event(&mut self, date: JulianDay, event: Event)
        ensures
            final(self).events(date) == old(self).events(date).push(event),
            final(self).tasks(date) == old(self).tasks(date),
            forall|d: JulianDay| d != date ==> #[trigger] final(self).events(d) == old(self).events(d),
            forall|d: JulianDay| d != date ==> #[trigger] final(self).tasks(d) == old(self).tasks(d),
    {
        let mut entry = self.take_entry(date);
        entry.events.push(event);
        self.put_entry(date, entry);
    }

    /// Adds `task` after the last task of `date`.
    pub fn push_task(&mut self, date: JulianDay, task: Task)
        ensures
            final(self).tasks(date) == old(self).tasks(date).push(task),
            final(self).events(date) == old(self).events(date),
            forall|d: JulianDay| d != date ==> #[trigger] final(self).events(d) == old(self).events(d),
            forall|d: JulianDay| d != date ==> #[trigger] final(self).tasks(d) == old(self).tasks(d),
    {
        let mut entry = self.take_entry(date);
        entry.tasks.push(task);
        self.put_entry(date, entry);
    }

    /// Takes the entry of `date` out of the map, or makes an empty one.
    fn take_entry(&mut self, date: JulianDay) -> (r: Entry)
        ensures
            final(self).days@ == old(self).days@.remove(date),
            r.events@ == old(self).events(date),
            r.tasks@ == old(self).tasks(date),
    {
        match self.days.remove(&date) {
            Some(e) => e,
            None => Entry::new(),
        }
    }

    /// Puts `entry` back as the entry of `date`.
    fn put_entry(&mut self, date: JulianDay, entry: Entry)
        ensures
            final(self).days@ == old(self).days@.insert(date, entry),
    {
        self.days.insert(date, entry);
    }
}

impl Model for MemModel {
    closed spec fn events(&self, date: JulianDay) -> Seq<Event> {
        if self.days@.contains_key(date) {
            self.days@[date].events@
        } else {
            Seq::empty()
        }
    }

    closed spec fn tasks(&self, date: JulianDay) -> Seq<Task> {
        if self.days@.contains_key(date) {
            self.days@[date].tasks@
        } else {
            Seq::empty()
        }
    }

    open spec fn faulted(&self) -> bool {
        false
    }

    proof fn lemma_fault_empties(&self, date: JulianDay) {
    }

    fn new_event(&mut self, date: JulianDay, index: usize) -> (r: Result<(), StoreError>) {
        let mut entry = self.take_entry(date);
        let r = if index <= entry.events.len() {
            entry.events.insert(index, Event::new());
            proof {
                assert(entry.events@.remove(index as int) =~= old(self).events(date));
            }
            Ok(())
        } else {
            Err(StoreError::IndexOutOfBounds)
        };
        self.put_entry(date, entry);
        r
    }

    fn new_task(&mut self, date: JulianDay, index: usize) -> (r: Result<(), StoreError>) {
        let mut entry = self.take_entry(date);
        let r = if index <= entry.tasks.len() {
            entry.tasks.insert(index, Task::new());
            proof {
                assert(entry.tasks@.remove(index as int) =~= old(self).tasks(date));
            }
            Ok(())
        } else {
            Err(StoreError::IndexOutOfBounds)
        };
        self.put_entry(date, entry);
        r
    }

    fn delete_event(&mut self, date: JulianDay, index: usize) -> (r: Result<(), StoreError>) {
        let mut entry = self.take_entry(date);
        let r = if index < entry.events.len() {
            entry.events.remove(index);
            Ok(())
        } else {
            Err(StoreError::IndexOutOfBounds)
        };
        self.put_entry(date, entry);
        r
    }

    fn delete_task(&mut self, date: JulianDay, index: usize) -> (r: Result<(), StoreError>) {
        let mut entry = self.take_entry(date);
        let r = if index < entry.tasks.len() {
            entry.tasks.remove(index);
            Ok(())
        } else {
            Err(StoreError::IndexOutOfBounds)
        };
        self.put_entry(date, entry);
        r
    }

    fn get_event(&self, date: JulianDay, index: usize) -> (r: Result<Event, StoreError>) {
        match self.days.get(&date) {
            Some(entry) => {
                if index < entry.events.len() {
                    Ok(entry.events[index].clone())
                } else {
                    Err(StoreError::IndexOutOfBounds)
                }
            },
            None => Err(StoreError::IndexOutOfBounds),
        }
    }

    fn get_task(&self, date: JulianDay, index: usize) -> (r: Result<Task, StoreError>) {
        match self.days.get(&date) {
            Some(entry) => {
                if index < entry.tasks.len() {
                    Ok(entry.tasks[index].clone())
                } else {
                    Err(StoreError::IndexOutOfBounds)
                }
            },
            None => Err(StoreError::IndexOutOfBounds),
        }
    }

    fn replace_event(&mut self, date: JulianDay, index: usize, event: Event) -> (r: Result<
        (),
        StoreError,
    >) {
        let mut entry = self.take_entry(date);
        let r = if index < entry.events.len() {
            entry.events.set(index, event);
            Ok(())
        } else {
            Err(StoreError::IndexOutOfBounds)
        };
        self.put_entry(date, entry);
        r
    }

    fn replace_task(&mut self, date: JulianDay, index: usize, task: Task) -> (r: Result<
        (),
        StoreError,
    >) {
        let mut entry = self.take_entry(date);
        let r = if index < entry.tasks.len() {
            entry.tasks.set(index, task);
            Ok(())
        } else {
            Err(StoreError::IndexOutOfBounds)
        };
        self.put_entry(date, entry);
        r
    }

    fn events_len(&self, date: JulianDay) -> (r: usize) {
        match self.days.get(&date) {
            Some(entry) => entry.events.len(),
            None => 0,
        }
    }

    fn tasks_len(&self, date: JulianDay) -> (r: usize) {
        match self.days.get(&date) {
            Some(entry) => entry.tasks.len(),
            None => 0,
        }
    }

    fn events_iter(&self, date: JulianDay) -> (r: Vec<Event>) {
        let mut out: Vec<Event> = Vec::new();
        match self.days.get(&date) {
            Some(entry) => {
                let mut i: usize = 0;
                while i < entry.events.len()
                    invariant
                        i <= entry.events@.len(),
                        out@ == entry.events@.subrange(0, i as int),
                    decreases entry.events@.len() - i,
                {
                    out.push(entry.events[i].clone());
                    proof {
                        assert(out@ =~= entry.events@.subrange(0, i + 1));
                    }
                    i = i + 1;
                }
                proof {
                    assert(out@ =~= entry.events@);
                }
            },
            None => {
                proof {
                    assert(out@ =~= Seq::<Event>::empty());
                }
            },
        }
        out
    }

    fn tasks_iter(&self, date: JulianDay) -> (r: Vec<Task>) {
        let mut out: Vec<Task> = Vec::new();
        match self.days.get(&date) {
            Some(entry) => {
                let mut i: usize = 0;
                while i < entry.tasks.len()
                    invariant
                        i <= entry.tasks@.len(),
                        out@ == entry.tasks@.subrange(0, i as int),
                    decreases entry.tasks@.len() - i,
                {
                    out.push(entry.tasks[i].clone());
                    proof {
                        assert(out@ =~= entry.tasks@.subrange(0, i + 1));
                    }
                    i = i + 1;
                }
                proof {
                    assert(out@ =~= entry.tasks@);
                }
            },
            None => {
                proof {
                    assert(out@ =~= Seq::<Task>::empty());
                }
            },
        }
        out
    }

    fn err(&self) -> (r: Result<(), StoreFault>) {
        Ok(())
    }
}

} // verus!
