use vstd::prelude::*;

verus! {

/// How much an event matters.
#[derive(Debug, Clone, Copy, PartialEq, Eq, Structural, Hash)]
pub enum Importance {
    Normal,
    High,
}

/// How far a task has come.
#[derive(Debug, Clone, Copy, PartialEq, Eq, Structural, Hash)]
pub enum CompletionLevel {
    NotStarted,
    Partial,
    Full,
}

impl Importance {
    pub open spec fn next(self) -> Importance {
        match self {
            Importance::Normal => Importance::High,
            Importance::High => Importance::Normal,
        }
    }

    /// The integer stored for this importance in the durable layout.
    pub open spec fn code_of(self) -> i32 {
        match self {
            Importance::Normal => 0,
            Importance::High => 1,
        }
    }

    pub open spec fn from_code_spec(code: i32) -> Option<Importance> {
        if code == 0 {
            Some(Importance::Normal)
        } else if code == 1 {
            Some(Importance::High)
        } else {
            None
        }
    }

    /// `Normal` and `High` swap.
    pub fn cycle(self) -> (r: Self)
        ensures
            r == self.next(),
    {
        match self {
            Importance::High => Importance::Normal,
            Importance::Normal => Importance::High,
        }
    }

    pub fn code(self) -> (r: i32)
        ensures
            r == self.code_of(),
    {
        match self {
            Importance::Normal => 0,
            Importance::High => 1,
        }
    }

    /// The importance stored as `code`; `None` for a value outside the enum.
    pub fn from_code(code: i32) -> (r: Option<Importance>)
        ensures
            r == Importance::from_code_spec(code),
    {
        if code == 0 {
            Some(Importance::Normal)
        } else if code == 1 {
            Some(Importance::High)
        } else {
            None
        }
    }
}

impl Default for Importance {
    fn default() -> (r: Self)
        ensures
            r == Importance::Normal,
    {
        Importance::Normal
    }
}

impl CompletionLevel {
    pub open spec fn next(self) -> CompletionLevel {
        match self {
            CompletionLevel::NotStarted => CompletionLevel::Partial,
            CompletionLevel::Partial => CompletionLevel::Full,
            CompletionLevel::Full => CompletionLevel::NotStarted,
        }
    }

    /// The integer stored for this level in the durable layout.
    pub open spec fn code_of(self) -> i32 {
        match self {
            CompletionLevel::NotStarted => 0,
            CompletionLevel::Partial => 1,
            CompletionLevel::Full => 2,
        }
    }

    pub open spec fn from_code_spec(code: i32) -> Option<CompletionLevel> {
        if code == 0 {
            Some(CompletionLevel::NotStarted)
        } else if code == 1 {
            Some(CompletionLevel::Partial)
        } else if code == 2 {
            Some(CompletionLevel::Full)
        } else {
            None
        }
    }

    /// `NotStarted` to `Partial` to `Full` and round again.
    pub fn cycle(self) -> (r: Self)
        ensures
            r == self.next(),
    {
        match self {
            CompletionLevel::NotStarted => CompletionLevel::Partial,
            CompletionLevel::Partial => CompletionLevel::Full,
            CompletionLevel::Full => CompletionLevel::NotStarted,
        }
    }

    pub fn code(self) -> (r: i32)
        ensures
            r == self.code_of(),
    {
        match self {
            CompletionLevel::NotStarted => 0,
            CompletionLevel::Partial => 1,
            CompletionLevel::Full => 2,
        }
    }

    /// The level stored as `code`; `None` for a value outside the enum.
    pub fn from_code(code: i32) -> (r: Option<CompletionLevel>)
        ensures
            r == CompletionLevel::from_code_spec(code),
    {
        if code == 0 {
            Some(CompletionLevel::NotStarted)
        } else if code == 1 {
            Some(CompletionLevel::Partial)
        } else if code == 2 {
            Some(CompletionLevel::Full)
        } else {
            None
        }
    }
}

impl Default for CompletionLevel {
    fn default() -> (r: Self)
        ensures
            r == CompletionLevel::NotStarted,
    {
        CompletionLevel::NotStarted
    }
}

/// A timestamped note of the journal.
#[derive(Debug, PartialEq, Eq, Hash)]
pub struct Event {
    pub title: String,
    pub importance: Importance,
}

/// A to-do item of the journal.
#[derive(Debug, PartialEq, Eq, Hash)]
pub struct Task {
    pub title: String,
    pub completion_level: CompletionLevel,
}

impl Event {
    pub open spec fn is_blank(self) -> bool {
        self.title@.len() == 0 && self.importance == Importance::Normal
    }

    /// An event with an empty title and normal importance.
    pub fn new() -> (r: Self)
        ensures
            r.is_blank(),
    {
        Event { title: String::new(), importance: Importance::Normal }
    }

    /// The same event with its importance advanced.
    pub fn cycle(self) -> (r: Self)
        ensures
            r.title == self.title,
            r.importance == self.importance.next(),
    {
        Event { title: self.title, importance: self.importance.cycle() }
    }
}

impl Task {
    pub open spec fn is_blank(self) -> bool {
        self.title@.len() == 0 && self.completion_level == CompletionLevel::NotStarted
    }

    /// A task with an empty title, not begun.
    pub fn new() -> (r: Self)
        ensures
            r.is_blank(),
    {
        Task { title: String::new(), completion_level: CompletionLevel::NotStarted }
    }

    /// The same task with its completion level advanced.
    pub fn cycle(self) -> (r: Self)
        ensures
            r.title == self.title,
            r.completion_level == self.completion_level.next(),
    {
        Task { title: self.title, completion_level: self.completion_level.cycle() }
    }
}

impl Clone for Event {
    fn clone(&self) -> (r: Self)
        ensures
            r == *self,
    {
        Event { title: self.title.clone(), importance: self.importance }
    }
}

impl Clone for Task {
    fn clone(&self) -> (r: Self)
        ensures
            r == *self,
    {
        Task { title: self.title.clone(), completion_level: self.completion_level }
    }
}

impl Default for Event {
    fn default() -> (r: Self)
        ensures
            r.is_blank(),
    {
        Event::new()
    }
}

impl Default for Task {
    fn default() -> (r: Self)
        ensures
            r.is_blank(),
    {
        Task::new()
    }
}

} // verus!
