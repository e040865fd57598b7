//! A single typed task-progress observation.

use vstd::prelude::*;

use crate::event_level::TaskEventLevel;

verus! {

/// A single progress observation for a task.
///
/// Bundles counters with the optional step label that produced them, so one
/// progress emission stays one event rather than duplicating its label as a
/// separate step record.
#[derive(Debug, Clone, PartialEq, Eq)]
pub struct TaskProgressUpdate {
    processed: u64,
    total: Option<u64>,
    level: TaskEventLevel,
    label: Option<String>,
}

/// The abstract value of an update: `(processed, total, level, label)`.
pub type UpdateView = (u64, Option<u64>, TaskEventLevel, Option<Seq<char>>);

pub open spec fn label_view(label: Option<String>) -> Option<Seq<char>> {
    match label {
        Some(s) => Some(s@),
        None => None,
    }
}

impl View for TaskProgressUpdate {
    type V = UpdateView;

    closed spec fn view(&self) -> UpdateView {
        (self.processed, self.total, self.level, label_view(self.label))
    }
}

impl TaskProgressUpdate {
    /// Create a bare observation with no total or label at the default
    /// level.
    pub fn new(processed: u64) -> (r: Self)
        ensures
            r@ == (processed, None::<u64>, TaskEventLevel::Info, None::<Seq<char>>),
    {
        TaskProgressUpdate { processed, total: None, level: TaskEventLevel::default(), label: None }
    }

    /// Attach the total, when the producing stage knows one.
    pub fn with_total(self, total: Option<u64>) -> (r: Self)
        ensures
            r@ == (self@.0, total, self@.2, self@.3),
    {
        let mut next = self;
        next.total = total;
        next
    }

    /// Set the verbosity tier of the producing call site.
    pub fn with_level(self, level: TaskEventLevel) -> (r: Self)
        ensures
            r@ == (self@.0, self@.1, level, self@.3),
    {
        let mut next = self;
        next.level = level;
        next
    }

    /// Attach the step label describing the counted work.
    pub fn with_label(self, label: Option<String>) -> (r: Self)
        ensures
            r@ == (self@.0, self@.1, self@.2, label_view(label)),
    {
        let mut next = self;
        next.label = label;
        next
    }

    /// Items processed so far.
    pub fn processed(&self) -> (r: u64)
        ensures
            r == self@.0,
    {
        self.processed
    }

    /// Total items, when known.
    pub fn total(&self) -> (r: Option<u64>)
        ensures
            r == self@.1,
    {
        self.total
    }

    /// Verbosity tier of the producing call site.
    pub fn level(&self) -> (r: TaskEventLevel)
        ensures
            r == self@.2,
    {
        self.level
    }

    /// Step label describing the counted work.
    pub fn label(&self) -> (r: Option<&str>)
        ensures
            r is Some == self@.3 is Some,
            r matches Some(s) ==> self@.3 == Some(s@),
    {
        match &self.label {
            Some(s) => Some(s.as_str()),
            None => None,
        }
    }

    /// Consume the update, yielding its label.
    pub fn into_label(self) -> (r: Option<String>)
        ensures
            label_view(r) == self@.3,
    {
        self.label
    }
}

} // verus!
