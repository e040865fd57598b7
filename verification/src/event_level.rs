//! Verbosity level carried by task activity.

use vstd::prelude::*;

use crate::text::same_text;

verus! {

/// Verbosity tier of a task activity event.
///
/// This is orthogonal to audience visibility: visibility controls who may
/// see an event, while level controls how verbose that event is.
/// Subscriptions can carry a minimum level and drop more verbose events
/// before transport.
#[derive(Debug, Clone, Copy, PartialEq, Eq, Structural, Hash)]
pub enum TaskEventLevel {
    /// The event reports a failure.
    Error,
    /// The event reports something suspicious but non-fatal.
    Warn,
    /// Normal narrative tier (default).
    Info,
    /// High-frequency diagnostic tier.
    Debug,
    /// Maximum-detail tier.
    Trace,
}

/// The error text for a label that names no level.
pub open spec fn unknown_level_text(label: Seq<char>) -> Seq<char> {
    "unknown task event level: "@ + label
}

impl TaskEventLevel {
    /// Position in the verbosity order, least verbose first.
    pub open spec fn rank(self) -> int {
        match self {
            TaskEventLevel::Error => 0,
            TaskEventLevel::Warn => 1,
            TaskEventLevel::Info => 2,
            TaskEventLevel::Debug => 3,
            TaskEventLevel::Trace => 4,
        }
    }

    pub open spec fn label(self) -> Seq<char> {
        match self {
            TaskEventLevel::Error => "error"@,
            TaskEventLevel::Warn => "warn"@,
            TaskEventLevel::Info => "info"@,
            TaskEventLevel::Debug => "debug"@,
            TaskEventLevel::Trace => "trace"@,
        }
    }

    pub open spec fn spec_visible_at(self, minimum: Self) -> bool {
        self.rank() <= minimum.rank()
    }

    /// Stable string form used in durable records and display flags.
    pub fn as_str(self) -> (r: &'static str)
        ensures
            r@ == self.label(),
    {
        match self {
            TaskEventLevel::Error => "error",
            TaskEventLevel::Warn => "warn",
            TaskEventLevel::Info => "info",
            TaskEventLevel::Debug => "debug",
            TaskEventLevel::Trace => "trace",
        }
    }

    /// The label as owned text (what `Display` prints).
    pub fn to_string(self) -> (r: String)
        ensures
            r@ == self.label(),
    {
        String::from_str(self.as_str())
    }

    /// Whether this level demands attention regardless of verbosity.
    pub fn is_at_least_warn(self) -> (r: bool)
        ensures
            r == (self is Error || self is Warn),
    {
        match self {
            TaskEventLevel::Error | TaskEventLevel::Warn => true,
            _ => false,
        }
    }

    /// Whether this event should be delivered at the requested verbosity.
    ///
    /// `Error` is always delivered; `Info` includes error, warning, and
    /// normal narrative events; `Trace` includes every level.
    pub fn visible_at(self, minimum: Self) -> (r: bool)
        ensures
            r == self.spec_visible_at(minimum),
    {
        self.verbosity_rank() <= minimum.verbosity_rank()
    }

    fn verbosity_rank(self) -> (r: u8)
        ensures
            r == self.rank(),
    {
        match self {
            TaskEventLevel::Error => 0,
            TaskEventLevel::Warn => 1,
            TaskEventLevel::Info => 2,
            TaskEventLevel::Debug => 3,
            TaskEventLevel::Trace => 4,
        }
    }

    /// Parse a level from its stable string form.
    pub fn parse(value: &str) -> (r: Result<Self, String>)
        ensures
            r matches Ok(l) ==> l.label() == value@,
            r is Err <==> (forall|l: TaskEventLevel| l.label() != value@),
            r matches Err(msg) ==> msg@ == unknown_level_text(value@),
    {
        let levels = [
            TaskEventLevel::Error,
            TaskEventLevel::Warn,
            TaskEventLevel::Info,
            TaskEventLevel::Debug,
            TaskEventLevel::Trace,
        ];
        let mut i: usize = 0;
        while i < 5
            invariant
                levels@ == seq![
                    TaskEventLevel::Error,
                    TaskEventLevel::Warn,
                    TaskEventLevel::Info,
                    TaskEventLevel::Debug,
                    TaskEventLevel::Trace,
                ],
                i <= 5,
                forall|j: int| 0 <= j < i ==> (#[trigger] levels@[j]).label() != value@,
            decreases 5 - i,
        {
            let level = levels[i];
            if same_text(level.as_str(), value) {
                return Ok(level);
            }
            i = i + 1;
        }
        assert forall|l: TaskEventLevel| l.label() != value@ by {
            assert(levels@[l.rank()] == l);
        }
        let mut msg = String::from_str("unknown task event level: ");
        msg.append(value);
        Err(msg)
    }
}

impl Default for TaskEventLevel {
    fn default() -> (r: Self)
        ensures
            r == TaskEventLevel::Info,
    {
        TaskEventLevel::Info
    }
}

impl core::str::FromStr for TaskEventLevel {
    type Err = String;

    fn from_str(value: &str) -> (r: Result<Self, Self::Err>)
        ensures
            r matches Ok(l) ==> l.label() == value@,
            r is Err <==> (forall|l: TaskEventLevel| l.label() != value@),
            r matches Err(msg) ==> msg@ == unknown_level_text(value@),
    {
        TaskEventLevel::parse(value)
    }
}

/// Visibility is a total preorder on levels: reflexive, transitive and
/// total, with `Error` delivered at every verbosity and every level
/// delivered at `Trace`.
pub proof fn lemma_visibility_order(a: TaskEventLevel, b: TaskEventLevel, c: TaskEventLevel)
    ensures
        a.spec_visible_at(a),
        a.spec_visible_at(b) && b.spec_visible_at(c) ==> a.spec_visible_at(c),
        a.spec_visible_at(b) || b.spec_visible_at(a),
        a.spec_visible_at(b) && b.spec_visible_at(a) ==> a == b,
        TaskEventLevel::Error.spec_visible_at(a),
        a.spec_visible_at(TaskEventLevel::Trace),
{
}

/// Each level is labelled by its lowercase name, from the least verbose
/// `error` through `warn`, `info` and `debug` to the most verbose `trace`;
/// the name is what `parse` reads back.
pub proof fn lemma_level_label_names(l: TaskEventLevel)
    ensures
        l is Error <==> l.label() == "error"@,
        l is Warn <==> l.label() == "warn"@,
        l is Info <==> l.label() == "info"@,
        l is Debug <==> l.label() == "debug"@,
        l is Trace <==> l.label() == "trace"@,
        l.label() == "error"@ <==> l.rank() == 0,
        l.label() == "debug"@ <==> l.rank() == 3,
        l.label() == "trace"@ <==> l.rank() == 4,
{
    reveal_strlit("error");
    reveal_strlit("warn");
    reveal_strlit("info");
    reveal_strlit("debug");
    reveal_strlit("trace");
    if l != TaskEventLevel::Error && l.label() == "error"@ {
        lemma_level_labels_distinct(l, TaskEventLevel::Error);
    }
    if l != TaskEventLevel::Warn && l.label() == "warn"@ {
        lemma_level_labels_distinct(l, TaskEventLevel::Warn);
    }
    if l != TaskEventLevel::Info && l.label() == "info"@ {
        lemma_level_labels_distinct(l, TaskEventLevel::Info);
    }
    if l != TaskEventLevel::Debug && l.label() == "debug"@ {
        lemma_level_labels_distinct(l, TaskEventLevel::Debug);
    }
    if l != TaskEventLevel::Trace && l.label() == "trace"@ {
        lemma_level_labels_distinct(l, TaskEventLevel::Trace);
    }
}

/// Level labels are distinct, so a label names at most one level.
pub proof fn lemma_level_labels_distinct(a: TaskEventLevel, b: TaskEventLevel)
    requires
        a != b,
    ensures
        a.label() != b.label(),
{
    reveal_strlit("error");
    reveal_strlit("warn");
    reveal_strlit("info");
    reveal_strlit("debug");
    reveal_strlit("trace");
    if a.label() == b.label() {
        assert(a.label().len() == b.label().len());
        assert(a.label()[0] == b.label()[0]);
    }
}

} // verus!
