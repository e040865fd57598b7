//! The application-supplied URN scheme for task identities.

use vstd::prelude::*;

use crate::text::same_text;

verus! {

/// The URN namespace an application mints its task identities under.
///
/// This crate mints no namespace of its own: every task and task-tree
/// identity is parameterized by a scheme the application defines once, so
/// identities from different systems can never be confused and no third
/// party can mint another application's URNs by accident.
///
/// Both prefixes must be non-empty, ASCII graphic, end in `:` and differ
/// from each other (`valid_scheme`); the identity constructors demand it.
pub trait UrnScheme: Copy + Clone + PartialEq + Eq + core::hash::Hash + PartialOrd + Ord + core::fmt::Debug + 'static {
    /// The prefix of a task URN, e.g. `urn:example:task:`.
    const TASK_PREFIX: &'static str;

    /// The prefix of a task-tree URN, e.g. `urn:example:task-tree:`.
    const TREE_PREFIX: &'static str;
}

/// An ASCII graphic character: `!` through `~`.
pub open spec fn is_ascii_graphic(c: char) -> bool {
    '!' <= c && c <= '~'
}

/// A usable URN prefix: non-empty, ASCII graphic, ending with `:`.
pub open spec fn valid_urn_prefix(p: Seq<char>) -> bool {
    &&& p.len() > 0
    &&& p.last() == ':'
    &&& forall|i: int| 0 <= i < p.len() ==> is_ascii_graphic(#[trigger] p[i])
}

/// A usable pair of prefixes: each valid, and distinct from each other.
pub open spec fn valid_scheme_prefixes(task: Seq<char>, tree: Seq<char>) -> bool {
    valid_urn_prefix(task) && valid_urn_prefix(tree) && task != tree
}

/// The scheme `S` has usable prefixes.
pub open spec fn valid_scheme<S: UrnScheme>() -> bool {
    valid_scheme_prefixes(S::TASK_PREFIX@, S::TREE_PREFIX@)
}

/// Whether `prefix` is usable as a URN prefix.
pub fn validate_prefix(prefix: &str) -> (r: bool)
    ensures
        r == valid_urn_prefix(prefix@),
{
    let n = prefix.unicode_len();
    if n == 0 || prefix.get_char(n - 1) != ':' {
        return false;
    }
    let mut i: usize = 0;
    while i < n
        invariant
            n == prefix@.len(),
            i <= n,
            forall|j: int| 0 <= j < i ==> is_ascii_graphic(#[trigger] prefix@[j]),
        decreases n - i,
    {
        let c = prefix.get_char(i);
        if !('!' <= c && c <= '~') {
            return false;
        }
        i = i + 1;
    }
    true
}

/// Whether `task` and `tree` form a usable pair of prefixes.
pub fn validate_prefixes(task: &str, tree: &str) -> (r: bool)
    ensures
        r == valid_scheme_prefixes(task@, tree@),
{
    validate_prefix(task) && validate_prefix(tree) && !same_text(task, tree)
}

/// Whether the scheme `S` has usable prefixes.
pub fn scheme_is_valid<S: UrnScheme>() -> (r: bool)
    ensures
        r == valid_scheme::<S>(),
{
    validate_prefixes(S::TASK_PREFIX, S::TREE_PREFIX)
}

} // verus!
