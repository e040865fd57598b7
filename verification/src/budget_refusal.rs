//! Why a budget could not authorize what was asked of it.

use vstd::prelude::*;

use crate::terminal_cause::BudgetResource;
use crate::text::{decimal, decimal_text};

verus! {

/// A budget refused a reservation, a release, or a composed amount.
///
/// Both variants name the resource, so a refusal can be attributed and
/// settled without re-deriving which envelope it came from.
#[derive(Debug, Clone, Copy, PartialEq, Eq, Structural, Hash)]
pub enum BudgetRefusal {
    /// More was asked than the budget holds.
    Exceeded {
        /// The resource whose budget was exceeded.
        resource: BudgetResource,
        /// What was asked.
        required: u64,
        /// What the budget had left.
        available: u64,
    },
    /// A composed amount cannot be represented.
    Overflow {
        /// The resource whose amount overflowed.
        resource: BudgetResource,
    },
}

/// The message a refusal displays.
pub open spec fn refusal_text(r: BudgetRefusal) -> Seq<char> {
    match r {
        BudgetRefusal::Exceeded { resource, required, available } => resource.label()
            + " budget exceeded: required "@ + decimal(required as nat) + ", available "@
            + decimal(available as nat),
        BudgetRefusal::Overflow { resource } => resource.label()
            + " amount overflowed while composing"@,
    }
}

impl BudgetRefusal {
    /// The message (what `Display` prints).
    pub fn to_string(&self) -> (r: String)
        ensures
            r@ == refusal_text(*self),
    {
        match *self {
            BudgetRefusal::Exceeded { resource, required, available } => {
                let mut s = resource.to_string();
                s.append(" budget exceeded: required ");
                s.append(decimal_text(required).as_str());
                s.append(", available ");
                s.append(decimal_text(available).as_str());
                s
            },
            BudgetRefusal::Overflow { resource } => {
                let mut s = resource.to_string();
                s.append(" amount overflowed while composing");
                s
            },
        }
    }
}

} // verus!
