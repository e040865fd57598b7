//! One task's token ceiling and the shares it has handed to delegated
//! children.
//!
//! A child that runs inside the parent's own process **attenuates**: it
//! sees everything the parent has left and the parent's pool is untouched.
//! A child that runs elsewhere **reserves**: the parent carves a share out
//! of its pool for it. Shares compose by checked sum, so siblings running in
//! parallel split the pool rather than each claiming all of it.

use vstd::prelude::*;

use crate::budget_refusal::BudgetRefusal;
use crate::terminal_cause::BudgetResource;
use crate::text::{decimal, decimal_text};
use crate::tokens::Tokens;

verus! {

/// The abstract value of a token budget: `(ceiling, reserved)`.
pub type BudgetView = (u64, u64);

/// A budget whose reserved shares fit under its ceiling.
pub open spec fn budget_ok(b: BudgetView) -> bool {
    b.1 <= b.0
}

/// What is left to hand out.
pub open spec fn budget_remaining(b: BudgetView) -> u64 {
    (b.0 - b.1) as u64
}

/// A fresh budget: the ceiling, nothing reserved.
pub open spec fn fresh_budget(ceiling: u64) -> BudgetView {
    (ceiling, 0)
}

/// Carving `share` out of `b`: the parent with the share reserved and the
/// child's budget of exactly that share, or the refusal when it does not fit.
pub open spec fn budget_reserve(b: BudgetView, share: u64) -> Result<(BudgetView, BudgetView), BudgetRefusal> {
    if b.1 + share > b.0 {
        Err(
            BudgetRefusal::Exceeded {
                resource: BudgetResource::Tokens,
                required: share,
                available: budget_remaining(b),
            },
        )
    } else {
        Ok(((b.0, (b.1 + share) as u64), fresh_budget(share)))
    }
}

/// Handing `share` back to `b`, or the refusal when more is handed back than
/// is reserved.
pub open spec fn budget_release(b: BudgetView, share: u64) -> Result<BudgetView, BudgetRefusal> {
    if share > b.1 {
        Err(
            BudgetRefusal::Exceeded {
                resource: BudgetResource::Tokens,
                required: share,
                available: b.1,
            },
        )
    } else {
        Ok((b.0, (b.1 - share) as u64))
    }
}

/// An immutable token ceiling for one task's whole subtree, with the running
/// sum of shares reserved by delegated children.
///
/// `reserved` never exceeds `ceiling`; the type refuses to construct a value
/// where it would.
#[derive(Debug, Clone, Copy, PartialEq, Eq, Structural, Hash)]
pub struct TokenBudget {
    ceiling: Tokens,
    reserved: Tokens,
}

impl View for TokenBudget {
    type V = BudgetView;

    closed spec fn view(&self) -> BudgetView {
        (self.ceiling@, self.reserved@)
    }
}

impl TokenBudget {
    #[verifier::type_invariant]
    spec fn well_formed(self) -> bool {
        budget_ok(self@)
    }

    fn from_view(ceiling: u64, reserved: u64) -> (r: Self)
        requires
            reserved <= ceiling,
        ensures
            r@ == (ceiling, reserved),
    {
        TokenBudget { ceiling: Tokens::new(ceiling), reserved: Tokens::new(reserved) }
    }

    /// A fresh budget of `ceiling` tokens with nothing reserved. Zero is a
    /// valid ceiling: zero-priced work is budgeted at zero, not unbudgeted.
    pub fn new(ceiling: Tokens) -> (r: Self)
        ensures
            r@ == fresh_budget(ceiling@),
    {
        Self::from_view(ceiling.get(), 0)
    }

    /// Rebuild a budget from its parts, refusing a reservation above the
    /// ceiling.
    pub fn try_from_parts(ceiling: Tokens, reserved: Tokens) -> (r: Result<Self, BudgetRefusal>)
        ensures
            reserved@ <= ceiling@ ==> (r matches Ok(b) && b@ == (ceiling@, reserved@)),
            reserved@ > ceiling@ ==> r == Err::<Self, BudgetRefusal>(
                BudgetRefusal::Exceeded {
                    resource: BudgetResource::Tokens,
                    required: reserved@,
                    available: ceiling@,
                },
            ),
    {
        if reserved.get() > ceiling.get() {
            return Err(
                BudgetRefusal::Exceeded {
                    resource: BudgetResource::Tokens,
                    required: reserved.get(),
                    available: ceiling.get(),
                },
            );
        }
        Ok(Self::from_view(ceiling.get(), reserved.get()))
    }

    /// The immutable ceiling.
    pub fn ceiling(self) -> (r: Tokens)
        ensures
            r@ == self@.0,
            budget_ok(self@),
    {
        proof {
            use_type_invariant(&self);
        }
        self.ceiling
    }

    /// The sum of shares currently reserved by delegated children.
    pub fn reserved(self) -> (r: Tokens)
        ensures
            r@ == self@.1,
            budget_ok(self@),
    {
        proof {
            use_type_invariant(&self);
        }
        self.reserved
    }

    /// What is left to hand out: the ceiling less every reserved share.
    pub fn remaining(self) -> (r: Tokens)
        ensures
            r@ == budget_remaining(self@),
    {
        proof {
            use_type_invariant(&self);
        }
        Tokens::new(self.ceiling.get() - self.reserved.get())
    }

    /// The budget a local child runs under: everything the task has left.
    /// The pool is not reduced; the parent measures the child.
    pub fn attenuate(self) -> (r: Self)
        ensures
            r@ == fresh_budget(budget_remaining(self@)),
    {
        Self::new(self.remaining())
    }

    /// Carve `share` out of the pool for a delegated child.
    ///
    /// Returns this budget with the share reserved, and the child's own
    /// budget of exactly that share; refuses a share larger than what
    /// remains.
    pub fn reserve(self, share: Tokens) -> (r: Result<(Self, Self), BudgetRefusal>)
        ensures
            (match budget_reserve(self@, share@) {
                Ok((parent, child)) => r matches Ok((p, c)) && p@ == parent && c@ == child,
                Err(e) => r == Err::<(Self, Self), BudgetRefusal>(e),
            }),
    {
        proof {
            use_type_invariant(&self);
        }
        let remaining = self.remaining();
        match self.reserved.checked_add(share) {
            Some(reserved) => {
                if reserved.get() <= self.ceiling.get() {
                    return Ok((Self::from_view(self.ceiling.get(), reserved.get()), Self::new(share)));
                }
            },
            None => {},
        }
        Err(
            BudgetRefusal::Exceeded {
                resource: BudgetResource::Tokens,
                required: share.get(),
                available: remaining.get(),
            },
        )
    }

    /// Reserve everything that remains for one delegated child. The pool is
    /// then empty until that share is released.
    pub fn reserve_remaining(self) -> (r: (Self, Self))
        ensures
            r.0@ == (self@.0, self@.0),
            r.1@ == fresh_budget(budget_remaining(self@)),
    {
        let share = self.remaining();
        (Self::from_view(self.ceiling.get(), self.ceiling.get()), Self::new(share))
    }

    /// Hand back a share a delegated child did not use; refuses to release
    /// more than is reserved, which would credit the pool with tokens it
    /// never held.
    pub fn release(self, share: Tokens) -> (r: Result<Self, BudgetRefusal>)
        ensures
            (match budget_release(self@, share@) {
                Ok(b) => r matches Ok(t) && t@ == b,
                Err(e) => r == Err::<Self, BudgetRefusal>(e),
            }),
    {
        proof {
            use_type_invariant(&self);
        }
        match self.reserved.checked_sub(share) {
            Some(reserved) => Ok(Self::from_view(self.ceiling.get(), reserved.get())),
            None => Err(
                BudgetRefusal::Exceeded {
                    resource: BudgetResource::Tokens,
                    required: share.get(),
                    available: self.reserved.get(),
                },
            ),
        }
    }

    /// `"<remaining> of <ceiling> tokens remaining"` (what `Display` prints).
    pub fn to_string(self) -> (r: String)
        ensures
            r@ == decimal(budget_remaining(self@) as nat) + " of "@ + decimal(self@.0 as nat)
                + " tokens remaining"@,
    {
        let mut s = decimal_text(self.remaining().get());
        s.append(" of ");
        s.append(decimal_text(self.ceiling.get()).as_str());
        s.append(" tokens remaining");
        s
    }
}

/// A reservation never hands out more than the pool holds: it succeeds
/// exactly when the share fits what remains, keeps the ceiling, and moves
/// exactly the share from the parent's pool to the child.
pub proof fn lemma_reserve_conserves(b: BudgetView, share: u64)
    requires
        budget_ok(b),
    ensures
        budget_reserve(b, share) is Ok <==> share <= budget_remaining(b),
        budget_reserve(b, share) matches Ok((p, c)) ==> {
            &&& budget_ok(p)
            &&& budget_ok(c)
            &&& p.0 == b.0
            &&& budget_remaining(p) + c.0 == budget_remaining(b)
            &&& c.1 == 0
        },
{
}

/// Releasing the share just reserved restores the budget exactly.
pub proof fn lemma_release_undoes_reserve(b: BudgetView, share: u64)
    requires
        budget_ok(b),
        budget_reserve(b, share) is Ok,
    ensures
        budget_release(budget_reserve(b, share)->Ok_0.0, share) == Ok::<BudgetView, BudgetRefusal>(b),
{
}

/// A release never credits the pool with more than was reserved: it
/// succeeds exactly when the share is reserved, and then grows what remains
/// by exactly the share.
pub proof fn lemma_release_is_bounded(b: BudgetView, share: u64)
    requires
        budget_ok(b),
    ensures
        budget_release(b, share) is Ok <==> share <= b.1,
        budget_release(b, share) matches Ok(n) ==> budget_ok(n) && n.0 == b.0
            && budget_remaining(n) == budget_remaining(b) + share,
{
}

/// Attenuation hands the child everything that remains; reserving the
/// remainder does the same and leaves the parent nothing, so a second
/// reservation of the remainder gets nothing.
pub proof fn lemma_remainder_goes_to_one_child(b: BudgetView)
    requires
        budget_ok(b),
    ensures
        fresh_budget(budget_remaining(b)).0 == budget_remaining(b),
        budget_remaining((b.0, b.0)) == 0,
        fresh_budget(budget_remaining((b.0, b.0))) == fresh_budget(0),
{
}

} // verus!
