//! A task's resource envelope: its immutable budget, its planned
//! reservation, and its measured consumption.
//!
//! A budget is authorization and is never added to anything. Reservations
//! and actuals compose bottom-up from children: wall-clock span follows the
//! execution structure (sequential children sum, parallel children take the
//! maximum), while tokens and wall work are consumed by every child and
//! always sum.

use vstd::prelude::*;

use crate::budget_refusal::BudgetRefusal;
use crate::terminal_cause::BudgetResource;
use crate::token_budget::{fresh_budget, TokenBudget};
use crate::tokens::Tokens;

verus! {

/// The sum of a sequence of amounts, unbounded.
pub open spec fn sum_u64(s: Seq<u64>) -> nat
    decreases s.len(),
{
    if s.len() == 0 {
        0
    } else {
        sum_u64(s.drop_last()) + s.last() as nat
    }
}

/// The largest amount of a sequence, zero when it is empty.
pub open spec fn max_u64(s: Seq<u64>) -> nat
    decreases s.len(),
{
    if s.len() == 0 {
        0
    } else {
        let m = max_u64(s.drop_last());
        if s.last() as nat > m {
            s.last() as nat
        } else {
            m
        }
    }
}

/// Partial sums only grow.
pub proof fn lemma_sum_prefix(s: Seq<u64>, n: int)
    requires
        0 <= n <= s.len(),
    ensures
        sum_u64(s.take(n)) <= sum_u64(s),
    decreases s.len() - n,
{
    if n < s.len() {
        lemma_sum_prefix(s, n + 1);
        assert(s.take(n + 1).drop_last() =~= s.take(n));
    } else {
        assert(s.take(n) =~= s);
    }
}

/// No element exceeds the sum, so the maximum does not either; and a sum
/// of pointwise smaller amounts is smaller.
pub proof fn lemma_max_within_sum(s: Seq<u64>, t: Seq<u64>)
    requires
        s.len() == t.len(),
        forall|i: int| 0 <= i < s.len() ==> s[i] <= t[i],
    ensures
        max_u64(s) <= sum_u64(s),
        sum_u64(s) <= sum_u64(t),
        max_u64(s) <= sum_u64(t),
    decreases s.len(),
{
    if s.len() > 0 {
        lemma_max_within_sum(s.drop_last(), t.drop_last());
    }
}

/// How one interior task schedules its direct children.
///
/// Parentage cannot reveal this distinction; the executor declares it so
/// wall-clock span can follow the critical path while consumptive resources
/// keep adding across every child.
#[derive(Debug, Clone, Copy, PartialEq, Eq, Structural, Hash)]
pub enum ResourceComposition {
    /// Children execute one after another.
    Sequential,
    /// Children execute concurrently without a tighter concurrency bound.
    Parallel,
}

/// The span of children composed as `composition` says: the sum of their
/// spans when sequential, the longest when parallel.
pub open spec fn composed_span(composition: ResourceComposition, spans: Seq<u64>) -> nat {
    match composition {
        ResourceComposition::Sequential => sum_u64(spans),
        ResourceComposition::Parallel => max_u64(spans),
    }
}

/// `start` plus every value, or `None` when the sum cannot be represented.
fn checked_total(start: u64, values: &Vec<u64>) -> (r: Option<u64>)
    ensures
        r is None <==> start + sum_u64(values@) > u64::MAX,
        r matches Some(v) ==> v == start + sum_u64(values@),
{
    let mut acc = start;
    let mut i: usize = 0;
    while i < values.len()
        invariant
            i <= values@.len(),
            acc == start + sum_u64(values@.take(i as int)),
        decreases values@.len() - i,
    {
        proof {
            assert(values@.take(i + 1).drop_last() =~= values@.take(i as int));
        }
        match acc.checked_add(values[i]) {
            Some(next) => acc = next,
            None => {
                proof {
                    lemma_sum_prefix(values@, i + 1);
                }
                return None;
            },
        }
        i = i + 1;
    }
    assert(values@.take(i as int) =~= values@);
    Some(acc)
}

/// The largest value, zero when there is none.
fn largest(values: &Vec<u64>) -> (r: u64)
    ensures
        r == max_u64(values@),
{
    let mut best: u64 = 0;
    let mut i: usize = 0;
    while i < values.len()
        invariant
            i <= values@.len(),
            best == max_u64(values@.take(i as int)),
        decreases values@.len() - i,
    {
        proof {
            assert(values@.take(i + 1).drop_last() =~= values@.take(i as int));
        }
        if values[i] > best {
            best = values[i];
        }
        i = i + 1;
    }
    assert(values@.take(i as int) =~= values@);
    best
}

impl ResourceComposition {
    /// The composed span of the children's spans; a sequential sum that
    /// cannot be represented is refused.
    fn compose_span(self, children: &Vec<u64>) -> (r: Result<u64, BudgetRefusal>)
        ensures
            (self is Sequential && sum_u64(children@) > u64::MAX) ==> r == Err::<u64, BudgetRefusal>(
                BudgetRefusal::Overflow { resource: BudgetResource::WallTime },
            ),
            !(self is Sequential && sum_u64(children@) > u64::MAX) ==> r == Ok::<u64, BudgetRefusal>(
                composed_span(self, children@) as u64,
            ),
            r is Ok ==> composed_span(self, children@) <= u64::MAX,
    {
        match self {
            ResourceComposition::Sequential => match checked_total(0, children) {
                Some(sum) => Ok(sum),
                None => Err(BudgetRefusal::Overflow { resource: BudgetResource::WallTime }),
            },
            ResourceComposition::Parallel => Ok(largest(children)),
        }
    }
}

fn checked_wall_ms(sum: u64, addend: u64) -> (r: Result<u64, BudgetRefusal>)
    ensures
        sum + addend > u64::MAX ==> r == Err::<u64, BudgetRefusal>(
            BudgetRefusal::Overflow { resource: BudgetResource::WallTime },
        ),
        sum + addend <= u64::MAX ==> r == Ok::<u64, BudgetRefusal>((sum + addend) as u64),
{
    match sum.checked_add(addend) {
        Some(v) => Ok(v),
        None => Err(BudgetRefusal::Overflow { resource: BudgetResource::WallTime }),
    }
}

/// The abstract value of a budget or a reservation: `(wall_time_ms, tokens)`.
pub type EnvelopeView = (u64, u64);

/// Checking a required wall time and token count against a budget: the
/// first resource that does not fit is refused, wall time first.
pub open spec fn authorize_outcome(budget: EnvelopeView, wall_time_ms: u64, tokens: u64) -> Result<(), BudgetRefusal> {
    if wall_time_ms > budget.0 {
        Err(
            BudgetRefusal::Exceeded {
                resource: BudgetResource::WallTime,
                required: wall_time_ms,
                available: budget.0,
            },
        )
    } else if tokens > budget.1 {
        Err(
            BudgetRefusal::Exceeded {
                resource: BudgetResource::Tokens,
                required: tokens,
                available: budget.1,
            },
        )
    } else {
        Ok(())
    }
}

/// Immutable hard authorization for one task's entire subtree.
#[derive(Debug, Clone, Copy, PartialEq, Eq, Structural, Hash)]
pub struct ResourceBudget {
    wall_time_ms: u64,
    tokens: Tokens,
}

impl View for ResourceBudget {
    type V = EnvelopeView;

    closed spec fn view(&self) -> EnvelopeView {
        (self.wall_time_ms, self.tokens@)
    }
}

impl ResourceBudget {
    /// An immutable wall-time and token authorization.
    pub fn new(wall_time_ms: u64, tokens: Tokens) -> (r: Self)
        ensures
            r@ == (wall_time_ms, tokens@),
    {
        ResourceBudget { wall_time_ms, tokens }
    }

    /// Refuse a composed worst-case reservation that exceeds this budget.
    pub fn authorize_reservation(self, reservation: ResourceReservation) -> (r: Result<(), BudgetRefusal>)
        ensures
            r == authorize_outcome(self@, reservation@.0, reservation@.1),
    {
        self.authorize(reservation.wall_time_ms, reservation.tokens)
    }

    /// Refuse measured subtree actuals that exceed this budget.
    ///
    /// Wall work is deliberately not compared to the wall-span budget:
    /// parallel work consumes more total worker time than elapsed time.
    pub fn authorize_actual(self, actual: ResourceActual) -> (r: Result<(), BudgetRefusal>)
        ensures
            r == authorize_outcome(self@, actual@.0, actual@.2),
    {
        self.authorize(actual.wall_span_ms, actual.tokens)
    }

    fn authorize(self, wall_time_ms: u64, tokens: Tokens) -> (r: Result<(), BudgetRefusal>)
        ensures
            r == authorize_outcome(self@, wall_time_ms, tokens@),
    {
        if wall_time_ms > self.wall_time_ms {
            return Err(
                BudgetRefusal::Exceeded {
                    resource: BudgetResource::WallTime,
                    required: wall_time_ms,
                    available: self.wall_time_ms,
                },
            );
        }
        if tokens.get() > self.tokens.get() {
            return Err(
                BudgetRefusal::Exceeded {
                    resource: BudgetResource::Tokens,
                    required: tokens.get(),
                    available: self.tokens.get(),
                },
            );
        }
        Ok(())
    }

    /// Authorized wall-clock span in milliseconds.
    pub fn wall_time_ms(self) -> (r: u64)
        ensures
            r == self@.0,
    {
        self.wall_time_ms
    }

    /// Authorized tokens.
    pub fn tokens(self) -> (r: Tokens)
        ensures
            r@ == self@.1,
    {
        self.tokens
    }

    /// The token half of this envelope as a budget that trickles down.
    pub fn token_budget(self) -> (r: TokenBudget)
        ensures
            r@ == fresh_budget(self@.1),
    {
        TokenBudget::new(self.tokens)
    }
}

/// Composing a task's own reservation with its children's: wall time adds
/// the children's composed span, tokens add every child's; wall time that
/// cannot be represented is refused first, then tokens.
pub open spec fn compose_reservation(
    local: EnvelopeView,
    composition: ResourceComposition,
    children: Seq<EnvelopeView>,
) -> Result<EnvelopeView, BudgetRefusal> {
    let spans = children.map_values(|c: EnvelopeView| c.0);
    let tokens = children.map_values(|c: EnvelopeView| c.1);
    let wall = local.0 + composed_span(composition, spans);
    let toks = local.1 + sum_u64(tokens);
    if wall > u64::MAX {
        Err(BudgetRefusal::Overflow { resource: BudgetResource::WallTime })
    } else if toks > u64::MAX {
        Err(BudgetRefusal::Overflow { resource: BudgetResource::Tokens })
    } else {
        Ok((wall as u64, toks as u64))
    }
}

/// Worst-case resources reserved by a task plan.
///
/// Direct child reservations compose bottom-up and the result must fit the
/// containing task's [`ResourceBudget`]. A budget is never added to its
/// descendants' reservations.
#[derive(Debug, Clone, Copy, PartialEq, Eq, Structural, Hash)]
pub struct ResourceReservation {
    wall_time_ms: u64,
    tokens: Tokens,
}

impl View for ResourceReservation {
    type V = EnvelopeView;

    closed spec fn view(&self) -> EnvelopeView {
        (self.wall_time_ms, self.tokens@)
    }
}

impl ResourceReservation {
    /// The reservation for a task's exclusive local work.
    pub fn new(wall_time_ms: u64, tokens: Tokens) -> (r: Self)
        ensures
            r@ == (wall_time_ms, tokens@),
    {
        ResourceReservation { wall_time_ms, tokens }
    }

    /// Compose the task's exclusive reservation with its direct children.
    pub fn compose_children(self, composition: ResourceComposition, children: &[Self]) -> (r: Result<
        Self,
        BudgetRefusal,
    >)
        ensures
            (match compose_reservation(
                self@,
                composition,
                children@.map_values(|c: ResourceReservation| c@),
            ) {
                Ok(v) => r matches Ok(c) && c@ == v,
                Err(e) => r == Err::<Self, BudgetRefusal>(e),
            }),
    {
        let ghost views = children@.map_values(|c: ResourceReservation| c@);
        let mut spans: Vec<u64> = Vec::new();
        let mut tokens: Vec<u64> = Vec::new();
        let mut i: usize = 0;
        while i < children.len()
            invariant
                i <= children@.len(),
                views == children@.map_values(|c: ResourceReservation| c@),
                spans@ == views.take(i as int).map_values(|c: EnvelopeView| c.0),
                tokens@ == views.take(i as int).map_values(|c: EnvelopeView| c.1),
            decreases children@.len() - i,
        {
            let child = children[i];
            spans.push(child.wall_time_ms);
            tokens.push(child.tokens.get());
            proof {
                assert(views.take(i + 1).map_values(|c: EnvelopeView| c.0) =~= views.take(
                    i as int,
                ).map_values(|c: EnvelopeView| c.0).push(child@.0));
                assert(views.take(i + 1).map_values(|c: EnvelopeView| c.1) =~= views.take(
                    i as int,
                ).map_values(|c: EnvelopeView| c.1).push(child@.1));
            }
            i = i + 1;
        }
        assert(views.take(i as int) =~= views);
        let child_wall_time_ms = match composition.compose_span(&spans) {
            Ok(v) => v,
            Err(e) => return Err(e),
        };
        let wall_time_ms = match checked_wall_ms(self.wall_time_ms, child_wall_time_ms) {
            Ok(v) => v,
            Err(e) => return Err(e),
        };
        let token_sum = match checked_total(self.tokens.get(), &tokens) {
            Some(v) => v,
            None => return Err(BudgetRefusal::Overflow { resource: BudgetResource::Tokens }),
        };
        Ok(Self::new(wall_time_ms, Tokens::new(token_sum)))
    }

    /// Worst-case wall-clock span in milliseconds.
    pub fn wall_time_ms(self) -> (r: u64)
        ensures
            r == self@.0,
    {
        self.wall_time_ms
    }

    /// Worst-case reserved tokens.
    pub fn tokens(self) -> (r: Tokens)
        ensures
            r@ == self@.1,
    {
        self.tokens
    }
}

/// The abstract value of measured actuals: `(wall_span_ms, wall_work_ms,
/// tokens)`.
pub type ActualView = (u64, u64, u64);

/// Composing a task's own actuals with its children's: span adds the
/// children's composed span, work and tokens add every child's; wall time
/// (span or work) that cannot be represented is refused first, then tokens.
pub open spec fn compose_actual(
    local: ActualView,
    composition: ResourceComposition,
    children: Seq<ActualView>,
) -> Result<ActualView, BudgetRefusal> {
    let spans = children.map_values(|c: ActualView| c.0);
    let works = children.map_values(|c: ActualView| c.1);
    let tokens = children.map_values(|c: ActualView| c.2);
    let span = local.0 + composed_span(composition, spans);
    let work = local.1 + sum_u64(works);
    let toks = local.2 + sum_u64(tokens);
    if span > u64::MAX || work > u64::MAX {
        Err(BudgetRefusal::Overflow { resource: BudgetResource::WallTime })
    } else if toks > u64::MAX {
        Err(BudgetRefusal::Overflow { resource: BudgetResource::Tokens })
    } else {
        Ok((span as u64, work as u64, toks as u64))
    }
}

/// Measured consumption for one task or composed subtree.
///
/// Wall span and wall work are deliberately separate: parallel children
/// take the maximum span, but every child's work remains consumed.
#[derive(Debug, Clone, Copy, PartialEq, Eq, Structural, Hash)]
pub struct ResourceActual {
    wall_span_ms: u64,
    wall_work_ms: u64,
    tokens: Tokens,
}

impl View for ResourceActual {
    type V = ActualView;

    closed spec fn view(&self) -> ActualView {
        (self.wall_span_ms, self.wall_work_ms, self.tokens@)
    }
}

impl ResourceActual {

    /// Actuals for exclusive local work, whose span and work coincide.
    pub fn new(wall_time_ms: u64, tokens: Tokens) -> (r: Self)
        ensures
            r@ == (wall_time_ms, wall_time_ms, tokens@),
    {
        ResourceActual { wall_span_ms: wall_time_ms, wall_work_ms: wall_time_ms, tokens }
    }

    /// Actuals from their three measurements, as recorded.
    pub fn from_parts(wall_span_ms: u64, wall_work_ms: u64, tokens: Tokens) -> (r: Self)
        ensures
            r@ == (wall_span_ms, wall_work_ms, tokens@),
    {
        ResourceActual { wall_span_ms, wall_work_ms, tokens }
    }

    /// Compose the task's exclusive local actuals with direct children.
    pub fn compose_children(self, composition: ResourceComposition, children: &[Self]) -> (r: Result<
        Self,
        BudgetRefusal,
    >)
        ensures
            (match compose_actual(
                self@,
                composition,
                children@.map_values(|c: ResourceActual| c@),
            ) {
                Ok(v) => r matches Ok(c) && c@ == v,
                Err(e) => r == Err::<Self, BudgetRefusal>(e),
            }),
    {
        let ghost views = children@.map_values(|c: ResourceActual| c@);
        let mut spans: Vec<u64> = Vec::new();
        let mut works: Vec<u64> = Vec::new();
        let mut tokens: Vec<u64> = Vec::new();
        let mut i: usize = 0;
        while i < children.len()
            invariant
                i <= children@.len(),
                views == children@.map_values(|c: ResourceActual| c@),
                spans@ == views.take(i as int).map_values(|c: ActualView| c.0),
                works@ == views.take(i as int).map_values(|c: ActualView| c.1),
                tokens@ == views.take(i as int).map_values(|c: ActualView| c.2),
            decreases children@.len() - i,
        {
            let child = children[i];
            spans.push(child.wall_span_ms);
            works.push(child.wall_work_ms);
            tokens.push(child.tokens.get());
            proof {
                assert(views.take(i + 1).map_values(|c: ActualView| c.0) =~= views.take(
                    i as int,
                ).map_values(|c: ActualView| c.0).push(child@.0));
                assert(views.take(i + 1).map_values(|c: ActualView| c.1) =~= views.take(
                    i as int,
                ).map_values(|c: ActualView| c.1).push(child@.1));
                assert(views.take(i + 1).map_values(|c: ActualView| c.2) =~= views.take(
                    i as int,
                ).map_values(|c: ActualView| c.2).push(child@.2));
            }
            i = i + 1;
        }
        assert(views.take(i as int) =~= views);
        proof {
            lemma_max_within_sum(spans@, spans@);
        }
        let child_span_ms = match composition.compose_span(&spans) {
            Ok(v) => v,
            Err(e) => return Err(e),
        };
        let wall_span_ms = match checked_wall_ms(self.wall_span_ms, child_span_ms) {
            Ok(v) => v,
            Err(e) => return Err(e),
        };
        let wall_work_ms = match checked_total(self.wall_work_ms, &works) {
            Some(v) => v,
            None => return Err(BudgetRefusal::Overflow { resource: BudgetResource::WallTime }),
        };
        let token_sum = match checked_total(self.tokens.get(), &tokens) {
            Some(v) => v,
            None => return Err(BudgetRefusal::Overflow { resource: BudgetResource::Tokens }),
        };
        Ok(ResourceActual { wall_span_ms, wall_work_ms, tokens: Tokens::new(token_sum) })
    }

    /// Measured elapsed critical-path span in milliseconds.
    pub fn wall_span_ms(self) -> (r: u64)
        ensures
            r == self@.0,
    {
        self.wall_span_ms
    }

    /// Sum of measured wall work across every task in the subtree.
    pub fn wall_work_ms(self) -> (r: u64)
        ensures
            r == self@.1,
    {
        self.wall_work_ms
    }

    /// Tokens actually consumed.
    pub fn tokens(self) -> (r: Tokens)
        ensures
            r@ == self@.2,
    {
        self.tokens
    }
}

/// Running children in parallel never takes longer than running them in
/// sequence, never overflows where the sequence does not, and consumes the
/// same tokens.
pub proof fn lemma_parallel_within_sequential(local: EnvelopeView, children: Seq<EnvelopeView>)
    requires
        compose_reservation(local, ResourceComposition::Sequential, children) is Ok,
    ensures
        compose_reservation(local, ResourceComposition::Parallel, children) is Ok,
        compose_reservation(local, ResourceComposition::Parallel, children)->Ok_0.0
            <= compose_reservation(local, ResourceComposition::Sequential, children)->Ok_0.0,
        compose_reservation(local, ResourceComposition::Parallel, children)->Ok_0.1
            == compose_reservation(local, ResourceComposition::Sequential, children)->Ok_0.1,
{
    let spans = children.map_values(|c: EnvelopeView| c.0);
    lemma_max_within_sum(spans, spans);
}

/// Composed actuals keep their span within their work: the critical path is
/// never longer than the total work, whatever the composition.
pub proof fn lemma_actual_span_within_work(
    local: ActualView,
    composition: ResourceComposition,
    children: Seq<ActualView>,
)
    requires
        local.0 <= local.1,
        forall|i: int| 0 <= i < children.len() ==> (#[trigger] children[i]).0 <= children[i].1,
        compose_actual(local, composition, children) is Ok,
    ensures
        compose_actual(local, composition, children)->Ok_0.0 <= compose_actual(
            local,
            composition,
            children,
        )->Ok_0.1,
{
    let spans = children.map_values(|c: ActualView| c.0);
    let works = children.map_values(|c: ActualView| c.1);
    lemma_max_within_sum(spans, works);
}

/// Measured actuals compose exactly as reservations do: the span follows
/// the same execution structure (sequential children add, parallel children
/// take the longest) and tokens add across every child, so composing the
/// actuals and composing reservations of the same spans and tokens agree.
pub proof fn lemma_actual_composes_like_reservation(
    local: ActualView,
    composition: ResourceComposition,
    children: Seq<ActualView>,
)
    requires
        compose_actual(local, composition, children) is Ok,
    ensures
        ({
            let planned = compose_reservation(
                (local.0, local.2),
                composition,
                children.map_values(|c: ActualView| (c.0, c.2)),
            );
            let measured = compose_actual(local, composition, children)->Ok_0;
            &&& planned is Ok
            &&& planned->Ok_0.0 == measured.0
            &&& planned->Ok_0.1 == measured.2
        }),
{
    let planned_children = children.map_values(|c: ActualView| (c.0, c.2));
    assert(planned_children.map_values(|c: EnvelopeView| c.0) =~= children.map_values(
        |c: ActualView| c.0,
    ));
    assert(planned_children.map_values(|c: EnvelopeView| c.1) =~= children.map_values(
        |c: ActualView| c.2,
    ));
}

/// Sequential composition adds spans: when the task and each child ran
/// exclusively (span equal to work), running the children one after another
/// leaves no overlap, so the composed span equals the composed work.
pub proof fn lemma_sequential_exclusive_span_is_work(local: ActualView, children: Seq<ActualView>)
    requires
        local.0 == local.1,
        forall|i: int| 0 <= i < children.len() ==> (#[trigger] children[i]).0 == children[i].1,
        compose_actual(local, ResourceComposition::Sequential, children) is Ok,
    ensures
        compose_actual(local, ResourceComposition::Sequential, children)->Ok_0.0 == compose_actual(
            local,
            ResourceComposition::Sequential,
            children,
        )->Ok_0.1,
{
    assert(children.map_values(|c: ActualView| c.0) =~= children.map_values(|c: ActualView| c.1));
}

/// Appending one more sequential child lengthens the composed span by
/// exactly that child's span.
pub proof fn lemma_sequential_span_appends(local: ActualView, children: Seq<ActualView>, last: ActualView)
    requires
        compose_actual(local, ResourceComposition::Sequential, children) is Ok,
        compose_actual(local, ResourceComposition::Sequential, children.push(last)) is Ok,
    ensures
        compose_actual(local, ResourceComposition::Sequential, children.push(last))->Ok_0.0
            == compose_actual(local, ResourceComposition::Sequential, children)->Ok_0.0 + last.0,
{
    let spans = children.map_values(|c: ActualView| c.0);
    let longer = children.push(last).map_values(|c: ActualView| c.0);
    assert(longer.drop_last() =~= spans);
}

/// Whatever is authorized fits the budget resource by resource.
pub proof fn lemma_authorized_fits(budget: EnvelopeView, wall_time_ms: u64, tokens: u64)
    ensures
        authorize_outcome(budget, wall_time_ms, tokens) is Ok <==> (wall_time_ms <= budget.0
            && tokens <= budget.1),
{
}

} // verus!
