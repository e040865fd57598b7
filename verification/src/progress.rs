//! Progress counters carried on a running task.

use vstd::prelude::*;

use crate::progress_unit::ProgressUnit;

verus! {

/// Progress counters for a running task.
#[derive(Debug, Clone, PartialEq, Eq, Structural)]
pub struct TaskProgress {
    /// Number of items processed so far.
    pub processed: u64,
    /// Total number of items, if known.
    pub total: Option<u64>,
    /// The unit of measurement.
    pub unit: ProgressUnit,
}

/// The sum of a sequence of counters, capped at `u64::MAX`: what adding
/// them one by one with saturation gives.
pub open spec fn saturating_sum(s: Seq<u64>) -> nat
    decreases s.len(),
{
    if s.len() == 0 {
        0
    } else {
        let t = saturating_sum(s.drop_last()) + s.last() as nat;
        if t > u64::MAX {
            u64::MAX as nat
        } else {
            t
        }
    }
}

/// Every item is measured in the unit of the first.
pub open spec fn same_unit(items: Seq<TaskProgress>) -> bool {
    forall|i: int| 0 <= i < items.len() ==> (#[trigger] items[i]).unit == items[0].unit
}

/// Every item knows its total.
pub open spec fn totals_known(items: Seq<TaskProgress>) -> bool {
    forall|i: int| 0 <= i < items.len() ==> (#[trigger] items[i]).total is Some
}

pub open spec fn processed_counts(items: Seq<TaskProgress>) -> Seq<u64> {
    items.map_values(|p: TaskProgress| p.processed)
}

pub open spec fn total_counts(items: Seq<TaskProgress>) -> Seq<u64> {
    items.map_values(
        |p: TaskProgress|
            match p.total {
                Some(t) => t,
                None => 0,
            },
    )
}

/// The aggregate of same-unit progress: counters summed with saturation, a
/// total only when every item knows its own.
pub open spec fn aggregate_progress(items: Seq<TaskProgress>) -> Option<TaskProgress> {
    if items.len() == 0 || !same_unit(items) {
        None
    } else {
        Some(
            TaskProgress {
                processed: saturating_sum(processed_counts(items)) as u64,
                total: if totals_known(items) {
                    Some(saturating_sum(total_counts(items)) as u64)
                } else {
                    None
                },
                unit: items[0].unit,
            },
        )
    }
}

/// A saturating sum never exceeds `u64::MAX`.
proof fn lemma_saturating_sum_bounded(s: Seq<u64>)
    ensures
        saturating_sum(s) <= u64::MAX,
    decreases s.len(),
{
    if s.len() > 0 {
        lemma_saturating_sum_bounded(s.drop_last());
    }
}

impl TaskProgress {
    /// Create a new progress tracker with zero items processed.
    pub fn new(unit: ProgressUnit) -> (r: Self)
        ensures
            r == (TaskProgress { processed: 0, total: None, unit }),
    {
        TaskProgress { processed: 0, total: None, unit }
    }

    /// Aggregate progress counters with the same unit.
    ///
    /// Returns `None` when there are no items or when any item uses a
    /// different unit. Unknown totals are preserved: if any child total is
    /// unknown then the aggregate total is unknown.
    pub fn aggregate(progress: &[&TaskProgress]) -> (r: Option<Self>)
        ensures
            r == aggregate_progress(progress@.map_values(|p: &TaskProgress| *p)),
    {
        let ghost items = progress@.map_values(|p: &TaskProgress| *p);
        if progress.len() == 0 {
            return None;
        }
        let first: &TaskProgress = progress[0];
        let unit = first.unit;
        let mut processed = first.processed;
        let mut total = first.total;
        proof {
            reveal_with_fuel(saturating_sum, 2);
            assert(items.take(1)[0] == *first);
            assert(processed_counts(items.take(1)).last() == first.processed);
            assert(total_counts(items.take(1)).last() == match first.total {
                Some(t) => t,
                None => 0u64,
            });
            if first.total is None {
                assert(items.take(1)[0].total is None);
            }
            assert(processed_counts(items.take(1)).drop_last() =~= Seq::<u64>::empty());
            assert(total_counts(items.take(1)).drop_last() =~= Seq::<u64>::empty());
        }
        let mut i: usize = 1;
        while i < progress.len()
            invariant
                1 <= i <= progress@.len(),
                items == progress@.map_values(|p: &TaskProgress| *p),
                unit == items[0].unit,
                same_unit(items.take(i as int)),
                processed == saturating_sum(processed_counts(items.take(i as int))),
                totals_known(items.take(i as int)) ==> total == Some(
                    saturating_sum(total_counts(items.take(i as int))) as u64,
                ),
                !totals_known(items.take(i as int)) ==> total is None,
            decreases progress@.len() - i,
        {
            let next: &TaskProgress = progress[i];
            let ghost prefix = items.take(i as int);
            let ghost longer = items.take(i + 1);
            proof {
                assert(longer.drop_last() =~= prefix);
                assert(processed_counts(longer).drop_last() =~= processed_counts(prefix));
                assert(total_counts(longer).drop_last() =~= total_counts(prefix));
                assert(longer.last() == *next);
                lemma_saturating_sum_bounded(total_counts(prefix));
            }
            if next.unit != unit {
                proof {
                    assert(items[i as int].unit != items[0].unit);
                }
                return None;
            }
            processed = processed.saturating_add(next.processed);
            total = match (total, next.total) {
                (Some(left), Some(right)) => Some(left.saturating_add(right)),
                _ => None,
            };
            proof {
                if !totals_known(prefix) {
                    let k = choose|k: int| 0 <= k < prefix.len() && prefix[k].total is None;
                    assert(longer[k] == prefix[k]);
                }
                if next.total is None {
                    assert(longer[i as int] == *next);
                }
                assert forall|k: int| 0 <= k < longer.len() implies (#[trigger] longer[k]).unit
                    == longer[0].unit by {
                    if k < i {
                        assert(longer[k] == prefix[k]);
                    }
                }
                if totals_known(prefix) && next.total is Some {
                    assert forall|k: int| 0 <= k < longer.len() implies (
                    #[trigger] longer[k]).total is Some by {
                        if k < i {
                            assert(longer[k] == prefix[k]);
                        }
                    }
                }
            }
            i = i + 1;
        }
        assert(items.take(i as int) =~= items);
        Some(TaskProgress { processed, total, unit })
    }
}

/// Aggregating one item gives that item back, and an unknown total anywhere
/// makes the aggregate's total unknown.
pub proof fn lemma_aggregate_one_and_unknown(p: TaskProgress, items: Seq<TaskProgress>)
    ensures
        aggregate_progress(seq![p]) == Some(p),
        !totals_known(items) ==> (aggregate_progress(items) matches Some(a) ==> a.total is None),
{
    let s = seq![p];
    reveal_with_fuel(saturating_sum, 2);
    assert(processed_counts(s).drop_last() =~= Seq::<u64>::empty());
    assert(total_counts(s).drop_last() =~= Seq::<u64>::empty());
    assert(processed_counts(s).last() == p.processed);
    if p.total is Some {
        assert(total_counts(s).last() == p.total->0);
        assert(totals_known(s));
    } else {
        assert(s[0].total is None);
    }
}

} // verus!
