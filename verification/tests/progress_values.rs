use std::str::FromStr;

use tasktree::timestamps::clamp_reading;
use tasktree::{ProgressUnit, TaskProgress, TaskTimestamps};

#[test]
fn aggregate_sums_same_unit_progress() {
    let left = TaskProgress {
        processed: 2,
        total: Some(5),
        unit: ProgressUnit::Quads,
    };
    let right = TaskProgress {
        processed: 3,
        total: Some(7),
        unit: ProgressUnit::Quads,
    };

    let aggregated = TaskProgress::aggregate(&[&left, &right]).expect("same unit");

    assert_eq!(aggregated.processed, 5);
    assert_eq!(aggregated.total, Some(12));
    assert_eq!(aggregated.unit, ProgressUnit::Quads);
}

#[test]
fn aggregate_rejects_mixed_units() {
    let rows = TaskProgress {
        processed: 2,
        total: Some(5),
        unit: ProgressUnit::Rows,
    };
    let bytes = TaskProgress {
        processed: 3,
        total: Some(7),
        unit: ProgressUnit::Bytes,
    };

    assert!(TaskProgress::aggregate(&[&rows, &bytes]).is_none());
}

#[test]
fn same_unit_progress_composes_without_losing_unknown_totals() {
    let known = TaskProgress {
        processed: 4,
        total: Some(10),
        unit: ProgressUnit::Items,
    };
    let unknown = TaskProgress {
        processed: 7,
        total: None,
        unit: ProgressUnit::Items,
    };

    let aggregate = TaskProgress::aggregate(&[&known, &unknown]).expect("same unit");

    assert_eq!(aggregate.processed, 11);
    assert_eq!(aggregate.total, None);
    assert_eq!(aggregate.unit, ProgressUnit::Items);
}

#[test]
fn different_progress_units_cannot_be_composed() {
    let bytes = TaskProgress {
        processed: 1,
        total: None,
        unit: ProgressUnit::Bytes,
    };
    let rows = TaskProgress {
        processed: 1,
        total: None,
        unit: ProgressUnit::Rows,
    };

    assert!(TaskProgress::aggregate(&[&bytes, &rows]).is_none());
}

#[test]
fn aggregate_of_nothing_is_none_and_of_one_is_itself() {
    assert!(TaskProgress::aggregate(&[]).is_none());
    let one = TaskProgress {
        processed: 9,
        total: Some(10),
        unit: ProgressUnit::Rows,
    };
    assert_eq!(TaskProgress::aggregate(&[&one]), Some(one.clone()));
}

#[test]
fn aggregate_saturates_instead_of_wrapping() {
    let big = TaskProgress {
        processed: u64::MAX - 1,
        total: Some(u64::MAX),
        unit: ProgressUnit::Bytes,
    };
    let small = TaskProgress {
        processed: 5,
        total: Some(1),
        unit: ProgressUnit::Bytes,
    };
    let aggregate = TaskProgress::aggregate(&[&big, &small]).expect("same unit");
    assert_eq!(aggregate.processed, u64::MAX);
    assert_eq!(aggregate.total, Some(u64::MAX));
}

#[test]
fn new_progress_starts_at_zero_with_unknown_total() {
    let p = TaskProgress::new(ProgressUnit::Quads);
    assert_eq!(p.processed, 0);
    assert_eq!(p.total, None);
    assert_eq!(p.unit, ProgressUnit::Quads);
}

#[test]
fn progress_units_round_trip_as_text() {
    for unit in [
        ProgressUnit::Quads,
        ProgressUnit::Bytes,
        ProgressUnit::Rows,
        ProgressUnit::Items,
    ] {
        assert_eq!(ProgressUnit::from_str(unit.as_str()), Ok(unit));
        assert_eq!(unit.to_string(), unit.as_str());
    }
    assert_eq!(ProgressUnit::from_str("pages"), Err(()));
}

#[test]
fn now_starts_an_unfinished_lifecycle() {
    let timestamps = TaskTimestamps::now();

    assert!(timestamps.created_at > 0);
    assert_eq!(timestamps.started_at, None);
    assert_eq!(timestamps.completed_at, None);
}

#[test]
fn duration_requires_a_start() {
    let timestamps = TaskTimestamps {
        created_at: 1_000,
        started_at: None,
        completed_at: Some(5_000),
    };

    assert_eq!(timestamps.duration_ms(), None);
}

#[test]
fn lifecycle_duration_requires_both_terminal_boundaries() {
    let complete = TaskTimestamps {
        created_at: 1_000,
        started_at: Some(2_000),
        completed_at: Some(5_000),
    };
    let running = TaskTimestamps {
        completed_at: None,
        ..complete.clone()
    };

    assert_eq!(complete.duration_ms(), Some(3_000));
    assert_eq!(running.duration_ms(), None);
}

#[test]
fn lifecycle_duration_saturates_a_regressed_wall_clock() {
    let timestamps = TaskTimestamps {
        created_at: 1_000,
        started_at: Some(5_000),
        completed_at: Some(2_000),
    };

    assert_eq!(timestamps.duration_ms(), Some(0));
}

#[test]
fn clock_readings_are_clamped_into_u64_milliseconds() {
    assert_eq!(clamp_reading(Some(1_700_000_000_000)), 1_700_000_000_000);
    assert_eq!(clamp_reading(Some(u128::from(u64::MAX) + 5)), u64::MAX);
    assert_eq!(clamp_reading(None), 0);
}
