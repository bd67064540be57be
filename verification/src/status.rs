//! Red/green health statuses and the rules that combine them.
//!
//! Every threshold-governed value in the engine is a percentage carried as
//! an integer count of hundredths of a percent, so that `9000` stands for
//! exactly 90.00%. A category goes red when its governing value strictly
//! exceeds the fixed threshold; exactly the threshold is still green.

use vstd::prelude::*;

verus! {

/// The fixed alarm threshold: 90.00%, in hundredths of a percent.
pub const THRESHOLD_HUNDREDTHS: u64 = 9000;

/// A two-valued health verdict.
#[derive(Clone, Copy, Debug, PartialEq, Eq, Structural)]
pub enum Status {
    Green,
    Red,
}

/// The status governed by a percentage value (in hundredths of a percent):
/// red exactly when the value strictly exceeds the threshold.
pub open spec fn level_status(value: u64) -> Status {
    if value > THRESHOLD_HUNDREDTHS {
        Status::Red
    } else {
        Status::Green
    }
}

/// Computes the status of one threshold-governed value.
pub fn status_for_level(value: u64) -> (s: Status)
    ensures
        s == level_status(value),
        s == Status::Red <==> value > THRESHOLD_HUNDREDTHS,
{
    if value > THRESHOLD_HUNDREDTHS {
        Status::Red
    } else {
        Status::Green
    }
}

/// A category status is red iff its governing value strictly exceeds the
/// threshold; a value of exactly the threshold is green.
pub proof fn lemma_threshold_boundary(value: u64)
    ensures
        level_status(value) == Status::Red <==> value > THRESHOLD_HUNDREDTHS,
        value == THRESHOLD_HUNDREDTHS ==> level_status(value) == Status::Green,
{
}

/// The per-category statuses published for one endpoint: the three metric
/// categories for a metrics source, or the single collapsed availability
/// status for an HTTP probe.
#[derive(Clone, Copy, Debug, PartialEq, Eq, Structural)]
pub enum CategoryStatuses {
    Metrics { disk: Status, cpu: Status, memory: Status },
    Availability { status: Status },
}

/// The visible category statuses, in publication order.
pub open spec fn visible_categories(c: CategoryStatuses) -> Seq<Status> {
    match c {
        CategoryStatuses::Metrics { disk, cpu, memory } => seq![disk, cpu, memory],
        CategoryStatuses::Availability { status } => seq![status],
    }
}

/// The overall status of an endpoint: red iff some visible category is red.
pub open spec fn overall_of(c: CategoryStatuses) -> Status {
    match c {
        CategoryStatuses::Metrics { disk, cpu, memory } => {
            if disk == Status::Red || cpu == Status::Red || memory == Status::Red {
                Status::Red
            } else {
                Status::Green
            }
        },
        CategoryStatuses::Availability { status } => status,
    }
}

/// Computes the overall status from the visible category statuses.
pub fn overall_status_of(c: &CategoryStatuses) -> (s: Status)
    ensures
        s == overall_of(*c),
{
    match c {
        CategoryStatuses::Metrics { disk, cpu, memory } => {
            if *disk == Status::Red || *cpu == Status::Red || *memory == Status::Red {
                Status::Red
            } else {
                Status::Green
            }
        },
        CategoryStatuses::Availability { status } => *status,
    }
}

/// The overall status is red iff at least one visible category status is
/// red, and green iff every visible category status is green.
pub proof fn lemma_overall_red_iff_any_red(c: CategoryStatuses)
    ensures
        overall_of(c) == Status::Red <==> exists|i: int|
            0 <= i < visible_categories(c).len() && visible_categories(c)[i] == Status::Red,
        overall_of(c) == Status::Green <==> forall|i: int|
            0 <= i < visible_categories(c).len() ==> visible_categories(c)[i] == Status::Green,
{
    match c {
        CategoryStatuses::Metrics { disk, cpu, memory } => {
            if disk == Status::Red {
                assert(visible_categories(c)[0] == Status::Red);
            } else if cpu == Status::Red {
                assert(visible_categories(c)[1] == Status::Red);
            } else if memory == Status::Red {
                assert(visible_categories(c)[2] == Status::Red);
            } else {
                assert(forall|i: int|
                    0 <= i < visible_categories(c).len() ==> visible_categories(c)[i]
                        == Status::Green);
            }
        },
        CategoryStatuses::Availability { status } => {
            assert(visible_categories(c)[0] == status);
        },
    }
}

} // verus!
