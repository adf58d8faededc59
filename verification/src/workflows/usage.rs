//! How often, how lately and how fast a workflow was run.

use vstd::prelude::*;
use crate::time::{TimeSpan, Timestamp};

verus! {

/// The usage statistics of one workflow.
#[derive(Debug, Clone, Copy, PartialEq, Eq, Structural)]
pub struct WorkflowUsageStats {
    /// How often the workflow was run. The count never goes down.
    pub usage_count: u32,
    /// When the workflow was last run.
    pub last_used: Timestamp,
    /// A running average of the time a run took: after each timed run it is
    /// halfway between what it was and the time of that run, so that late
    /// runs weigh more than early ones. This is not the mean of all runs.
    pub average_execution_time: Option<TimeSpan>,
}

impl WorkflowUsageStats {
    /// The statistics of a workflow that was never run, made at `now`.
    pub open spec fn unused(now: Timestamp) -> WorkflowUsageStats {
        WorkflowUsageStats { usage_count: 0, last_used: now, average_execution_time: None }
    }

    /// The count after one more run. It stays at the largest count there is.
    pub open spec fn next_count(count: u32) -> u32 {
        if count == u32::MAX {
            count
        } else {
            (count + 1) as u32
        }
    }

    /// The running average after a run that took `execution_time`, where
    /// that is known.
    pub open spec fn next_average(
        average: Option<TimeSpan>,
        execution_time: Option<TimeSpan>,
    ) -> Option<TimeSpan> {
        match execution_time {
            Some(time) => match average {
                Some(a) => Some(a.midpoint(time)),
                None => Some(time),
            },
            None => average,
        }
    }

    /// The statistics after one more run at `now`.
    pub open spec fn recorded(
        self,
        now: Timestamp,
        execution_time: Option<TimeSpan>,
    ) -> WorkflowUsageStats {
        WorkflowUsageStats {
            usage_count: Self::next_count(self.usage_count),
            last_used: now,
            average_execution_time: Self::next_average(
                self.average_execution_time,
                execution_time,
            ),
        }
    }

    /// The statistics of a workflow that was never run, made at `now`.
    pub fn new(now: Timestamp) -> (stats: WorkflowUsageStats)
        ensures
            stats == Self::unused(now),
    {
        WorkflowUsageStats { usage_count: 0, last_used: now, average_execution_time: None }
    }

    /// Counts one more run at `now`.
    pub fn record(&mut self, now: Timestamp, execution_time: Option<TimeSpan>)
        ensures
            *final(self) == old(self).recorded(now, execution_time),
            final(self).usage_count >= old(self).usage_count,
            old(self).usage_count < u32::MAX ==> final(self).usage_count == old(self).usage_count
                + 1,
    {
        if self.usage_count < u32::MAX {
            self.usage_count = self.usage_count + 1;
        }
        self.last_used = now;
        match execution_time {
            Some(time) => {
                self.average_execution_time = match self.average_execution_time {
                    Some(average) => Some(average.halfway(&time)),
                    None => Some(time),
                };
            },
            None => {},
        }
    }
}

/// Three runs of a workflow that was never run before leave a count of
/// three, whenever they happen and however long they take.
pub proof fn lemma_three_runs_count_three(
    made: Timestamp,
    first: (Timestamp, Option<TimeSpan>),
    second: (Timestamp, Option<TimeSpan>),
    third: (Timestamp, Option<TimeSpan>),
)
    ensures
        WorkflowUsageStats::unused(made).recorded(first.0, first.1).recorded(
            second.0,
            second.1,
        ).recorded(third.0, third.1).usage_count == 3,
{
}

} // verus!
