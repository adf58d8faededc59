//! Watching how fast frames are drawn and how much memory is taken.

use vstd::prelude::*;
use crate::outside::{instant_now, time_between};
use crate::time::TimeSpan;

verus! {

/// How many measurements of a kind are kept.
pub const WINDOW: usize = 60;

/// The nanoseconds that must have passed before memory is reclaimed again.
pub const RECLAIM_AFTER_NANOS: u128 = 30_000_000_000;

/// The last frame times and memory readings, and when memory was last reclaimed.
#[derive(Debug)]
pub struct PerformanceMonitor {
    frame_times: Vec<TimeSpan>,
    memory_usage: Vec<usize>,
    started: std::time::Instant,
    last_gc: TimeSpan,
}

/// The measurements after one more was taken: it stands last, and the oldest
/// is dropped where more than `WINDOW` would be kept.
pub open spec fn kept<T>(before: Seq<T>, value: T) -> Seq<T> {
    if before.len() + 1 > WINDOW {
        before.push(value).drop_first()
    } else {
        before.push(value)
    }
}

/// The sum of the first `n` lengths of time, in nanoseconds.
pub open spec fn total_nanos(times: Seq<TimeSpan>, n: nat) -> nat
    decreases n,
{
    if n == 0 || n > times.len() {
        0
    } else {
        total_nanos(times, (n - 1) as nat) + times[n - 1].nanos as nat
    }
}

/// The mean of the lengths of time, rounded down to the nanosecond; `None`
/// where there are none.
pub open spec fn mean(times: Seq<TimeSpan>) -> Option<TimeSpan> {
    if times.len() == 0 {
        None
    } else {
        Some(TimeSpan { nanos: (total_nanos(times, times.len()) / times.len()) as u128 })
    }
}

/// The sum of the first `n` lengths is at most `n` times the largest number
/// of nanoseconds there is.
pub proof fn lemma_total_bound(times: Seq<TimeSpan>, n: nat)
    requires
        n <= times.len(),
    ensures
        total_nanos(times, n) <= n * u128::MAX,
    decreases n,
{
    if n > 0 {
        lemma_total_bound(times, (n - 1) as nat);
        assert((n - 1) * u128::MAX + u128::MAX == n * u128::MAX) by (nonlinear_arith);
    }
}

/// Whether memory is to be reclaimed after this much time.
pub fn reclaim_is_due(elapsed: TimeSpan) -> (due: bool)
    ensures
        due == (elapsed.nanos > RECLAIM_AFTER_NANOS),
{
    elapsed.nanos > RECLAIM_AFTER_NANOS
}

impl PerformanceMonitor {
    /// The frame times that are kept, the oldest first.
    pub closed spec fn frame_times(&self) -> Seq<TimeSpan> {
        self.frame_times@
    }

    /// The memory readings that are kept, the oldest first.
    pub closed spec fn memory_usage(&self) -> Seq<usize> {
        self.memory_usage@
    }

    /// A monitor that has measured nothing yet and counts its time from now.
    pub fn new() -> (monitor: Self)
        ensures
            monitor.frame_times() == Seq::<TimeSpan>::empty(),
            monitor.memory_usage() == Seq::<usize>::empty(),
            monitor.last_reclaim() == (TimeSpan { nanos: 0 }),
    {
        PerformanceMonitor {
            frame_times: Vec::with_capacity(WINDOW),
            memory_usage: Vec::with_capacity(WINDOW),
            started: instant_now(),
            last_gc: TimeSpan { nanos: 0 },
        }
    }

    /// Takes in the time a frame took. Of more than `WINDOW` frame times the
    /// oldest is dropped.
    pub fn record_frame_time(&mut self, duration: TimeSpan)
        ensures
            final(self).frame_times() == kept(old(self).frame_times(), duration),
            final(self).memory_usage() == old(self).memory_usage(),
            final(self).last_reclaim() == old(self).last_reclaim(),
            old(self).frame_times().len() <= WINDOW ==> final(self).frame_times().len() <= WINDOW,
    {
        self.frame_times.push(duration);
        if self.frame_times.len() > WINDOW {
            self.frame_times.remove(0);
            assert(self.frame_times@ =~= old(self).frame_times@.push(duration).drop_first());
        }
    }

    /// How long the monitor had run when memory was last reclaimed; no time
    /// at all before the first reclaiming.
    pub closed spec fn last_reclaim(&self) -> TimeSpan {
        self.last_gc
    }

    /// Memory is to be reclaimed when the monitor has run for `running`: that
    /// is more than thirty seconds past the last reclaiming.
    pub open spec fn reclaim_falls_due(last: TimeSpan, running: TimeSpan) -> bool {
        running.nanos > last.nanos + RECLAIM_AFTER_NANOS
    }

    /// The mean of the frame times that are kept, rounded down to the
    /// nanosecond; `None` where none is kept.
    pub fn average_frame_time(&self) -> (average: Option<TimeSpan>)
        ensures
            average == mean(self.frame_times()),
    {
        let n = self.frame_times.len();
        if n == 0 {
            return None;
        }
        let count: u128 = n as u128;
        let ghost times = self.frame_times@;
        // The mean of the first `i` times is `whole + part / count`, where
        // `whole` adds up the quotients and `part` the remainders.
        let mut whole: u128 = 0;
        let mut part: u128 = 0;
        let mut i: usize = 0;
        while i < n
            invariant
                i <= n,
                n == self.frame_times.len(),
                times == self.frame_times@,
                count == n,
                count > 0,
                total_nanos(times, i as nat) == whole * count + part,
                part <= i * (count - 1),
            decreases n - i,
        {
            let x = self.frame_times[i].nanos;
            let q = x / count;
            let r = x % count;
            proof {
                lemma_total_bound(times, (i + 1) as nat);
                assert(x == q * count + r) by (nonlinear_arith)
                    requires
                        q == x / count,
                        r == x % count,
                        count > 0,
                ;
                assert((whole + q) * count == whole * count + q * count) by (nonlinear_arith);
                assert((whole + q) * count <= (i + 1) * u128::MAX);
                assert((i + 1) * u128::MAX <= count * u128::MAX) by (nonlinear_arith)
                    requires
                        i + 1 <= count,
                ;
                assert(whole + q <= u128::MAX) by (nonlinear_arith)
                    requires
                        (whole + q) * count <= count * u128::MAX,
                        count > 0,
                ;
                assert((i + 1) * (count - 1) == i * (count - 1) + (count - 1))
                    by (nonlinear_arith);
                assert(i * (count - 1) + (count - 1) <= count * count) by (nonlinear_arith)
                    requires
                        i + 1 <= count,
                        count > 0,
                ;
                assert(count * count <= 0xffff_ffff_ffff_ffff * 0xffff_ffff_ffff_ffff)
                    by (nonlinear_arith)
                    requires
                        0 < count <= 0xffff_ffff_ffff_ffff,
                ;
            }
            whole = whole + q;
            part = part + r;
            i += 1;
        }
        let extra = part / count;
        proof {
            let total = total_nanos(times, n as nat);
            lemma_total_bound(times, n as nat);
            assert(total / (count as nat) == whole + extra) by (nonlinear_arith)
                requires
                    total == whole * count + part,
                    extra == part / count,
                    count > 0,
            ;
            assert(total / (count as nat) <= u128::MAX) by (nonlinear_arith)
                requires
                    total <= count * u128::MAX,
                    count > 0,
            ;
        }
        Some(TimeSpan { nanos: whole + extra })
    }

    /// Whether memory is to be reclaimed now: it is when more than thirty
    /// seconds have passed since it last was, or since the monitor began to run.
    /// The time that the monitor has run is then noted as that of the last
    /// reclaiming; else that stays. The measurements stay as they are.
    pub fn should_trigger_gc(&mut self) -> (due: bool)
        ensures
            final(self).frame_times() == old(self).frame_times(),
            final(self).memory_usage() == old(self).memory_usage(),
            due ==> final(self).last_reclaim().nanos > old(self).last_reclaim().nanos
                + RECLAIM_AFTER_NANOS,
            !due ==> final(self).last_reclaim() == old(self).last_reclaim(),
    {
        let moment = instant_now();
        let running = time_between(&moment, &self.started);
        self.should_trigger_gc_after(running)
    }

    /// Whether memory is to be reclaimed when the monitor has run for
    /// `running`: it is when that is more than thirty seconds past the last
    /// reclaiming, and `running` is then noted as the time of the last
    /// reclaiming. The measurements stay as they are.
    pub fn should_trigger_gc_after(&mut self, running: TimeSpan) -> (due: bool)
        ensures
            due == Self::reclaim_falls_due(old(self).last_reclaim(), running),
            final(self).last_reclaim() == (if due {
                running
            } else {
                old(self).last_reclaim()
            }),
            final(self).frame_times() == old(self).frame_times(),
            final(self).memory_usage() == old(self).memory_usage(),
    {
        let elapsed = if running.nanos > self.last_gc.nanos {
            TimeSpan { nanos: running.nanos - self.last_gc.nanos }
        } else {
            TimeSpan { nanos: 0 }
        };
        if reclaim_is_due(elapsed) {
            self.last_gc = running;
            true
        } else {
            false
        }
    }

    /// Takes in a reading of the memory in use. Of more than `WINDOW`
    /// readings the oldest is dropped.
    pub fn record_memory_usage(&mut self, bytes: usize)
        ensures
            final(self).memory_usage() == kept(old(self).memory_usage(), bytes),
            final(self).frame_times() == old(self).frame_times(),
            final(self).last_reclaim() == old(self).last_reclaim(),
            old(self).memory_usage().len() <= WINDOW ==> final(self).memory_usage().len()
                <= WINDOW,
    {
        self.memory_usage.push(bytes);
        if self.memory_usage.len() > WINDOW {
            self.memory_usage.remove(0);
            assert(self.memory_usage@ =~= old(self).memory_usage@.push(bytes).drop_first());
        }
    }
}

} // verus!
