//! The housekeeping aggregator: per-channel counts summed over windows of
//! thirty seconds.
//!
//! One window is open at any time and takes the counts of every poll. When a
//! poll finds the open window thirty seconds old or older, the window is
//! closed: it becomes the previous window, and a new one opens at the time
//! of that poll. The new window starts at the time observed, not at a
//! multiple of the window length, so one late check closes one window and no
//! more.

use crate::models::housekeeping::RCHk;
use vstd::prelude::*;

verus! {

/// Length of an aggregation window, in seconds.
pub const WINDOW_SECS: u64 = 30;

/// One raw reading: the count of each channel since the poll before.
/// A counter with three channels leaves the last two at zero.
#[derive(Clone, Copy, Debug, PartialEq, Eq, Structural)]
pub struct Counts {
    /// Count of channel 1
    pub rc1: u16,
    /// Count of channel 2
    pub rc2: u16,
    /// Count of channel 3
    pub rc3: u16,
    /// Count of channel 4
    pub rc4: u16,
    /// Count of channel 5
    pub rc5: u16,
}

impl Counts {
    /// The reading of a three-channel counter.
    pub open spec fn spec_from_triple(triple: (u16, u16, u16)) -> Counts {
        Counts { rc1: triple.0, rc2: triple.1, rc3: triple.2, rc4: 0, rc5: 0 }
    }

    /// The reading of a three-channel counter.
    #[verifier::when_used_as_spec(spec_from_triple)]
    pub fn from_triple(triple: (u16, u16, u16)) -> (counts: Counts)
        ensures
            counts == Counts::spec_from_triple(triple),
    {
        Counts { rc1: triple.0, rc2: triple.1, rc3: triple.2, rc4: 0, rc5: 0 }
    }
}

/// A running sum after one more count: the sum and the count added, or
/// `i32::MAX` where that would pass it.
pub open spec fn capped_sum(sum: int, count: int) -> int {
    if sum + count > i32::MAX {
        i32::MAX as int
    } else {
        sum + count
    }
}

/// The sums of a window after one more reading, channel by channel.
pub open spec fn sums_with(sums: RCHk, counts: Counts) -> RCHk {
    RCHk {
        rc1_reading: capped_sum(sums.rc1_reading as int, counts.rc1 as int) as i32,
        rc2_reading: capped_sum(sums.rc2_reading as int, counts.rc2 as int) as i32,
        rc3_reading: capped_sum(sums.rc3_reading as int, counts.rc3 as int) as i32,
        rc4_reading: capped_sum(sums.rc4_reading as int, counts.rc4 as int) as i32,
        rc5_reading: capped_sum(sums.rc5_reading as int, counts.rc5 as int) as i32,
    }
}

fn add_capped(sum: i32, count: u16) -> (total: i32)
    ensures
        total == capped_sum(sum as int, count as int),
{
    let wide: i32 = count as i32;
    if sum > i32::MAX - wide {
        i32::MAX
    } else {
        sum + wide
    }
}

/// One aggregation window: when it opened and what it has summed.
#[derive(Clone, Copy, Debug, PartialEq, Eq)]
pub struct HousekeepingWindow {
    /// Time at which the window opened, in seconds
    pub start: u64,
    /// Sum of the counts of each channel since the window opened
    pub sums: RCHk,
}

/// The open window and, once a window has been closed, the last closed one.
#[derive(Clone, Copy, Debug, PartialEq, Eq)]
pub struct Aggregator {
    /// The window that takes the counts
    pub current: HousekeepingWindow,
    /// The window that was closed last, if any was
    pub previous: Option<HousekeepingWindow>,
}

impl Aggregator {
    /// The aggregator whose first window opens at `now` with nothing summed.
    pub open spec fn starting_at(now: u64) -> Aggregator {
        Aggregator { current: HousekeepingWindow { start: now, sums: RCHk::zero() }, previous: None }
    }

    /// Whether the open window is thirty seconds old or older at `now`.
    /// A clock that has gone back behind the window's start makes it no older.
    pub open spec fn spec_is_due(&self, now: u64) -> bool {
        now - self.current.start >= WINDOW_SECS
    }

    /// The aggregator after a swap at `now`: the open window is the previous
    /// one, and a window with nothing summed opens at `now`.
    pub open spec fn swapped(self, now: u64) -> Aggregator {
        Aggregator {
            current: HousekeepingWindow { start: now, sums: RCHk::zero() },
            previous: Some(self.current),
        }
    }

    /// The aggregator after `counts` went into the open window.
    pub open spec fn accumulated(self, counts: Counts) -> Aggregator {
        Aggregator {
            current: HousekeepingWindow {
                start: self.current.start,
                sums: sums_with(self.current.sums, counts),
            },
            previous: self.previous,
        }
    }

    /// The aggregator after the check at `now`: swapped if the open window
    /// was due, unchanged if not.
    pub open spec fn rolled(self, now: u64) -> Aggregator {
        if self.spec_is_due(now) {
            self.swapped(now)
        } else {
            self
        }
    }

    /// The aggregator after a poll at `now` that read `counts`: the check
    /// first, then the counts into the window that is open after it.
    pub open spec fn polled(self, now: u64, counts: Counts) -> Aggregator {
        self.rolled(now).accumulated(counts)
    }

    /// An aggregator whose first window opens at `now` with nothing summed.
    pub fn new(now: u64) -> (aggregator: Aggregator)
        ensures
            aggregator == Aggregator::starting_at(now),
    {
        Aggregator { current: HousekeepingWindow { start: now, sums: RCHk::default() }, previous: None }
    }

    /// Whether the open window is thirty seconds old or older at `now`.
    #[verifier::when_used_as_spec(spec_is_due)]
    pub fn is_due(&self, now: u64) -> (due: bool)
        ensures
            due == self.spec_is_due(now),
    {
        now >= self.current.start && now - self.current.start >= WINDOW_SECS
    }

    /// Closes the open window and opens a new one at `now`.
    pub fn swap(&mut self, now: u64)
        ensures
            *final(self) == old(self).swapped(now),
    {
        self.previous = Some(self.current);
        self.current = HousekeepingWindow { start: now, sums: RCHk::default() };
    }

    /// Adds `counts` to the sums of the open window, channel by channel.
    /// A sum that would pass `i32::MAX` stays there.
    pub fn accumulate(&mut self, counts: Counts)
        ensures
            *final(self) == old(self).accumulated(counts),
    {
        let sums = self.current.sums;
        self.current.sums = RCHk {
            rc1_reading: add_capped(sums.rc1_reading, counts.rc1),
            rc2_reading: add_capped(sums.rc2_reading, counts.rc2),
            rc3_reading: add_capped(sums.rc3_reading, counts.rc3),
            rc4_reading: add_capped(sums.rc4_reading, counts.rc4),
            rc5_reading: add_capped(sums.rc5_reading, counts.rc5),
        };
    }

    /// The check of a poll at `now`: swaps if the open window is due, once.
    /// Returns whether it swapped.
    pub fn roll(&mut self, now: u64) -> (swapped: bool)
        ensures
            swapped == old(self).spec_is_due(now),
            *final(self) == old(self).rolled(now),
            !final(self).spec_is_due(now),
    {
        if self.is_due(now) {
            self.swap(now);
            true
        } else {
            false
        }
    }

    /// A poll at `now` that read `counts`: the check, then the counts into
    /// the window that is open after it. Returns whether the check swapped.
    pub fn poll(&mut self, now: u64, counts: Counts) -> (swapped: bool)
        ensures
            swapped == old(self).spec_is_due(now),
            *final(self) == old(self).polled(now, counts),
    {
        let swapped = self.roll(now);
        self.accumulate(counts);
        swapped
    }

    /// The sums of the open window as they stand.
    pub fn snapshot(&self) -> (sums: RCHk)
        ensures
            sums == self.current.sums,
    {
        self.current.sums
    }
}

/// The aggregator after the checks at each of `ticks`, in order.
pub open spec fn after_ticks(aggregator: Aggregator, ticks: Seq<u64>) -> Aggregator
    decreases ticks.len(),
{
    if ticks.len() == 0 {
        aggregator
    } else {
        after_ticks(aggregator, ticks.drop_last()).rolled(ticks.last())
    }
}

/// How many of the checks at `ticks`, made in order, swapped.
pub open spec fn swaps_during(aggregator: Aggregator, ticks: Seq<u64>) -> nat
    decreases ticks.len(),
{
    if ticks.len() == 0 {
        0
    } else {
        let before = after_ticks(aggregator, ticks.drop_last());
        let swapped: nat = if before.spec_is_due(ticks.last()) {
            1
        } else {
            0
        };
        swaps_during(aggregator, ticks.drop_last()) + swapped
    }
}

/// Whether no tick lies before the one in front of it.
pub open spec fn in_order(ticks: Seq<u64>) -> bool {
    forall|i: int, j: int| 0 <= i <= j < ticks.len() ==> ticks[i] <= ticks[j]
}

/// One overdue check swaps once. However late the check at `now` comes, the
/// window that it opens is not due at `now`: a second check at the same
/// time changes nothing.
pub proof fn lemma_one_swap_per_check(aggregator: Aggregator, now: u64)
    ensures
        !aggregator.rolled(now).spec_is_due(now),
        aggregator.rolled(now).rolled(now) == aggregator.rolled(now),
        aggregator.spec_is_due(now) ==> aggregator.rolled(now).previous == Some(aggregator.current),
{
}

/// Counts go into the open window only: they leave its start and the
/// previous window as they are, and two readings in a row sum as their total.
pub proof fn lemma_accumulate_composes(aggregator: Aggregator, first: Counts, second: Counts)
    ensures
        aggregator.accumulated(first).current.start == aggregator.current.start,
        aggregator.accumulated(first).previous == aggregator.previous,
        aggregator.accumulated(first).accumulated(second).current.sums.rc1_reading == capped_sum(
            aggregator.current.sums.rc1_reading as int,
            first.rc1 + second.rc1,
        ),
        aggregator.accumulated(first).accumulated(second).current.sums.rc2_reading == capped_sum(
            aggregator.current.sums.rc2_reading as int,
            first.rc2 + second.rc2,
        ),
        aggregator.accumulated(first).accumulated(second).current.sums.rc3_reading == capped_sum(
            aggregator.current.sums.rc3_reading as int,
            first.rc3 + second.rc3,
        ),
        aggregator.accumulated(first).accumulated(second).current.sums.rc4_reading == capped_sum(
            aggregator.current.sums.rc4_reading as int,
            first.rc4 + second.rc4,
        ),
        aggregator.accumulated(first).accumulated(second).current.sums.rc5_reading == capped_sum(
            aggregator.current.sums.rc5_reading as int,
            first.rc5 + second.rc5,
        ),
{
}

/// A swap puts the counts of the next reading into the new window and
/// leaves the closed one as it was.
pub proof fn lemma_counts_go_to_the_open_window(aggregator: Aggregator, now: u64, counts: Counts)
    ensures
        aggregator.spec_is_due(now) ==> aggregator.polled(now, counts).previous == Some(
            aggregator.current,
        ),
        aggregator.spec_is_due(now) ==> aggregator.polled(now, counts).current.sums == sums_with(
            RCHk::zero(),
            counts,
        ),
        aggregator.spec_is_due(now) ==> aggregator.polled(now, counts).current.start == now,
        !aggregator.spec_is_due(now) ==> aggregator.polled(now, counts) == aggregator.accumulated(
            counts,
        ),
{
}

/// No window is closed twice. Over checks that come in order, the first of
/// them not before the open window's start, every swap uses up thirty
/// seconds: the open window starts at least thirty seconds per swap after
/// the start of the first one, and not after the last check.
pub proof fn lemma_swaps_are_a_window_apart(aggregator: Aggregator, ticks: Seq<u64>)
    requires
        ticks.len() > 0,
        in_order(ticks),
        aggregator.current.start <= ticks[0],
    ensures
        aggregator.current.start + WINDOW_SECS * swaps_during(aggregator, ticks) <= after_ticks(
            aggregator,
            ticks,
        ).current.start,
        after_ticks(aggregator, ticks).current.start <= ticks.last(),
        WINDOW_SECS * swaps_during(aggregator, ticks) <= ticks.last() - aggregator.current.start,
    decreases ticks.len(),
{
    let earlier = ticks.drop_last();
    if earlier.len() > 0 {
        assert(in_order(earlier));
        assert(earlier[0] == ticks[0]);
        lemma_swaps_are_a_window_apart(aggregator, earlier);
        assert(earlier.last() == ticks[ticks.len() - 2]);
        assert(earlier.last() <= ticks.last());
    } else {
        assert(ticks.last() == ticks[0]);
        assert(after_ticks(aggregator, earlier) == aggregator);
        assert(swaps_during(aggregator, earlier) == 0);
    }
}

} // verus!
