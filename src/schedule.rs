//! The day/night schedule: two boundary times rotated onto a timeline whose
//! zero is the earliest boundary, and the lookup of the active phase.

use vstd::prelude::*;
use crate::phase::{
    Phase,
    lemma_equal_boundaries_single_phase,
    lemma_phase_changes_exactly_at_boundaries,
    next_instant,
    phase_at,
};
use crate::time::{TimeOfDay, NANOS_PER_DAY};

verus! {

/// A phase and the time at which it begins.
#[derive(Clone, Copy, Debug, PartialEq, Eq, Structural)]
pub struct PhaseTrigger {
    pub start: TimeOfDay,
    pub phase: Phase,
}

/// Two triggers, one per phase, sorted by start and rotated so that the
/// first starts at midnight, with the (non-positive) offset in nanoseconds
/// that carries a wall-clock time into the rotated frame.
pub struct PhaseSchedule {
    triggers: Vec<PhaseTrigger>,
    zero_offset: i64,
}

/// The phase of the last trigger, among the first `k`, whose start is at or
/// before `t`; `default` where there is none.
pub open spec fn last_started(triggers: Seq<PhaseTrigger>, t: int, k: nat, default: Phase) -> Phase
    decreases k,
{
    if k == 0 {
        default
    } else if triggers[k - 1].start@ <= t {
        triggers[k - 1].phase
    } else {
        last_started(triggers, t, (k - 1) as nat, default)
    }
}

impl PhaseSchedule {
    /// The rotated triggers, in order.
    pub closed spec fn spec_triggers(&self) -> Seq<PhaseTrigger> {
        self.triggers@
    }

    /// The rotation in nanoseconds: minus the earliest boundary.
    pub closed spec fn spec_zero_offset(&self) -> int {
        self.zero_offset as int
    }

    /// Exactly two triggers, one per phase; the first starts at midnight and
    /// the second no earlier; undoing the rotation keeps both within the
    /// day; where both start together, the day's trigger sorts first.
    pub open spec fn wf(&self) -> bool {
        let ts = self.spec_triggers();
        &&& ts.len() == 2
        &&& ts[0].start@ == 0
        &&& ts[0].phase != ts[1].phase
        &&& -NANOS_PER_DAY < self.spec_zero_offset() <= 0
        &&& ts[1].start@ - self.spec_zero_offset() < NANOS_PER_DAY
        &&& (ts[1].start@ == 0 ==> ts[0].phase == Phase::Day)
    }

    /// The configured wall-clock start of phase `p`, undoing the rotation.
    pub open spec fn boundary(&self, p: Phase) -> int {
        let ts = self.spec_triggers();
        let i = if ts[0].phase == p { 0int } else { 1int };
        ts[i].start@ - self.spec_zero_offset()
    }

    /// The phase active at wall-clock time `now`.
    pub open spec fn phase_spec(&self, now: TimeOfDay) -> Phase {
        phase_at(self.boundary(Phase::Day), self.boundary(Phase::Night), now@ as int)
    }

    /// The schedule with the day starting at `day_start` and the night at
    /// `night_start`. The triggers are sorted by start, the day's first
    /// where the two are equal, then rotated by minus the earliest start.
    pub fn new(day_start: TimeOfDay, night_start: TimeOfDay) -> (r: PhaseSchedule)
        requires
            day_start.wf(),
            night_start.wf(),
        ensures
            r.wf(),
            r.boundary(Phase::Day) == day_start@,
            r.boundary(Phase::Night) == night_start@,
            r.spec_zero_offset() == -(if day_start@ <= night_start@ {
                day_start@
            } else {
                night_start@
            }),
            r.spec_triggers()[0].start@ == 0,
            r.spec_triggers()[0].start@ <= r.spec_triggers()[1].start@,
            day_start@ != night_start@ ==> 0 < r.spec_triggers()[1].start@ < NANOS_PER_DAY,
    {
        let d = day_start.nanos_of_day();
        let n = night_start.nanos_of_day();
        let (first, second) = if n < d {
            (
                PhaseTrigger { start: night_start, phase: Phase::Night },
                PhaseTrigger { start: day_start, phase: Phase::Day },
            )
        } else {
            (
                PhaseTrigger { start: day_start, phase: Phase::Day },
                PhaseTrigger { start: night_start, phase: Phase::Night },
            )
        };
        let earliest = first.start.nanos_of_day();
        let mut triggers: Vec<PhaseTrigger> = Vec::new();
        triggers.push(PhaseTrigger { start: TimeOfDay::midnight(), phase: first.phase });
        triggers.push(
            PhaseTrigger {
                start: TimeOfDay::from_nanos_of_day(second.start.nanos_of_day() - earliest),
                phase: second.phase,
            },
        );
        PhaseSchedule { triggers, zero_offset: -(earliest as i64) }
    }

    /// The rotated triggers, sorted by start.
    pub fn triggers(&self) -> (r: &Vec<PhaseTrigger>)
        ensures
            r@ == self.spec_triggers(),
    {
        &self.triggers
    }

    /// The rotation applied to wall-clock times, in nanoseconds.
    pub fn zero_offset_nanos(&self) -> (r: i64)
        ensures
            r == self.spec_zero_offset(),
    {
        self.zero_offset
    }

    /// The configured start of phase `p`.
    pub fn start_of(&self, p: Phase) -> (r: TimeOfDay)
        requires
            self.wf(),
        ensures
            r.wf(),
            r@ == self.boundary(p),
    {
        let i: usize = if self.triggers[0].phase == p { 0 } else { 1 };
        let back = (-self.zero_offset) as u64;
        TimeOfDay::from_nanos_of_day(self.triggers[i].start.nanos_of_day() + back)
    }

    /// The phase active at wall-clock time `now`: `now` is carried into the
    /// rotated frame, and the last trigger that has started by then wins.
    pub fn current_phase(&self, now: TimeOfDay) -> (r: Phase)
        requires
            self.wf(),
            now.wf(),
        ensures
            r == self.phase_spec(now),
    {
        let t = now.nanos_of_day();
        let back = (-self.zero_offset) as u64;
        let rotated: u64 = if t >= back {
            t - back
        } else {
            t + NANOS_PER_DAY - back
        };
        let mut phase = self.triggers[0].phase;
        let mut i: usize = 0;
        while i < self.triggers.len()
            invariant
                self.wf(),
                i <= self.triggers@.len(),
                phase == last_started(self.triggers@, rotated as int, i as nat, self.triggers@[0].phase),
            decreases self.triggers@.len() - i,
        {
            if self.triggers[i].start.nanos_of_day() <= rotated {
                phase = self.triggers[i].phase;
            }
            i += 1;
        }
        proof {
            reveal_with_fuel(last_started, 3);
        }
        phase
    }
}

/// Every instant has exactly one phase, and with distinct boundaries the
/// phase changes from one instant to the next exactly where the later one
/// is a configured boundary: the day begins at its start, the night at its
/// own, so the two phases split the cycle with no gap.
pub proof fn lemma_schedule_changes_at_boundaries(s: PhaseSchedule, now: TimeOfDay, next: TimeOfDay)
    requires
        s.wf(),
        now.wf(),
        next.wf(),
        next@ == next_instant(now@ as int),
        s.boundary(Phase::Day) != s.boundary(Phase::Night),
    ensures
        s.phase_spec(now) == Phase::Day || s.phase_spec(now) == Phase::Night,
        (s.phase_spec(next) != s.phase_spec(now)) <==> (next@ == s.boundary(Phase::Day) || next@
            == s.boundary(Phase::Night)),
{
    lemma_phase_changes_exactly_at_boundaries(
        s.boundary(Phase::Day),
        s.boundary(Phase::Night),
        now@ as int,
    );
}

/// Where the day and the night start at the same time, the same phase (the
/// night) is active at every instant.
pub proof fn lemma_schedule_equal_boundaries(s: PhaseSchedule, now: TimeOfDay, other: TimeOfDay)
    requires
        s.wf(),
        s.boundary(Phase::Day) == s.boundary(Phase::Night),
    ensures
        s.phase_spec(now) == s.phase_spec(other),
        s.phase_spec(now) == Phase::Night,
{
    lemma_equal_boundaries_single_phase(s.boundary(Phase::Day), now@ as int, other@ as int);
}

/// A query has no hidden state: the phase at a time is fixed by the
/// schedule and the time alone, so two queries with the same time agree.
pub proof fn lemma_repeated_queries_agree(s: PhaseSchedule, now: TimeOfDay, first: Phase, second: Phase)
    requires
        s.wf(),
        now.wf(),
        first == s.phase_spec(now),
        second == s.phase_spec(now),
    ensures
        first == second,
{
}

} // verus!
