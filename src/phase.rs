//! The two daily phases and the mathematical model of which one is active.

use vstd::prelude::*;
use crate::time::NANOS_PER_DAY;

verus! {

/// One of the two recurring daily phases.
#[derive(Clone, Copy, Debug, PartialEq, Eq, Structural)]
pub enum Phase {
    Day,
    Night,
}

/// The textual name of a phase.
pub open spec fn phase_name(p: Phase) -> Seq<char> {
    match p {
        Phase::Day => "Day"@,
        Phase::Night => "Night"@,
    }
}

impl Phase {
    /// The phase's name, `Day` or `Night`.
    pub fn name(&self) -> (r: String)
        ensures
            r@ == phase_name(*self),
    {
        match self {
            Phase::Day => String::from_str("Day"),
            Phase::Night => String::from_str("Night"),
        }
    }
}

/// Whether `t` lies in the half-open window `[start, end)` of the daily
/// cycle, where a window whose end comes before its start runs through
/// midnight. An empty window (`start == end`) holds no time.
pub open spec fn in_cyclic_window(start: int, end: int, t: int) -> bool {
    if start <= end {
        start <= t && t < end
    } else {
        start <= t || t < end
    }
}

/// The phase active at time `t`, for a day starting at `day` and a night
/// starting at `night` (all in nanoseconds past midnight): day from its
/// start up to the start of night, night the rest of the cycle. Where the
/// two starts are equal, the night holds all day.
pub open spec fn phase_at(day: int, night: int, t: int) -> Phase {
    if in_cyclic_window(day, night, t) {
        Phase::Day
    } else {
        Phase::Night
    }
}

/// The instant that follows `t` in the daily cycle, one nanosecond later.
pub open spec fn next_instant(t: int) -> int {
    if t + 1 == NANOS_PER_DAY {
        0
    } else {
        t + 1
    }
}

/// With distinct boundaries, the phase changes from one instant to the next
/// exactly when the later instant is one of the two boundaries: the day
/// begins at its start, the night at its own, and nowhere else.
pub proof fn lemma_phase_changes_exactly_at_boundaries(day: int, night: int, t: int)
    requires
        0 <= day < NANOS_PER_DAY,
        0 <= night < NANOS_PER_DAY,
        0 <= t < NANOS_PER_DAY,
        day != night,
    ensures
        phase_at(day, night, day) == Phase::Day,
        phase_at(day, night, night) == Phase::Night,
        (phase_at(day, night, next_instant(t)) != phase_at(day, night, t)) <==> (next_instant(t)
            == day || next_instant(t) == night),
{
}

/// Where the two boundaries are equal, one phase holds at every instant.
pub proof fn lemma_equal_boundaries_single_phase(boundary: int, t: int, u: int)
    ensures
        phase_at(boundary, boundary, t) == phase_at(boundary, boundary, u),
        phase_at(boundary, boundary, t) == Phase::Night,
{
}

} // verus!
