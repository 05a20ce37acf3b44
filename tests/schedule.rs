use day_night_cycle::phase::Phase;
use day_night_cycle::schedule::PhaseSchedule;
use day_night_cycle::time::{TimeOfDay, NANOS_PER_DAY, NANOS_PER_HOUR, NANOS_PER_MINUTE};

fn hm(hour: u32, minute: u32) -> TimeOfDay {
    TimeOfDay::from_hms(hour, minute, 0).unwrap()
}

#[test]
fn wraparound_night_crosses_midnight() {
    let s = PhaseSchedule::new(hm(6, 0), hm(22, 0));
    assert_eq!(s.current_phase(hm(5, 59)), Phase::Night);
    assert_eq!(s.current_phase(hm(6, 0)), Phase::Day);
    assert_eq!(s.current_phase(hm(21, 59)), Phase::Day);
    assert_eq!(s.current_phase(hm(22, 0)), Phase::Night);
    assert_eq!(s.current_phase(hm(23, 30)), Phase::Night);
    assert_eq!(s.current_phase(hm(0, 30)), Phase::Night);
}

#[test]
fn rotation_puts_earliest_boundary_at_midnight() {
    let s = PhaseSchedule::new(hm(2, 0), hm(18, 0));
    let triggers = s.triggers();
    assert_eq!(triggers.len(), 2);
    assert_eq!(triggers[0].phase, Phase::Day);
    assert_eq!(triggers[0].start, TimeOfDay::midnight());
    assert_eq!(triggers[1].phase, Phase::Night);
    assert_eq!(triggers[1].start, hm(16, 0));
    assert_eq!(s.zero_offset_nanos(), -(2 * NANOS_PER_HOUR as i64));
    assert_eq!(s.current_phase(hm(1, 59)), Phase::Night);
    assert_eq!(s.current_phase(hm(2, 0)), Phase::Day);
}

#[test]
fn night_before_day_sorts_night_first() {
    let s = PhaseSchedule::new(hm(6, 0), hm(2, 0));
    let triggers = s.triggers();
    assert_eq!(triggers[0].phase, Phase::Night);
    assert_eq!(triggers[0].start, TimeOfDay::midnight());
    assert_eq!(triggers[1].phase, Phase::Day);
    assert_eq!(triggers[1].start, hm(4, 0));
    assert_eq!(s.zero_offset_nanos(), -(2 * NANOS_PER_HOUR as i64));
    assert_eq!(s.current_phase(hm(1, 59)), Phase::Day);
    assert_eq!(s.current_phase(hm(2, 0)), Phase::Night);
    assert_eq!(s.current_phase(hm(5, 59)), Phase::Night);
    assert_eq!(s.current_phase(hm(6, 0)), Phase::Day);
    assert_eq!(s.current_phase(hm(23, 59)), Phase::Day);
}

#[test]
fn distinct_boundaries_give_normalized_triggers() {
    let pairs = [(6, 0, 22, 0), (2, 0, 18, 0), (6, 0, 2, 0), (0, 0, 23, 59), (23, 59, 0, 0)];
    for (dh, dm, nh, nm) in pairs {
        let s = PhaseSchedule::new(hm(dh, dm), hm(nh, nm));
        let triggers = s.triggers();
        assert_eq!(triggers.len(), 2);
        assert_eq!(triggers[0].start.nanos_of_day(), 0);
        let second = triggers[1].start.nanos_of_day();
        assert!(second > 0 && second < NANOS_PER_DAY);
        assert_ne!(triggers[0].phase, triggers[1].phase);
    }
}

#[test]
fn phase_changes_exactly_at_the_two_boundaries() {
    let pairs = [(6, 0, 22, 0), (2, 0, 18, 0), (6, 0, 2, 0), (0, 0, 12, 0), (13, 17, 4, 45)];
    for (dh, dm, nh, nm) in pairs {
        let day = hm(dh, dm);
        let night = hm(nh, nm);
        let s = PhaseSchedule::new(day, night);
        let mut changes = Vec::new();
        let mut previous = s.current_phase(hm(23, 59));
        for minute in 0..(24 * 60) {
            let now = TimeOfDay::from_nanos_of_day(minute as u64 * NANOS_PER_MINUTE);
            let phase = s.current_phase(now);
            if phase != previous {
                changes.push((now, phase));
            }
            previous = phase;
        }
        assert_eq!(changes.len(), 2);
        assert!(changes.contains(&(day, Phase::Day)));
        assert!(changes.contains(&(night, Phase::Night)));
    }
}

#[test]
fn repeated_queries_agree() {
    let s = PhaseSchedule::new(hm(6, 0), hm(22, 0));
    for minute in [0u32, 359, 360, 1319, 1320, 1439] {
        let now = hm(minute / 60, minute % 60);
        let first = s.current_phase(now);
        let second = s.current_phase(now);
        assert_eq!(first, second);
    }
}

#[test]
fn equal_boundaries_keep_one_phase_all_day() {
    let s = PhaseSchedule::new(hm(7, 30), hm(7, 30));
    let triggers = s.triggers();
    assert_eq!(triggers[0].phase, Phase::Day);
    assert_eq!(triggers[1].phase, Phase::Night);
    assert_eq!(triggers[1].start, TimeOfDay::midnight());
    for minute in 0..(24 * 60) {
        let now = TimeOfDay::from_nanos_of_day(minute as u64 * NANOS_PER_MINUTE);
        assert_eq!(s.current_phase(now), Phase::Night);
    }
}

#[test]
fn start_of_undoes_the_rotation() {
    let s = PhaseSchedule::new(hm(6, 0), hm(2, 0));
    assert_eq!(s.start_of(Phase::Day), hm(6, 0));
    assert_eq!(s.start_of(Phase::Night), hm(2, 0));
}

#[test]
fn sub_minute_times_resolve_at_the_boundary() {
    let s = PhaseSchedule::new(hm(6, 0), hm(22, 0));
    let just_before = TimeOfDay::from_hms_nano(5, 59, 59, 999_999_999).unwrap();
    assert_eq!(s.current_phase(just_before), Phase::Night);
    let last = TimeOfDay::from_nanos_of_day(NANOS_PER_DAY - 1);
    assert_eq!(s.current_phase(last), Phase::Night);
}
