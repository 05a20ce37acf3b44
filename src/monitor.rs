//! The phase monitor: the decisions of the once-a-minute loop, as a state
//! machine that returns the store commands to carry out.

use vstd::prelude::*;
use crate::phase::{Phase, phase_name};
use crate::schedule::PhaseSchedule;
use crate::time::{TimeOfDay, hh_mm_text, hour_of, minute_of};

verus! {

/// A write to, or a broadcast through, the outside key-value store.
#[derive(Debug)]
pub enum SinkCommand {
    /// Upsert several fields of a collection in one batch.
    SetFields { collection: String, fields: Vec<(String, String)> },
    /// Upsert one field of a collection.
    SetField { collection: String, field: String, value: String },
    /// Publish a message on a channel.
    Broadcast { channel: String, message: String },
}

/// A store command with its texts as character sequences.
pub enum SinkOp {
    SetFields(Seq<char>, Seq<(Seq<char>, Seq<char>)>),
    SetField(Seq<char>, Seq<char>, Seq<char>),
    Broadcast(Seq<char>, Seq<char>),
}

impl View for SinkCommand {
    type V = SinkOp;

    open spec fn view(&self) -> SinkOp {
        match self {
            SinkCommand::SetFields { collection, fields } => SinkOp::SetFields(
                collection@,
                fields@.map_values(|f: (String, String)| (f.0@, f.1@)),
            ),
            SinkCommand::SetField { collection, field, value } => SinkOp::SetField(
                collection@,
                field@,
                value@,
            ),
            SinkCommand::Broadcast { channel, message } => SinkOp::Broadcast(channel@, message@),
        }
    }
}

/// The views of a list of commands.
pub open spec fn ops_of(cmds: Seq<SinkCommand>) -> Seq<SinkOp> {
    cmds.map_values(|c: SinkCommand| c@)
}

pub open spec fn collection_name() -> Seq<char> {
    "day-night-cycle"@
}

pub open spec fn day_field() -> Seq<char> {
    "start_time_day"@
}

pub open spec fn night_field() -> Seq<char> {
    "start_time_night"@
}

pub open spec fn phase_field() -> Seq<char> {
    "current_phase"@
}

/// The channel on which a field of the collection is broadcast.
pub open spec fn channel_of(field: Seq<char>) -> Seq<char> {
    collection_name() + "/"@ + field
}

/// `HH:MM` text of the configured start of phase `p`.
pub open spec fn start_text(s: PhaseSchedule, p: Phase) -> Seq<char> {
    hh_mm_text(hour_of(s.boundary(p) as nat), minute_of(s.boundary(p) as nat))
}

/// What is published once at startup: the three fields in one batch, then
/// each of them on its own channel.
pub open spec fn startup_ops(day_text: Seq<char>, night_text: Seq<char>, phase: Phase) -> Seq<SinkOp> {
    seq![
        SinkOp::SetFields(
            collection_name(),
            seq![
                (day_field(), day_text),
                (night_field(), night_text),
                (phase_field(), phase_name(phase)),
            ],
        ),
        SinkOp::Broadcast(channel_of(day_field()), day_text),
        SinkOp::Broadcast(channel_of(night_field()), night_text),
        SinkOp::Broadcast(channel_of(phase_field()), phase_name(phase)),
    ]
}

/// What is published on a change to `phase`: the field is written before
/// the broadcast.
pub open spec fn phase_change_ops(phase: Phase) -> Seq<SinkOp> {
    seq![
        SinkOp::SetField(collection_name(), phase_field(), phase_name(phase)),
        SinkOp::Broadcast(channel_of(phase_field()), phase_name(phase)),
    ]
}

fn collection_text() -> (r: String)
    ensures
        r@ == collection_name(),
{
    String::from_str("day-night-cycle")
}

fn day_field_text() -> (r: &'static str)
    ensures
        r@ == day_field(),
{
    "start_time_day"
}

fn night_field_text() -> (r: &'static str)
    ensures
        r@ == night_field(),
{
    "start_time_night"
}

fn phase_field_text() -> (r: &'static str)
    ensures
        r@ == phase_field(),
{
    "current_phase"
}

fn channel_text(field: &str) -> (r: String)
    ensures
        r@ == channel_of(field@),
{
    collection_text().concat("/").concat(field)
}

/// The monitor's state: the schedule and the phase last published.
pub struct PhaseMonitor {
    schedule: PhaseSchedule,
    phase: Phase,
}

impl PhaseMonitor {
    pub closed spec fn spec_schedule(&self) -> PhaseSchedule {
        self.schedule
    }

    pub closed spec fn spec_phase(&self) -> Phase {
        self.phase
    }

    pub open spec fn wf(&self) -> bool {
        self.spec_schedule().wf()
    }

    /// A monitor that starts in the phase active at `now`.
    pub fn new(schedule: PhaseSchedule, now: TimeOfDay) -> (r: PhaseMonitor)
        requires
            schedule.wf(),
            now.wf(),
        ensures
            r.wf(),
            r.spec_schedule() == schedule,
            r.spec_phase() == schedule.phase_spec(now),
    {
        let phase = schedule.current_phase(now);
        PhaseMonitor { schedule, phase }
    }

    /// The phase last published.
    pub fn phase(&self) -> (r: Phase)
        ensures
            r == self.spec_phase(),
    {
        self.phase
    }

    pub fn schedule(&self) -> (r: &PhaseSchedule)
        ensures
            *r == self.spec_schedule(),
    {
        &self.schedule
    }

    /// The commands that publish the schedule and the current phase at
    /// startup.
    pub fn startup_commands(&self) -> (r: Vec<SinkCommand>)
        requires
            self.wf(),
        ensures
            ops_of(r@) == startup_ops(
                start_text(self.spec_schedule(), Phase::Day),
                start_text(self.spec_schedule(), Phase::Night),
                self.spec_phase(),
            ),
    {
        let day_text = self.schedule.start_of(Phase::Day).to_hh_mm();
        let night_text = self.schedule.start_of(Phase::Night).to_hh_mm();
        let mut fields: Vec<(String, String)> = Vec::new();
        fields.push((String::from_str(day_field_text()), day_text.clone()));
        fields.push((String::from_str(night_field_text()), night_text.clone()));
        fields.push((String::from_str(phase_field_text()), self.phase.name()));
        let ghost field_list = fields;
        let mut r: Vec<SinkCommand> = Vec::new();
        r.push(SinkCommand::SetFields { collection: collection_text(), fields });
        r.push(SinkCommand::Broadcast { channel: channel_text(day_field_text()), message: day_text });
        r.push(
            SinkCommand::Broadcast { channel: channel_text(night_field_text()), message: night_text },
        );
        r.push(
            SinkCommand::Broadcast {
                channel: channel_text(phase_field_text()),
                message: self.phase.name(),
            },
        );
        proof {
            assert(field_list@.map_values(|f: (String, String)| (f.0@, f.1@)) =~= seq![
                (day_field(), start_text(self.spec_schedule(), Phase::Day)),
                (night_field(), start_text(self.spec_schedule(), Phase::Night)),
                (phase_field(), phase_name(self.spec_phase())),
            ]);
            assert(ops_of(r@) =~= startup_ops(
                start_text(self.spec_schedule(), Phase::Day),
                start_text(self.spec_schedule(), Phase::Night),
                self.spec_phase(),
            ));
        }
        r
    }

    /// One tick of the loop at wall-clock time `now`: where the active phase
    /// differs from the one last published, it becomes the monitor's phase
    /// and the commands that publish it are returned; otherwise none.
    pub fn observe(&mut self, now: TimeOfDay) -> (r: Vec<SinkCommand>)
        requires
            old(self).wf(),
            now.wf(),
        ensures
            final(self).wf(),
            final(self).spec_schedule() == old(self).spec_schedule(),
            final(self).spec_phase() == old(self).spec_schedule().phase_spec(now),
            ops_of(r@) == if final(self).spec_phase() == old(self).spec_phase() {
                Seq::<SinkOp>::empty()
            } else {
                phase_change_ops(final(self).spec_phase())
            },
    {
        let ghost previous = self.phase;
        let new_phase = self.schedule.current_phase(now);
        let mut r: Vec<SinkCommand> = Vec::new();
        if new_phase != self.phase {
            self.phase = new_phase;
            r.push(
                SinkCommand::SetField {
                    collection: collection_text(),
                    field: String::from_str(phase_field_text()),
                    value: new_phase.name(),
                },
            );
            r.push(
                SinkCommand::Broadcast {
                    channel: channel_text(phase_field_text()),
                    message: new_phase.name(),
                },
            );
        }
        proof {
            if self.phase == previous {
                assert(ops_of(r@) =~= Seq::<SinkOp>::empty());
            } else {
                assert(ops_of(r@) =~= phase_change_ops(self.phase));
            }
        }
        r
    }
}

} // verus!
