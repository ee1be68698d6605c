//! The piston, an actuator that is driven through an output line.

use crate::manufacturing_components::consumer_label;
use crate::manufacturing_components::feeder::Event;
use crate::manufacturing_components::{LineRequest, LineUse};
use std::time::Duration;
use crate::json::{json_string, quote, snapshot, snapshot_text};
use crate::manufacturing_components::{snapshot_outcome, SnapshotError};
use crate::utils::{text_at, text_or_none, Iso8601Utc};
use std::time::SystemTime;
use vstd::prelude::*;

verus! {

/// Where the piston stands.
#[derive(Clone, Copy, Debug, PartialEq, Eq, Structural)]
pub enum PistonStates {
    /// The piston is raised and awaits commands.
    Steady,
    /// The piston is at its bottom.
    Depressed,
}

impl PistonStates {
    /// The name of the state in telemetry.
    pub open spec fn spec_label(self) -> Seq<char> {
        match self {
            PistonStates::Steady => "steady"@,
            PistonStates::Depressed => "depressed"@,
        }
    }

    /// The level of the output line that holds the piston in this state.
    pub open spec fn spec_level(self) -> u8 {
        match self {
            PistonStates::Steady => 0,
            PistonStates::Depressed => 1,
        }
    }

    pub fn label(self) -> (r: &'static str)
        ensures
            r@ == self.spec_label(),
    {
        match self {
            PistonStates::Steady => "steady",
            PistonStates::Depressed => "depressed",
        }
    }

    #[verifier::when_used_as_spec(spec_level)]
    pub fn level(self) -> (r: u8)
        ensures
            r == self.spec_level(),
    {
        match self {
            PistonStates::Steady => 0,
            PistonStates::Depressed => 1,
        }
    }
}

impl Default for PistonStates {
    fn default() -> (r: PistonStates)
        ensures
            r == PistonStates::Steady,
    {
        PistonStates::Steady
    }
}

/// One step of an actuation that takes time.
#[derive(Clone, Copy, Debug, PartialEq, Eq)]
pub enum Actuation {
    /// Drive the line to the level of this state.
    Drive(PistonStates),
    /// Leave the line as it is for this long.
    Hold(Duration),
}

/// What a piston holds, as plain values.
pub struct PistonView {
    pub name: Seq<char>,
    pub state: PistonStates,
    pub line: u32,
}

impl PistonView {
    /// The JSON text of the piston's snapshot at `timestamp`: its name, the
    /// name of its state, and the time.
    pub open spec fn snapshot_at(self, timestamp: Seq<char>) -> Option<Seq<char>> {
        match json_string(self.state.spec_label()) {
            Some(state) => snapshot_text(self.name, "state"@, state, timestamp),
            None => None,
        }
    }

    /// What a snapshot taken at the instant `now` comes to: the JSON text
    /// stamped with the text of that instant, or why there is none.
    pub open spec fn snapshot_taken_at(self, now: SystemTime) -> Result<Seq<char>, SnapshotError> {
        match text_at(now) {
            None => Err(SnapshotError::ClockUnreadable),
            Some(timestamp) => match self.snapshot_at(timestamp) {
                Some(text) => Ok(text),
                None => Err(SnapshotError::NotEncodable),
            },
        }
    }
}

/// The piston: its name, the state it was last driven to, and its line. The
/// state is what was written, not something sensed.
pub struct Piston {
    name: String,
    state: PistonStates,
    line: u32,
}

impl View for Piston {
    type V = PistonView;

    closed spec fn view(&self) -> PistonView {
        PistonView { name: self.name@, state: self.state, line: self.line }
    }
}

impl Piston {
    /// A steady piston that is driven through `line`.
    pub fn new(name: &str, line: u32) -> (r: Piston)
        ensures
            r@ == (PistonView { name: name@, state: PistonStates::Steady, line }),
    {
        Piston { name: String::from_str(name), state: PistonStates::default(), line }
    }

    /// The request for the piston's line: an output that starts at the
    /// level of the steady state.
    pub fn line_request(&self) -> (r: LineRequest)
        ensures
            r.line == self@.line,
            r.purpose == (LineUse::Output { initial: PistonStates::Steady.spec_level() }),
            r.consumer@ == consumer_label(self@.name),
    {
        let mut consumer = self.name.clone();
        consumer.append(" consumer");
        LineRequest {
            line: self.line,
            purpose: LineUse::Output { initial: PistonStates::Steady.level() },
            consumer,
        }
    }

    pub fn name(&self) -> (r: &str)
        ensures
            r@ == self@.name,
    {
        self.name.as_str()
    }

    pub fn state(&self) -> (r: PistonStates)
        ensures
            r == self@.state,
    {
        self.state
    }

    /// Records that the piston is driven to `state`, and gives the event
    /// that tells of it.
    fn drive(&mut self, state: PistonStates) -> (r: Event)
        ensures
            final(self)@ == (PistonView { state, ..old(self)@ }),
            r == Event::ActuatorChanged(state),
    {
        self.state = state;
        Event::ActuatorChanged(state)
    }

    /// Drives the piston down.
    pub fn depress(&mut self) -> (r: Event)
        ensures
            final(self)@ == (PistonView { state: PistonStates::Depressed, ..old(self)@ }),
            r == Event::ActuatorChanged(PistonStates::Depressed),
    {
        self.drive(PistonStates::Depressed)
    }

    /// Raises the piston.
    pub fn steady(&mut self) -> (r: Event)
        ensures
            final(self)@ == (PistonView { state: PistonStates::Steady, ..old(self)@ }),
            r == Event::ActuatorChanged(PistonStates::Steady),
    {
        self.drive(PistonStates::Steady)
    }

    /// Drives the piston down, holds it there for `duration` and raises it
    /// again: the three steps, in order. The piston is steady afterwards.
    pub fn depress_for(&mut self, duration: Duration) -> (r: Vec<Actuation>)
        ensures
            final(self)@ == (PistonView { state: PistonStates::Steady, ..old(self)@ }),
            r@ == seq![
                Actuation::Drive(PistonStates::Depressed),
                Actuation::Hold(duration),
                Actuation::Drive(PistonStates::Steady),
            ],
    {
        let mut plan: Vec<Actuation> = Vec::new();
        self.state = PistonStates::Depressed;
        plan.push(Actuation::Drive(PistonStates::Depressed));
        plan.push(Actuation::Hold(duration));
        self.state = PistonStates::Steady;
        plan.push(Actuation::Drive(PistonStates::Steady));
        plan
    }

    /// The piston's snapshot as JSON text, with `timestamp` as the time of the
    /// snapshot.
    pub fn to_json_at(&self, timestamp: &str) -> (r: Result<String, SnapshotError>)
        ensures
            match r {
                Ok(text) => self@.snapshot_at(timestamp@) == Some(text@),
                Err(e) => e == SnapshotError::NotEncodable && self@.snapshot_at(timestamp@)
                    is None,
            },
    {
        match quote(self.state.label()) {
            Some(reading) => match snapshot(
                self.name.as_str(),
                "state",
                reading.as_str(),
                timestamp,
            ) {
                Some(text) => Ok(text),
                None => Err(SnapshotError::NotEncodable),
            },
            None => Err(SnapshotError::NotEncodable),
        }
    }

    /// The piston's snapshot as JSON text, stamped with the time of the call:
    /// the clock is read anew for every snapshot. What comes back is what a
    /// snapshot taken at one instant of the system's clock comes to.
    pub fn to_json(&self) -> (r: Result<String, SnapshotError>)
        ensures
            exists|now: SystemTime|
                snapshot_outcome(r) == #[trigger] self@.snapshot_taken_at(now),
    {
        let stamp = SystemTime::iso8601_now();
        let r = match &stamp {
            Some(timestamp) => self.to_json_at(timestamp.as_str()),
            None => Err(SnapshotError::ClockUnreadable),
        };
        proof {
            let now = choose|now: SystemTime| text_or_none(stamp) == #[trigger] text_at(now);
            assert(snapshot_outcome(r) == self@.snapshot_taken_at(now));
        }
        r
    }
}

} // verus!
