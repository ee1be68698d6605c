//! The pick-and-place robot, which moves along a track between three
//! positions.

use crate::manufacturing_components::feeder::Event;
use crate::manufacturing_components::{
    consumer_label, event_line_request, EdgeDetection, LineRequest, LineUse,
};
use crate::json::{json_string, quote, snapshot, snapshot_text};
use crate::manufacturing_components::{snapshot_outcome, SnapshotError};
use crate::utils::{text_at, text_or_none, Iso8601Utc};
use std::time::SystemTime;
use vstd::prelude::*;

verus! {

/// Where the robot stands on its track.
#[derive(Clone, Copy, Debug, PartialEq, Eq, Structural)]
pub enum RobotPosition {
    /// Where the arm picks materials from feeder A.
    Position1,
    /// Where the arm places materials at the piston.
    Position15,
    /// Where the arm picks materials from feeder B.
    Position66,
}

impl RobotPosition {
    /// The position that follows on the track, which is a cycle: after
    /// `Position66` comes `Position1` again.
    pub open spec fn spec_next(self) -> RobotPosition {
        match self {
            RobotPosition::Position1 => RobotPosition::Position15,
            RobotPosition::Position15 => RobotPosition::Position66,
            RobotPosition::Position66 => RobotPosition::Position1,
        }
    }

    /// The position after `edges` further edges.
    pub open spec fn after(self, edges: nat) -> RobotPosition
        decreases edges,
    {
        if edges == 0 {
            self
        } else {
            self.spec_next().after((edges - 1) as nat)
        }
    }

    /// The name of the position in telemetry.
    pub open spec fn spec_label(self) -> Seq<char> {
        match self {
            RobotPosition::Position1 => "position 1"@,
            RobotPosition::Position15 => "position 15"@,
            RobotPosition::Position66 => "position 66"@,
        }
    }

    #[verifier::when_used_as_spec(spec_next)]
    pub fn next(self) -> (r: RobotPosition)
        ensures
            r == self.spec_next(),
    {
        match self {
            RobotPosition::Position1 => RobotPosition::Position15,
            RobotPosition::Position15 => RobotPosition::Position66,
            RobotPosition::Position66 => RobotPosition::Position1,
        }
    }

    pub fn label(self) -> (r: &'static str)
        ensures
            r@ == self.spec_label(),
    {
        match self {
            RobotPosition::Position1 => "position 1",
            RobotPosition::Position15 => "position 15",
            RobotPosition::Position66 => "position 66",
        }
    }
}

impl Default for RobotPosition {
    fn default() -> (r: RobotPosition)
        ensures
            r == RobotPosition::Position1,
    {
        RobotPosition::Position1
    }
}

/// The track is a cycle of period three: three edges bring the robot back
/// to where it was, and neither one edge nor two do.
pub proof fn lemma_track_has_period_three(start: RobotPosition)
    ensures
        start.after(3) == start,
        start.after(1) != start,
        start.after(2) != start,
{
    reveal_with_fuel(RobotPosition::after, 4);
}

/// Whole turns of the track do not count: the position after any number of
/// edges is the position after that number modulo three.
pub proof fn lemma_position_depends_on_edges_modulo_three(start: RobotPosition, edges: nat)
    ensures
        start.after(edges) == start.after(edges % 3),
    decreases edges,
{
    reveal_with_fuel(RobotPosition::after, 4);
    if edges >= 3 {
        lemma_position_depends_on_edges_modulo_three(start, (edges - 3) as nat);
        assert(start.after(edges) == start.after(3).after((edges - 3) as nat));
    }
}

/// What a robot holds, as plain values.
pub struct RobotView {
    pub name: Seq<char>,
    pub position: RobotPosition,
    pub line: u32,
}

impl RobotView {
    /// The JSON text of the robot's snapshot at `timestamp`: its name, the
    /// name of its position, and the time.
    pub open spec fn snapshot_at(self, timestamp: Seq<char>) -> Option<Seq<char>> {
        match json_string(self.position.spec_label()) {
            Some(position) => snapshot_text(self.name, "position"@, position, timestamp),
            None => None,
        }
    }

    /// What a snapshot taken at the instant `now` comes to: the JSON text
    /// stamped with the text of that instant, or why there is none.
    pub open spec fn snapshot_taken_at(self, now: SystemTime) -> Result<Seq<char>, SnapshotError> {
        match text_at(now) {
            None => Err(SnapshotError::ClockUnreadable),
            Some(timestamp) => match self.snapshot_at(timestamp) {
                Some(text) => Ok(text),
                None => Err(SnapshotError::NotEncodable),
            },
        }
    }
}

/// The robot: its name, where it stands, and the line that its position
/// sensor is on.
pub struct Robot {
    name: String,
    position: RobotPosition,
    line: u32,
}

impl View for Robot {
    type V = RobotView;

    closed spec fn view(&self) -> RobotView {
        RobotView { name: self.name@, position: self.position, line: self.line }
    }
}

impl Robot {
    /// A robot at `Position1` whose sensor is on `line`.
    pub fn new(name: &str, line: u32) -> (r: Robot)
        ensures
            r@ == (RobotView { name: name@, position: RobotPosition::Position1, line }),
    {
        Robot { name: String::from_str(name), position: RobotPosition::default(), line }
    }

    /// The request for the robot's line: an input on which rising edges are
    /// observed.
    pub fn line_request(&self) -> (r: LineRequest)
        ensures
            r.line == self@.line,
            r.purpose == LineUse::Events(EdgeDetection::RisingEdge),
            r.consumer@ == consumer_label(self@.name),
    {
        event_line_request(self.name.as_str(), self.line, EdgeDetection::RisingEdge)
    }

    pub fn name(&self) -> (r: &str)
        ensures
            r@ == self@.name,
    {
        self.name.as_str()
    }

    pub fn position(&self) -> (r: RobotPosition)
        ensures
            r == self@.position,
    {
        self.position
    }

    /// Takes one observed edge on the robot's line: the robot has reached
    /// the next position of its track.
    pub fn async_next_event(&mut self) -> (r: Event)
        ensures
            final(self)@ == (RobotView { position: old(self)@.position.spec_next(), ..old(self)@ }),
            r == Event::PositionReached(final(self)@.position),
    {
        self.position = self.position.next();
        Event::PositionReached(self.position)
    }

    /// The robot's snapshot as JSON text, with `timestamp` as the time of the
    /// snapshot.
    pub fn to_json_at(&self, timestamp: &str) -> (r: Result<String, SnapshotError>)
        ensures
            match r {
                Ok(text) => self@.snapshot_at(timestamp@) == Some(text@),
                Err(e) => e == SnapshotError::NotEncodable && self@.snapshot_at(timestamp@)
                    is None,
            },
    {
        match quote(self.position.label()) {
            Some(reading) => match snapshot(
                self.name.as_str(),
                "position",
                reading.as_str(),
                timestamp,
            ) {
                Some(text) => Ok(text),
                None => Err(SnapshotError::NotEncodable),
            },
            None => Err(SnapshotError::NotEncodable),
        }
    }

    /// The robot's snapshot as JSON text, stamped with the time of the call:
    /// the clock is read anew for every snapshot. What comes back is what a
    /// snapshot taken at one instant of the system's clock comes to.
    pub fn to_json(&self) -> (r: Result<String, SnapshotError>)
        ensures
            exists|now: SystemTime|
                snapshot_outcome(r) == #[trigger] self@.snapshot_taken_at(now),
    {
        let stamp = SystemTime::iso8601_now();
        let r = match &stamp {
            Some(timestamp) => self.to_json_at(timestamp.as_str()),
            None => Err(SnapshotError::ClockUnreadable),
        };
        proof {
            let now = choose|now: SystemTime| text_or_none(stamp) == #[trigger] text_at(now);
            assert(snapshot_outcome(r) == self@.snapshot_taken_at(now));
        }
        r
    }
}

} // verus!
