//! The material feeder, whose supply goes down by one with every pickup.

use crate::manufacturing_components::consumer_label;
use crate::manufacturing_components::piston::PistonStates;
use crate::manufacturing_components::robot::RobotPosition;
use crate::manufacturing_components::{event_line_request, EdgeDetection, LineRequest, LineUse};
use crate::gcp_iot::EventSource;
use crate::json::{decimal, decimal_text, snapshot, snapshot_text};
use crate::manufacturing_components::{snapshot_outcome, SnapshotError};
use crate::utils::{text_at, text_or_none, Iso8601Utc};
use std::time::SystemTime;
use vstd::prelude::*;

verus! {

/// Why the feeder gave no event.
#[derive(Clone, Copy, Debug, PartialEq, Eq, Structural)]
pub enum Error {
    /// The feeder holds no more material.
    NoMoreSupply,
}

/// What happened in the cell.
#[derive(Clone, Copy, Debug, PartialEq, Eq, Structural)]
pub enum Event {
    /// The robot took one piece of material from the feeder.
    MaterialPickedUp,
    /// The robot arrived at a position of its track.
    PositionReached(RobotPosition),
    /// The piston was driven to a state.
    ActuatorChanged(PistonStates),
}

impl Event {
    /// The component that the event comes from.
    pub open spec fn spec_source(self) -> EventSource {
        match self {
            Event::MaterialPickedUp => EventSource::Feeder,
            Event::PositionReached(_) => EventSource::Robot,
            Event::ActuatorChanged(_) => EventSource::Piston,
        }
    }

    /// The JSON text that tells of the event: its tag, and with it the
    /// position or the state where the event has one.
    pub open spec fn spec_payload(self) -> Seq<char> {
        match self {
            Event::MaterialPickedUp => "\"MaterialPickedUp\""@,
            Event::PositionReached(RobotPosition::Position1) =>
                "{\"PositionReached\":\"position 1\"}"@,
            Event::PositionReached(RobotPosition::Position15) =>
                "{\"PositionReached\":\"position 15\"}"@,
            Event::PositionReached(RobotPosition::Position66) =>
                "{\"PositionReached\":\"position 66\"}"@,
            Event::ActuatorChanged(PistonStates::Steady) => "{\"ActuatorChanged\":\"steady\"}"@,
            Event::ActuatorChanged(PistonStates::Depressed) =>
                "{\"ActuatorChanged\":\"depressed\"}"@,
        }
    }

    #[verifier::when_used_as_spec(spec_source)]
    pub fn source(self) -> (r: EventSource)
        ensures
            r == self.spec_source(),
    {
        match self {
            Event::MaterialPickedUp => EventSource::Feeder,
            Event::PositionReached(_) => EventSource::Robot,
            Event::ActuatorChanged(_) => EventSource::Piston,
        }
    }

    pub fn payload(self) -> (r: &'static str)
        ensures
            r@ == self.spec_payload(),
    {
        match self {
            Event::MaterialPickedUp => "\"MaterialPickedUp\"",
            Event::PositionReached(RobotPosition::Position1) =>
                "{\"PositionReached\":\"position 1\"}",
            Event::PositionReached(RobotPosition::Position15) =>
                "{\"PositionReached\":\"position 15\"}",
            Event::PositionReached(RobotPosition::Position66) =>
                "{\"PositionReached\":\"position 66\"}",
            Event::ActuatorChanged(PistonStates::Steady) => "{\"ActuatorChanged\":\"steady\"}",
            Event::ActuatorChanged(PistonStates::Depressed) =>
                "{\"ActuatorChanged\":\"depressed\"}",
        }
    }
}

impl Error {
    pub open spec fn spec_message(self) -> Seq<char> {
        match self {
            Error::NoMoreSupply => "Error: There are no more supply in the feeder"@,
        }
    }

    /// The error in words.
    pub fn to_string(&self) -> (r: String)
        ensures
            r@ == self.spec_message(),
    {
        match self {
            Error::NoMoreSupply => String::from_str(
                "Error: There are no more supply in the feeder",
            ),
        }
    }
}

/// What a feeder holds, as plain values.
pub struct FeederView {
    pub name: Seq<char>,
    /// The remaining supply.
    pub count: u32,
    pub line: u32,
}

impl FeederView {
    /// The feeder after one pickup. A pickup from an empty feeder is an
    /// error and takes nothing.
    pub open spec fn after_pickup(self) -> Result<FeederView, Error> {
        if self.count == 0 {
            Err(Error::NoMoreSupply)
        } else {
            Ok(FeederView { count: (self.count - 1) as u32, ..self })
        }
    }

    /// The feeder after `added` pieces were put in.
    pub open spec fn after_replenish(self, added: u32) -> FeederView
        recommends
            self.count + added <= u32::MAX,
    {
        FeederView { count: (self.count + added) as u32, ..self }
    }
}

impl FeederView {
    /// The JSON text of the feeder's snapshot at `timestamp`: its name, its
    /// remaining supply, and the time.
    pub open spec fn snapshot_at(self, timestamp: Seq<char>) -> Option<Seq<char>> {
        snapshot_text(self.name, "count"@, decimal_text(self.count as nat), timestamp)
    }

    /// What a snapshot taken at the instant `now` comes to: the JSON text
    /// stamped with the text of that instant, or why there is none.
    pub open spec fn snapshot_taken_at(self, now: SystemTime) -> Result<Seq<char>, SnapshotError> {
        match text_at(now) {
            None => Err(SnapshotError::ClockUnreadable),
            Some(timestamp) => match self.snapshot_at(timestamp) {
                Some(text) => Ok(text),
                None => Err(SnapshotError::NotEncodable),
            },
        }
    }
}

/// The feeder: its name, its remaining supply, and the line that its pickup
/// sensor is on.
pub struct Feeder {
    name: String,
    count: u32,
    line: u32,
}

impl View for Feeder {
    type V = FeederView;

    closed spec fn view(&self) -> FeederView {
        FeederView { name: self.name@, count: self.count, line: self.line }
    }
}

impl Feeder {
    /// A feeder that holds `count` pieces and whose sensor is on `line`.
    pub fn new(name: &str, count: u32, line: u32) -> (r: Feeder)
        ensures
            r@ == (FeederView { name: name@, count, line }),
    {
        Feeder { name: String::from_str(name), count, line }
    }

    /// The request for the feeder's line: an input on which edges in both
    /// directions are observed.
    pub fn line_request(&self) -> (r: LineRequest)
        ensures
            r.line == self@.line,
            r.purpose == LineUse::Events(EdgeDetection::BothEdges),
            r.consumer@ == consumer_label(self@.name),
    {
        event_line_request(self.name.as_str(), self.line, EdgeDetection::BothEdges)
    }

    pub fn name(&self) -> (r: &str)
        ensures
            r@ == self@.name,
    {
        self.name.as_str()
    }

    pub fn remaining_supply(&self) -> (r: u32)
        ensures
            r == self@.count,
    {
        self.count
    }

    /// Whether a pickup can be waited for: asked before the wait, so that a
    /// feeder known to be empty is never waited on.
    pub fn check_supply(&self) -> (r: Result<(), Error>)
        ensures
            r is Err <==> self@.count == 0,
            r is Err ==> r == Err::<(), Error>(Error::NoMoreSupply),
    {
        if self.count == 0 {
            Err(Error::NoMoreSupply)
        } else {
            Ok(())
        }
    }

    /// Takes one observed edge on the feeder's line: one piece was picked
    /// up, and the supply is one less. On an empty feeder this fails with
    /// `NoMoreSupply` and changes nothing.
    pub fn async_next_event(&mut self) -> (r: Result<Event, Error>)
        ensures
            match old(self)@.after_pickup() {
                Ok(taken) => r == Ok::<Event, Error>(Event::MaterialPickedUp) && final(self)@
                    == taken,
                Err(e) => r == Err::<Event, Error>(e) && final(self)@ == old(self)@,
            },
    {
        if self.count == 0 {
            return Err(Error::NoMoreSupply);
        }
        self.count = self.count - 1;
        Ok(Event::MaterialPickedUp)
    }

    /// Whether the line reports the feeder as empty at this moment, given
    /// the `level` just read from it. The level is that of one instant: it
    /// is advice, and says nothing certain of the next pickup.
    pub fn is_empty(&self, level: u8) -> (r: bool)
        ensures
            r == (level == 1),
    {
        level == 1
    }

    /// Puts `new_material_count` pieces into the feeder.
    pub fn add_new_material(&mut self, new_material_count: u32)
        requires
            old(self)@.count + new_material_count <= u32::MAX,
        ensures
            final(self)@ == old(self)@.after_replenish(new_material_count),
            final(self)@.count == old(self)@.count + new_material_count,
    {
        self.count = self.count + new_material_count;
    }

    /// The feeder's snapshot as JSON text, with `timestamp` as the time of
    /// the snapshot.
    pub fn to_json_at(&self, timestamp: &str) -> (r: Result<String, SnapshotError>)
        ensures
            match r {
                Ok(text) => self@.snapshot_at(timestamp@) == Some(text@),
                Err(e) => e == SnapshotError::NotEncodable && self@.snapshot_at(timestamp@)
                    is None,
            },
    {
        let count = decimal(self.count);
        match snapshot(self.name.as_str(), "count", count.as_str(), timestamp) {
            Some(text) => Ok(text),
            None => Err(SnapshotError::NotEncodable),
        }
    }

    /// The feeder's snapshot as JSON text, stamped with the time of the call:
    /// the clock is read anew for every snapshot. What comes back is what a
    /// snapshot taken at one instant of the system's clock comes to.
    pub fn to_json(&self) -> (r: Result<String, SnapshotError>)
        ensures
            exists|now: SystemTime|
                snapshot_outcome(r) == #[trigger] self@.snapshot_taken_at(now),
    {
        let stamp = SystemTime::iso8601_now();
        let r = match &stamp {
            Some(timestamp) => self.to_json_at(timestamp.as_str()),
            None => Err(SnapshotError::ClockUnreadable),
        };
        proof {
            let now = choose|now: SystemTime| text_or_none(stamp) == #[trigger] text_at(now);
            assert(snapshot_outcome(r) == self@.snapshot_taken_at(now));
        }
        r
    }
}

/// Replenishing and picking up do not disturb each other: in whichever order
/// a pickup and a replenishment of `added` pieces reach a feeder that holds
/// something, the supply afterwards is the old supply plus `added` minus
/// one, and nothing else about the feeder has changed.
pub proof fn lemma_replenish_commutes_with_pickup(feeder: FeederView, added: u32)
    requires
        feeder.count >= 1,
        feeder.count + added <= u32::MAX,
    ensures
        feeder.after_replenish(added).after_pickup() == Ok::<FeederView, Error>(
            feeder.after_pickup()->Ok_0.after_replenish(added),
        ),
        feeder.after_replenish(added).after_pickup()->Ok_0 == (FeederView {
            count: (feeder.count + added - 1) as u32,
            ..feeder
        }),
{
}

/// Replenishments add up: two of them leave the feeder as one of their sum
/// does.
pub proof fn lemma_replenishments_add_up(feeder: FeederView, first: u32, second: u32)
    requires
        feeder.count + first + second <= u32::MAX,
    ensures
        feeder.after_replenish(first).after_replenish(second) == feeder.after_replenish(
            (first + second) as u32,
        ),
        feeder.after_replenish(first).after_replenish(second).count == feeder.count + first
            + second,
{
}

/// One thing that is done to a feeder's supply.
pub enum SupplyChange {
    /// One piece is picked up.
    Pickup,
    /// This many pieces are put in.
    Replenish(u32),
}

/// How many pieces `changes` put in, all replenishments together.
pub open spec fn pieces_added(changes: Seq<SupplyChange>) -> nat
    decreases changes.len(),
{
    if changes.len() == 0 {
        0
    } else {
        pieces_added(changes.drop_last()) + match changes.last() {
            SupplyChange::Pickup => 0nat,
            SupplyChange::Replenish(added) => added as nat,
        }
    }
}

/// How many pieces `changes` take, one with each pickup.
pub open spec fn pieces_taken(changes: Seq<SupplyChange>) -> nat
    decreases changes.len(),
{
    if changes.len() == 0 {
        0
    } else {
        pieces_taken(changes.drop_last()) + match changes.last() {
            SupplyChange::Pickup => 1nat,
            SupplyChange::Replenish(_) => 0nat,
        }
    }
}

/// The feeder after `changes`, one after the other; `None` where a pickup
/// found the feeder empty or a replenishment went beyond what it can count.
pub open spec fn after_changes(feeder: FeederView, changes: Seq<SupplyChange>) -> Option<
    FeederView,
>
    decreases changes.len(),
{
    if changes.len() == 0 {
        Some(feeder)
    } else {
        match after_changes(feeder, changes.drop_last()) {
            None => None,
            Some(before) => match changes.last() {
                SupplyChange::Pickup => match before.after_pickup() {
                    Ok(taken) => Some(taken),
                    Err(_) => None,
                },
                SupplyChange::Replenish(added) => if before.count + added <= u32::MAX {
                    Some(before.after_replenish(added))
                } else {
                    None
                },
            },
        }
    }
}

/// No update to the supply is lost: however pickups and replenishments
/// follow each other, the supply afterwards is the supply before, plus all
/// that was put in, minus one for each pickup. Only the totals count, not
/// the order.
pub proof fn lemma_no_update_is_lost(feeder: FeederView, changes: Seq<SupplyChange>)
    requires
        after_changes(feeder, changes) is Some,
    ensures
        after_changes(feeder, changes)->0.count == feeder.count + pieces_added(changes)
            - pieces_taken(changes),
        after_changes(feeder, changes)->0.name == feeder.name,
        after_changes(feeder, changes)->0.line == feeder.line,
    decreases changes.len(),
{
    if changes.len() > 0 {
        lemma_no_update_is_lost(feeder, changes.drop_last());
    }
}

} // verus!
