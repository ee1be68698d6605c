//! The hardware of the cell: the feeder, the robot and the piston, each on a
//! GPIO line of its own, the program that runs them, and the controller of a
//! production cycle.

pub mod cycle;
pub mod feeder;
pub mod piston;
pub mod program;
pub mod robot;

use vstd::prelude::*;

verus! {

/// Why a GPIO line could not be used.
#[derive(Clone, Copy, Debug, PartialEq, Eq, Structural)]
pub enum HardwareError {
    HardwareAccessDenied,
    LineUnavailable,
}

/// Why a component gave no snapshot of itself.
#[derive(Clone, Copy, Debug, PartialEq, Eq, Structural)]
pub enum SnapshotError {
    /// The clock gave no time that can be written.
    ClockUnreadable,
    /// The snapshot has no JSON text.
    NotEncodable,
}

/// The outcome of taking a snapshot, with the text as plain characters.
pub open spec fn snapshot_outcome(outcome: Result<String, SnapshotError>) -> Result<
    Seq<char>,
    SnapshotError,
> {
    match outcome {
        Ok(text) => Ok(text@),
        Err(e) => Err(e),
    }
}

/// Which transitions of an input line are reported as edge events.
#[derive(Clone, Copy, Debug, PartialEq, Eq, Structural)]
pub enum EdgeDetection {
    RisingEdge,
    FallingEdge,
    BothEdges,
}

/// What a component uses its line for.
#[derive(Clone, Copy, Debug, PartialEq, Eq, Structural)]
pub enum LineUse {
    /// An input whose edges are observed.
    Events(EdgeDetection),
    /// An output that is driven, starting at the level `initial`.
    Output { initial: u8 },
}

/// The request with which a component acquires its line from the GPIO chip.
#[derive(Clone, Debug, PartialEq, Eq)]
pub struct LineRequest {
    /// The number of the line on the chip.
    pub line: u32,
    pub purpose: LineUse,
    /// The label under which the line is held.
    pub consumer: String,
}

/// The label under which the component called `name` holds its line.
pub open spec fn consumer_label(name: Seq<char>) -> Seq<char> {
    name + " consumer"@
}

/// The request for the input line of the component called `name`.
pub fn event_line_request(name: &str, line: u32, edges: EdgeDetection) -> (r: LineRequest)
    ensures
        r.line == line,
        r.purpose == LineUse::Events(edges),
        r.consumer@ == consumer_label(name@),
{
    let mut consumer = String::from_str(name);
    consumer.append(" consumer");
    LineRequest { line, purpose: LineUse::Events(edges), consumer }
}

} // verus!
