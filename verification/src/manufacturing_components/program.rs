//! Manufacturing programs: what can be started and stopped.

use crate::manufacturing_components::{HardwareError, LineRequest, LineUse};
use vstd::prelude::*;

verus! {

/// A manufacturing program that can be started and stopped. What a start
/// does to a program that runs, or a stop to one that does not, is for each
/// program to say.
pub trait ManufacturingProgram {
    type Error;

    type Success;

    fn start(&mut self) -> Result<Self::Success, Self::Error>;

    fn stop(&mut self) -> Result<Self::Success, Self::Error>;
}

/// Whether a program runs.
#[derive(Clone, Copy, Debug, PartialEq, Eq, Structural)]
pub enum ProgramState {
    Idle,
    Running,
}

impl ProgramState {
    /// The level of the control line that puts the program in this state.
    pub open spec fn spec_level(self) -> u8 {
        match self {
            ProgramState::Idle => 0,
            ProgramState::Running => 1,
        }
    }
}

/// What the program holds, as plain values.
pub struct SimplifiedScenario2View {
    pub line: u32,
    pub state: ProgramState,
}

/// The program that is controlled through one output line: high while it
/// runs, low while it does not.
pub struct SimplifiedScenario2 {
    line: u32,
    state: ProgramState,
}

impl View for SimplifiedScenario2 {
    type V = SimplifiedScenario2View;

    closed spec fn view(&self) -> SimplifiedScenario2View {
        SimplifiedScenario2View { line: self.line, state: self.state }
    }
}

impl SimplifiedScenario2 {
    /// The program, idle, with its control on `line_num`.
    pub fn new(line_num: u32) -> (r: SimplifiedScenario2)
        ensures
            r@ == (SimplifiedScenario2View { line: line_num, state: ProgramState::Idle }),
    {
        SimplifiedScenario2 { line: line_num, state: ProgramState::Idle }
    }

    /// The request for the control line: an output that starts low.
    pub fn line_request(&self) -> (r: LineRequest)
        ensures
            r.line == self@.line,
            r.purpose == (LineUse::Output { initial: ProgramState::Idle.spec_level() }),
            r.consumer@ == "Simplified Scenario 2 program"@,
    {
        LineRequest {
            line: self.line,
            purpose: LineUse::Output { initial: 0 },
            consumer: String::from_str("Simplified Scenario 2 program"),
        }
    }

    pub fn state(&self) -> (r: ProgramState)
        ensures
            r == self@.state,
    {
        self.state
    }
}

/// Starting and stopping never fail here, and both may be repeated: a start
/// of the running program drives the line high once more, a stop of the idle
/// one drives it low once more. What comes back is the level to drive the
/// control line to.
impl ManufacturingProgram for SimplifiedScenario2 {
    type Error = HardwareError;

    type Success = u8;

    fn start(&mut self) -> (r: Result<u8, HardwareError>)
        ensures
            final(self)@ == (SimplifiedScenario2View {
                state: ProgramState::Running,
                ..old(self)@
            }),
            r == Ok::<u8, HardwareError>(ProgramState::Running.spec_level()),
    {
        self.state = ProgramState::Running;
        Ok(1)
    }

    fn stop(&mut self) -> (r: Result<u8, HardwareError>)
        ensures
            final(self)@ == (SimplifiedScenario2View { state: ProgramState::Idle, ..old(self)@ }),
            r == Ok::<u8, HardwareError>(ProgramState::Idle.spec_level()),
    {
        self.state = ProgramState::Idle;
        Ok(0)
    }
}

} // verus!
