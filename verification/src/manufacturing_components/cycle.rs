//! The controller of one production cycle.
//!
//! A cycle starts the program, takes a requested number of picks from the
//! feeder, each a pickup followed by a placement, and stops the program. The
//! waiting is not done here: the controller is told what was observed, one
//! event at a time, and answers with the step to take next.

use crate::manufacturing_components::feeder::{Event, Feeder, FeederView};
use vstd::prelude::*;

verus! {

/// Why a cycle was given up.
#[derive(Clone, Copy, Debug, PartialEq, Eq, Structural)]
pub enum CycleError {
    /// The feeder ran out before the requested picks were done.
    NoMoreSupply,
    /// The program could not be started or stopped.
    ProgramContractViolation,
    /// The feeder's line gives no more events.
    LineUnavailable,
    /// Something was reported that the cycle was not waiting for.
    UnexpectedEvent,
}

/// Where a cycle stands.
#[derive(Clone, Copy, Debug, PartialEq, Eq, Structural)]
pub enum CyclePhase {
    /// Not begun.
    Idle,
    /// The program is being started.
    Starting,
    /// Waiting for the robot to take a piece from the feeder.
    AwaitingPickup,
    /// Waiting for the robot to have placed the piece.
    AwaitingPlacement,
    /// The program is being stopped.
    Stopping,
    /// All requested picks are done and the program is stopped.
    Completed,
    /// The cycle was given up.
    Failed(CycleError),
}

/// What the driver of a cycle reports to its controller.
#[derive(Clone, Copy, Debug, PartialEq, Eq, Structural)]
pub enum CycleEvent {
    /// The cycle is to begin.
    Begin,
    ProgramStarted,
    ProgramStartFailed,
    /// An edge was observed on the feeder's line.
    EdgeObserved,
    /// The feeder's line gives no more events.
    LineClosed,
    ProgramStopped,
    ProgramStopFailed,
}

/// What the driver of a cycle is to do next.
#[derive(Clone, Copy, Debug, PartialEq, Eq, Structural)]
pub enum Command {
    StartProgram,
    /// Wait for the next edge on the feeder's line: a pickup.
    AwaitPickup,
    /// Wait for the next edge on the feeder's line: the placement that
    /// completes the pick.
    AwaitPlacement,
    StopProgram,
    /// The cycle is over; this many picks were completed.
    Finish(u32),
    /// The cycle is given up, with nothing further to be done to the
    /// hardware.
    Abort(CycleError),
}

/// The controller's answer to one event.
#[derive(Clone, Copy, Debug, PartialEq, Eq, Structural)]
pub struct Step {
    /// The event to put on the outbound queue, if there is one: before the
    /// command is carried out.
    pub forward: Option<Event>,
    pub command: Command,
}

/// What a controller holds, as plain values.
pub struct CycleView {
    /// How many picks were requested.
    pub requested: u32,
    /// How many picks are completed: pickup and placement.
    pub completed: u32,
    pub phase: CyclePhase,
}

/// A cycle and the feeder's supply after one event, with the answer to the
/// event.
pub struct Outcome {
    pub cycle: CycleView,
    pub supply: u32,
    pub step: Step,
}

impl Step {
    /// A step that forwards nothing.
    pub open spec fn quiet(command: Command) -> Step {
        Step { forward: None, command }
    }

    /// The step after a pickup: the event is forwarded, then the placement
    /// is awaited.
    pub open spec fn picked_up() -> Step {
        Step { forward: Some(Event::MaterialPickedUp), command: Command::AwaitPlacement }
    }
}

impl CycleView {
    /// A cycle of `requested` picks that has not begun.
    pub open spec fn fresh(requested: u32) -> CycleView {
        CycleView { requested, completed: 0, phase: CyclePhase::Idle }
    }

    /// No more picks are completed than were requested; while one is under
    /// way one is still owed; a cycle that stops or is complete owes none.
    pub open spec fn wf(self) -> bool {
        &&& self.completed <= self.requested
        &&& (self.phase == CyclePhase::AwaitingPickup || self.phase
            == CyclePhase::AwaitingPlacement) ==> self.completed < self.requested
        &&& (self.phase == CyclePhase::Stopping || self.phase == CyclePhase::Completed)
            ==> self.completed == self.requested
    }

    pub open spec fn in_phase(self, phase: CyclePhase) -> CycleView {
        CycleView { phase, ..self }
    }

    /// What is decided before each pick, and in this order: with all picks
    /// done the program is stopped; with an empty feeder the cycle is given
    /// up, before anything is waited for; else the pickup is awaited.
    pub open spec fn before_pick(self, supply: u32) -> (CyclePhase, Command) {
        if self.completed >= self.requested {
            (CyclePhase::Stopping, Command::StopProgram)
        } else if supply == 0 {
            (
                CyclePhase::Failed(CycleError::NoMoreSupply),
                Command::Abort(CycleError::NoMoreSupply),
            )
        } else {
            (CyclePhase::AwaitingPickup, Command::AwaitPickup)
        }
    }

    /// The cycle moves on to its next pick, or to its end.
    pub open spec fn proceed(self, supply: u32) -> Outcome {
        let (phase, command) = self.before_pick(supply);
        Outcome { cycle: self.in_phase(phase), supply, step: Step::quiet(command) }
    }

    /// The cycle is given up.
    pub open spec fn give_up(self, supply: u32, error: CycleError) -> Outcome {
        Outcome {
            cycle: self.in_phase(CyclePhase::Failed(error)),
            supply,
            step: Step::quiet(Command::Abort(error)),
        }
    }

    /// The cycle and the feeder's supply after `event`, and the answer to
    /// it. A cycle that is over stays as it is and repeats how it ended.
    pub open spec fn step(self, supply: u32, event: CycleEvent) -> Outcome {
        match (self.phase, event) {
            (CyclePhase::Completed, _) => Outcome {
                cycle: self,
                supply,
                step: Step::quiet(Command::Finish(self.completed)),
            },
            (CyclePhase::Failed(error), _) => Outcome {
                cycle: self,
                supply,
                step: Step::quiet(Command::Abort(error)),
            },
            (CyclePhase::Idle, CycleEvent::Begin) => Outcome {
                cycle: self.in_phase(CyclePhase::Starting),
                supply,
                step: Step::quiet(Command::StartProgram),
            },
            (CyclePhase::Starting, CycleEvent::ProgramStarted) => self.proceed(supply),
            (CyclePhase::Starting, CycleEvent::ProgramStartFailed) => self.give_up(
                supply,
                CycleError::ProgramContractViolation,
            ),
            (CyclePhase::AwaitingPickup, CycleEvent::EdgeObserved) => if supply == 0 {
                self.give_up(supply, CycleError::NoMoreSupply)
            } else {
                Outcome {
                    cycle: self.in_phase(CyclePhase::AwaitingPlacement),
                    supply: (supply - 1) as u32,
                    step: Step::picked_up(),
                }
            },
            (CyclePhase::AwaitingPlacement, CycleEvent::EdgeObserved) => (CycleView {
                completed: (self.completed + 1) as u32,
                ..self
            }).proceed(supply),
            (CyclePhase::AwaitingPickup, CycleEvent::LineClosed)
            | (CyclePhase::AwaitingPlacement, CycleEvent::LineClosed) => self.give_up(
                supply,
                CycleError::LineUnavailable,
            ),
            (CyclePhase::Stopping, CycleEvent::ProgramStopped) => Outcome {
                cycle: self.in_phase(CyclePhase::Completed),
                supply,
                step: Step::quiet(Command::Finish(self.completed)),
            },
            (CyclePhase::Stopping, CycleEvent::ProgramStopFailed) => self.give_up(
                supply,
                CycleError::ProgramContractViolation,
            ),
            _ => self.give_up(supply, CycleError::UnexpectedEvent),
        }
    }
}

/// A cycle and the feeder's supply after a series of events, with the
/// answers to them in order.
pub struct Run {
    pub cycle: CycleView,
    pub supply: u32,
    pub steps: Seq<Step>,
}

/// What becomes of `cycle` and of a feeder that holds `supply` when `events`
/// are reported one after the other.
pub open spec fn run(cycle: CycleView, supply: u32, events: Seq<CycleEvent>) -> Run
    decreases events.len(),
{
    if events.len() == 0 {
        Run { cycle, supply, steps: Seq::empty() }
    } else {
        let before = run(cycle, supply, events.drop_last());
        let last = before.cycle.step(before.supply, events.last());
        Run { cycle: last.cycle, supply: last.supply, steps: before.steps.push(last.step) }
    }
}

/// The events that the steps put on the outbound queue, in order.
pub open spec fn forwarded(steps: Seq<Step>) -> Seq<Event>
    decreases steps.len(),
{
    if steps.len() == 0 {
        Seq::empty()
    } else {
        match steps.last().forward {
            Some(event) => forwarded(steps.drop_last()).push(event),
            None => forwarded(steps.drop_last()),
        }
    }
}

/// `count` edges on the feeder's line and nothing else.
pub open spec fn edges(count: nat) -> Seq<CycleEvent> {
    Seq::new(count, |i: int| CycleEvent::EdgeObserved)
}

/// What a hardware that does as it is told reports in a cycle of `picks`
/// picks: the begin, the program started, a pickup and a placement for each
/// pick, the program stopped.
pub open spec fn full_script(picks: nat) -> Seq<CycleEvent> {
    seq![CycleEvent::Begin, CycleEvent::ProgramStarted] + edges(2 * picks)
        + seq![CycleEvent::ProgramStopped]
}

/// What is reported until a feeder that holds `supply` pieces, fewer than
/// were requested, is found empty.
pub open spec fn starved_script(supply: nat) -> Seq<CycleEvent> {
    seq![CycleEvent::Begin, CycleEvent::ProgramStarted] + edges(2 * supply)
}

/// The answers to the edges of `picks` picks: to each pickup the forwarding
/// of its event and the wait for the placement; to each placement the wait
/// for the next pickup, and to the last placement `last`.
pub open spec fn pick_steps(picks: nat, last: Command) -> Seq<Step> {
    Seq::new(
        2 * picks,
        |i: int|
            if i % 2 == 0 {
                Step::picked_up()
            } else if i == 2 * picks - 1 {
                Step::quiet(last)
            } else {
                Step::quiet(Command::AwaitPickup)
            },
    )
}

/// The answers to everything but the begin when `picks` picks are taken and
/// `last` follows: the wait for the first pickup and the answers to the
/// edges, or with no pick to be taken `last` at once.
pub open spec fn steps_until(picks: nat, last: Command) -> Seq<Step> {
    if picks == 0 {
        seq![Step::quiet(last)]
    } else {
        seq![Step::quiet(Command::AwaitPickup)] + pick_steps(picks, last)
    }
}

/// The steps of a whole cycle of `picks` picks: the program is started
/// once, before the first pick; pickups and placements are awaited in turn;
/// the program is stopped once, after the last placement; the cycle finishes
/// with `picks`.
pub open spec fn full_steps(picks: u32) -> Seq<Step> {
    seq![Step::quiet(Command::StartProgram)] + steps_until(picks as nat, Command::StopProgram)
        + seq![Step::quiet(Command::Finish(picks))]
}

/// The steps of a cycle that finds the feeder empty after `supply` picks.
pub open spec fn starved_steps(supply: nat) -> Seq<Step> {
    seq![Step::quiet(Command::StartProgram)] + steps_until(
        supply,
        Command::Abort(CycleError::NoMoreSupply),
    )
}

/// Every event leaves a well-formed cycle well-formed.
pub proof fn lemma_step_keeps_well_formed(cycle: CycleView, supply: u32, event: CycleEvent)
    requires
        cycle.wf(),
    ensures
        cycle.step(supply, event).cycle.wf(),
        cycle.step(supply, event).cycle.requested == cycle.requested,
        cycle.step(supply, event).supply <= supply,
{
}

/// Events reported in two series have the effect of the one series that
/// they make together.
pub proof fn lemma_run_in_two_parts(
    cycle: CycleView,
    supply: u32,
    first: Seq<CycleEvent>,
    then: Seq<CycleEvent>,
)
    ensures
        run(cycle, supply, first + then) == ({
            let a = run(cycle, supply, first);
            let b = run(a.cycle, a.supply, then);
            Run { cycle: b.cycle, supply: b.supply, steps: a.steps + b.steps }
        }),
    decreases then.len(),
{
    let a = run(cycle, supply, first);
    if then.len() == 0 {
        assert(first + then =~= first);
        assert(a.steps + Seq::<Step>::empty() =~= a.steps);
    } else {
        assert((first + then).drop_last() =~= first + then.drop_last());
        assert((first + then).last() == then.last());
        lemma_run_in_two_parts(cycle, supply, first, then.drop_last());
        let b = run(a.cycle, a.supply, then.drop_last());
        let last = b.cycle.step(b.supply, then.last());
        assert((a.steps + b.steps).push(last.step) =~= a.steps + b.steps.push(last.step));
    }
}

/// What two series of steps forward is what the first forwards, then what
/// the second forwards.
pub proof fn lemma_forwarded_in_two_parts(first: Seq<Step>, then: Seq<Step>)
    ensures
        forwarded(first + then) == forwarded(first) + forwarded(then),
    decreases then.len(),
{
    if then.len() == 0 {
        assert(first + then =~= first);
        assert(forwarded(first) + Seq::<Event>::empty() =~= forwarded(first));
    } else {
        assert((first + then).drop_last() =~= first + then.drop_last());
        assert((first + then).last() == then.last());
        lemma_forwarded_in_two_parts(first, then.drop_last());
        match then.last().forward {
            Some(event) => {
                assert((forwarded(first) + forwarded(then.drop_last())).push(event) =~= forwarded(
                    first,
                ) + forwarded(then.drop_last()).push(event));
            },
            None => {},
        }
    }
}

/// A cycle that awaits a pickup from a feeder that holds something takes
/// one pick on two edges: the first consumes one piece and has its event
/// forwarded, the second completes the pick and lets the cycle proceed.
proof fn lemma_one_pick(cycle: CycleView, supply: u32)
    requires
        cycle.phase == CyclePhase::AwaitingPickup,
        cycle.completed < cycle.requested,
        supply >= 1,
    ensures
        run(cycle, supply, edges(2)) == ({
            let done = CycleView { completed: (cycle.completed + 1) as u32, ..cycle };
            let left = (supply - 1) as u32;
            Run {
                cycle: done.proceed(left).cycle,
                supply: left,
                steps: pick_steps(1, done.before_pick(left).1),
            }
        }),
{
    let both = edges(2);
    let one = both.drop_last();
    assert(one.drop_last().len() == 0);
    assert(run(cycle, supply, one.drop_last()) == Run { cycle, supply, steps: Seq::empty() });
    let after_pickup = run(cycle, supply, one);
    assert(one.last() == CycleEvent::EdgeObserved);
    assert(after_pickup.cycle == cycle.in_phase(CyclePhase::AwaitingPlacement));
    assert(after_pickup.steps =~= seq![Step::picked_up()]);
    let done = CycleView { completed: (cycle.completed + 1) as u32, ..cycle };
    let left = (supply - 1) as u32;
    assert(both.last() == CycleEvent::EdgeObserved);
    assert(run(cycle, supply, both).steps =~= pick_steps(1, done.before_pick(left).1));
}

/// A cycle that awaits a pickup takes `picks` picks on twice as many edges,
/// if so many are still owed and the feeder holds so many: each consumes one
/// piece, and after the last the cycle proceeds.
proof fn lemma_picks(cycle: CycleView, supply: u32, picks: nat)
    requires
        cycle.phase == CyclePhase::AwaitingPickup,
        picks >= 1,
        cycle.completed + picks <= cycle.requested,
        picks <= supply,
    ensures
        run(cycle, supply, edges(2 * picks)) == ({
            let done = CycleView { completed: (cycle.completed + picks) as u32, ..cycle };
            let left = (supply - picks) as u32;
            Run {
                cycle: done.proceed(left).cycle,
                supply: left,
                steps: pick_steps(picks, done.before_pick(left).1),
            }
        }),
    decreases picks,
{
    if picks == 1 {
        lemma_one_pick(cycle, supply);
    } else {
        let earlier = (picks - 1) as nat;
        lemma_picks(cycle, supply, earlier);
        let mid = CycleView { completed: (cycle.completed + earlier) as u32, ..cycle };
        let mid_supply = (supply - earlier) as u32;
        assert(mid.proceed(mid_supply).cycle == mid);
        lemma_one_pick(mid, mid_supply);
        assert(edges(2 * picks) =~= edges(2 * earlier) + edges(2));
        lemma_run_in_two_parts(cycle, supply, edges(2 * earlier), edges(2));
        let done = CycleView { completed: (cycle.completed + picks) as u32, ..cycle };
        let left = (supply - picks) as u32;
        let last = done.before_pick(left).1;
        assert(pick_steps(earlier, Command::AwaitPickup) + pick_steps(1, last) =~= pick_steps(
            picks,
            last,
        ));
    }
}

/// The steps of `picks` picks forward one pickup event each, and nothing
/// else.
pub proof fn lemma_picks_forward_one_event_each(picks: nat, last: Command)
    ensures
        forwarded(pick_steps(picks, last)) == Seq::new(picks, |i: int| Event::MaterialPickedUp),
    decreases picks,
{
    let expected = Seq::new(picks, |i: int| Event::MaterialPickedUp);
    if picks == 0 {
        assert(pick_steps(picks, last).len() == 0);
        assert(forwarded(pick_steps(picks, last)) =~= expected);
    } else {
        let earlier = (picks - 1) as nat;
        let steps = pick_steps(picks, last);
        let without_last = steps.drop_last();
        let head = without_last.drop_last();
        assert(head =~= pick_steps(earlier, Command::AwaitPickup));
        lemma_picks_forward_one_event_each(earlier, Command::AwaitPickup);
        assert(steps.last() == Step::quiet(last));
        assert(without_last.last() == Step::picked_up());
        assert(forwarded(without_last) == forwarded(head).push(Event::MaterialPickedUp));
        assert(forwarded(steps) == forwarded(without_last));
        assert(forwarded(steps) =~= expected);
    }
}

/// The start of a cycle: the begin has the program started, and once it
/// runs the cycle proceeds to its first pick.
proof fn lemma_start(requested: u32, supply: u32)
    ensures
        run(
            CycleView::fresh(requested),
            supply,
            seq![CycleEvent::Begin, CycleEvent::ProgramStarted],
        ) == ({
            let starting = CycleView::fresh(requested).in_phase(CyclePhase::Starting);
            Run {
                cycle: starting.proceed(supply).cycle,
                supply,
                steps: seq![
                    Step::quiet(Command::StartProgram),
                    Step::quiet(starting.before_pick(supply).1),
                ],
            }
        }),
{
    let fresh = CycleView::fresh(requested);
    let both = seq![CycleEvent::Begin, CycleEvent::ProgramStarted];
    let one = both.drop_last();
    assert(one.drop_last().len() == 0);
    assert(run(fresh, supply, one.drop_last()) == Run { cycle: fresh, supply, steps: Seq::empty() });
    assert(one.last() == CycleEvent::Begin);
    let begun = run(fresh, supply, one);
    assert(begun.cycle == fresh.in_phase(CyclePhase::Starting));
    assert(begun.steps =~= seq![Step::quiet(Command::StartProgram)]);
    assert(both.last() == CycleEvent::ProgramStarted);
    let starting = fresh.in_phase(CyclePhase::Starting);
    assert(run(fresh, supply, both).steps =~= seq![
        Step::quiet(Command::StartProgram),
        Step::quiet(starting.before_pick(supply).1),
    ]);
}

/// A cycle that is begun with `picks` of the requested picks within the
/// feeder's supply takes them: up to the last placement the steps are those
/// of `picks` picks, with `last` decided by what is then still owed and left.
proof fn lemma_cycle_up_to(requested: u32, supply: u32, picks: nat)
    requires
        picks <= requested,
        picks <= supply,
        picks == requested || picks == supply,
    ensures
        run(CycleView::fresh(requested), supply, starved_script(picks)) == ({
            let done = CycleView {
                requested,
                completed: picks as u32,
                phase: CyclePhase::Starting,
            };
            let left = (supply - picks) as u32;
            Run {
                cycle: done.proceed(left).cycle,
                supply: left,
                steps: seq![Step::quiet(Command::StartProgram)] + steps_until(
                    picks,
                    done.before_pick(left).1,
                ),
            }
        }),
{
    let fresh = CycleView::fresh(requested);
    let opening = seq![CycleEvent::Begin, CycleEvent::ProgramStarted];
    lemma_start(requested, supply);
    let starting = fresh.in_phase(CyclePhase::Starting);
    if picks == 0 {
        assert(starved_script(picks) =~= opening);
        assert(seq![Step::quiet(Command::StartProgram)] + steps_until(
            picks,
            starting.before_pick(supply).1,
        ) =~= seq![
            Step::quiet(Command::StartProgram),
            Step::quiet(starting.before_pick(supply).1),
        ]);
    } else {
        let awaiting = fresh.in_phase(CyclePhase::AwaitingPickup);
        assert(starting.proceed(supply).cycle == awaiting);
        lemma_picks(awaiting, supply, picks);
        lemma_run_in_two_parts(fresh, supply, opening, edges(2 * picks));
        let done = CycleView { requested, completed: picks as u32, phase: CyclePhase::Starting };
        let left = (supply - picks) as u32;
        let last = done.before_pick(left).1;
        assert(seq![
            Step::quiet(Command::StartProgram),
            Step::quiet(Command::AwaitPickup),
        ] + pick_steps(picks, last) =~= seq![Step::quiet(Command::StartProgram)] + steps_until(
            picks,
            last,
        ));
    }
}

/// With a feeder that holds at least the requested number of pieces, and a
/// hardware that does as it is told, a cycle completes: the program is
/// started once, before the first pick, each pickup is followed by its
/// placement, the program is stopped once, after the last placement, and the
/// cycle finishes with the requested number. The feeder has given exactly
/// that many pieces, and one pickup event was forwarded for each.
pub proof fn lemma_cycle_with_supply_completes(requested: u32, supply: u32)
    requires
        requested <= supply,
    ensures
        run(CycleView::fresh(requested), supply, full_script(requested as nat)) == (Run {
            cycle: CycleView { requested, completed: requested, phase: CyclePhase::Completed },
            supply: (supply - requested) as u32,
            steps: full_steps(requested),
        }),
        full_steps(requested).last() == Step::quiet(Command::Finish(requested)),
        forwarded(full_steps(requested)) == Seq::new(
            requested as nat,
            |i: int| Event::MaterialPickedUp,
        ),
{
    let fresh = CycleView::fresh(requested);
    let picks = requested as nat;
    lemma_cycle_up_to(requested, supply, picks);
    let closing = seq![CycleEvent::ProgramStopped];
    assert(full_script(picks) =~= starved_script(picks) + closing);
    lemma_run_in_two_parts(fresh, supply, starved_script(picks), closing);
    let stopping = run(fresh, supply, starved_script(picks));
    assert(stopping.cycle == CycleView {
        requested,
        completed: requested,
        phase: CyclePhase::Stopping,
    });
    assert(closing.drop_last().len() == 0);
    assert(run(stopping.cycle, stopping.supply, closing.drop_last()) == Run {
        cycle: stopping.cycle,
        supply: stopping.supply,
        steps: Seq::empty(),
    });
    assert(closing.last() == CycleEvent::ProgramStopped);
    assert(run(stopping.cycle, stopping.supply, closing).steps =~= seq![
        Step::quiet(Command::Finish(requested)),
    ]);
    lemma_full_steps_forward_one_event_for_each_pick(requested);
}

/// The steps of a whole cycle forward one pickup event for each pick.
pub proof fn lemma_full_steps_forward_one_event_for_each_pick(picks: u32)
    ensures
        forwarded(full_steps(picks)) == Seq::new(picks as nat, |i: int| Event::MaterialPickedUp),
{
    let opening = seq![Step::quiet(Command::StartProgram)];
    let closing = seq![Step::quiet(Command::Finish(picks))];
    let middle = steps_until(picks as nat, Command::StopProgram);
    lemma_forwarded_in_two_parts(opening + middle, closing);
    lemma_forwarded_in_two_parts(opening, middle);
    lemma_quiet_step_forwards_nothing(Command::StartProgram);
    lemma_quiet_step_forwards_nothing(Command::Finish(picks));
    lemma_steps_until_forward_one_event_for_each_pick(picks as nat, Command::StopProgram);
    assert(Seq::<Event>::empty() + forwarded(middle) + Seq::<Event>::empty() =~= forwarded(
        middle,
    ));
}

/// A step that forwards nothing puts nothing on the queue.
proof fn lemma_quiet_step_forwards_nothing(command: Command)
    ensures
        forwarded(seq![Step::quiet(command)]) == Seq::<Event>::empty(),
{
    let one = seq![Step::quiet(command)];
    assert(one.drop_last().len() == 0);
    assert(forwarded(one.drop_last()) == Seq::<Event>::empty());
}

/// The steps up to `last` forward one pickup event for each pick.
proof fn lemma_steps_until_forward_one_event_for_each_pick(picks: nat, last: Command)
    ensures
        forwarded(steps_until(picks, last)) == Seq::new(picks, |i: int| Event::MaterialPickedUp),
{
    if picks == 0 {
        lemma_quiet_step_forwards_nothing(last);
        assert(Seq::<Event>::empty() =~= Seq::new(picks, |i: int| Event::MaterialPickedUp));
    } else {
        lemma_quiet_step_forwards_nothing(Command::AwaitPickup);
        lemma_picks_forward_one_event_each(picks, last);
        lemma_forwarded_in_two_parts(
            seq![Step::quiet(Command::AwaitPickup)],
            pick_steps(picks, last),
        );
        assert(Seq::<Event>::empty() + forwarded(pick_steps(picks, last)) =~= forwarded(
            pick_steps(picks, last),
        ));
    }
}

/// With a feeder that holds fewer pieces than were requested, a cycle fails
/// with `NoMoreSupply`: after it has taken every piece that the feeder held,
/// each with its placement, and before it waits for a pickup that cannot
/// come. The program is not stopped; one pickup event was forwarded for each
/// piece.
pub proof fn lemma_cycle_without_supply_fails(requested: u32, supply: u32)
    requires
        supply < requested,
    ensures
        run(CycleView::fresh(requested), supply, starved_script(supply as nat)) == (Run {
            cycle: CycleView {
                requested,
                completed: supply,
                phase: CyclePhase::Failed(CycleError::NoMoreSupply),
            },
            supply: 0,
            steps: starved_steps(supply as nat),
        }),
        starved_steps(supply as nat).last() == Step::quiet(
            Command::Abort(CycleError::NoMoreSupply),
        ),
        forwarded(starved_steps(supply as nat)) == Seq::new(
            supply as nat,
            |i: int| Event::MaterialPickedUp,
        ),
{
    lemma_cycle_up_to(requested, supply, supply as nat);
    let opening = seq![Step::quiet(Command::StartProgram)];
    let rest = steps_until(supply as nat, Command::Abort(CycleError::NoMoreSupply));
    lemma_forwarded_in_two_parts(opening, rest);
    lemma_quiet_step_forwards_nothing(Command::StartProgram);
    lemma_steps_until_forward_one_event_for_each_pick(
        supply as nat,
        Command::Abort(CycleError::NoMoreSupply),
    );
    assert(Seq::<Event>::empty() + forwarded(rest) =~= forwarded(rest));
}

/// The controller of one cycle.
pub struct CycleController {
    requested: u32,
    completed: u32,
    phase: CyclePhase,
}

impl View for CycleController {
    type V = CycleView;

    closed spec fn view(&self) -> CycleView {
        CycleView { requested: self.requested, completed: self.completed, phase: self.phase }
    }
}

impl CycleController {
    #[verifier::type_invariant]
    spec fn well_formed(&self) -> bool {
        self@.wf()
    }

    /// The controller of a cycle of `count` picks, which has not begun.
    pub fn new(count: u32) -> (r: CycleController)
        ensures
            r@ == CycleView::fresh(count),
    {
        CycleController { requested: count, completed: 0, phase: CyclePhase::Idle }
    }

    pub fn requested(&self) -> (r: u32)
        ensures
            r == self@.requested,
    {
        self.requested
    }

    /// How many picks are completed. Never more than were requested.
    pub fn completed(&self) -> (r: u32)
        ensures
            r == self@.completed,
            r <= self@.requested,
    {
        proof {
            use_type_invariant(self);
        }
        self.completed
    }

    pub fn phase(&self) -> (r: CyclePhase)
        ensures
            r == self@.phase,
    {
        self.phase
    }

    /// Takes one event and answers with the next step. A pickup consumes one
    /// piece of the feeder's supply; nothing else touches the feeder.
    pub fn step(&mut self, feeder: &mut Feeder, event: CycleEvent) -> (r: Step)
        ensures
            final(self)@ == old(self)@.step(old(feeder)@.count, event).cycle,
            final(feeder)@ == (FeederView {
                count: old(self)@.step(old(feeder)@.count, event).supply,
                ..old(feeder)@
            }),
            r == old(self)@.step(old(feeder)@.count, event).step,
    {
        proof {
            use_type_invariant(&*self);
        }
        let requested = self.requested;
        let completed = self.completed;
        match (self.phase, event) {
            (CyclePhase::Completed, _) => Step { forward: None, command: Command::Finish(completed) },
            (CyclePhase::Failed(error), _) => Step { forward: None, command: Command::Abort(error) },
            (CyclePhase::Idle, CycleEvent::Begin) => {
                *self = CycleController { requested, completed, phase: CyclePhase::Starting };
                Step { forward: None, command: Command::StartProgram }
            },
            (CyclePhase::Starting, CycleEvent::ProgramStarted) => self.proceed(feeder, completed),
            (CyclePhase::Starting, CycleEvent::ProgramStartFailed) => self.give_up(
                CycleError::ProgramContractViolation,
            ),
            (CyclePhase::AwaitingPickup, CycleEvent::EdgeObserved) => {
                match feeder.async_next_event() {
                    Ok(picked) => {
                        *self = CycleController {
                            requested,
                            completed,
                            phase: CyclePhase::AwaitingPlacement,
                        };
                        Step { forward: Some(picked), command: Command::AwaitPlacement }
                    },
                    Err(_) => self.give_up(CycleError::NoMoreSupply),
                }
            },
            (CyclePhase::AwaitingPlacement, CycleEvent::EdgeObserved) => self.proceed(
                feeder,
                completed + 1,
            ),
            (CyclePhase::AwaitingPickup, CycleEvent::LineClosed)
            | (CyclePhase::AwaitingPlacement, CycleEvent::LineClosed) => self.give_up(
                CycleError::LineUnavailable,
            ),
            (CyclePhase::Stopping, CycleEvent::ProgramStopped) => {
                *self = CycleController { requested, completed, phase: CyclePhase::Completed };
                Step { forward: None, command: Command::Finish(completed) }
            },
            (CyclePhase::Stopping, CycleEvent::ProgramStopFailed) => self.give_up(
                CycleError::ProgramContractViolation,
            ),
            _ => self.give_up(CycleError::UnexpectedEvent),
        }
    }

    /// Takes a series of events, one after the other, and gives the answers
    /// in order.
    pub fn drive(&mut self, feeder: &mut Feeder, events: &Vec<CycleEvent>) -> (steps: Vec<Step>)
        ensures
            final(self)@ == run(old(self)@, old(feeder)@.count, events@).cycle,
            final(feeder)@ == (FeederView {
                count: run(old(self)@, old(feeder)@.count, events@).supply,
                ..old(feeder)@
            }),
            steps@ == run(old(self)@, old(feeder)@.count, events@).steps,
    {
        let mut steps: Vec<Step> = Vec::new();
        let mut i: usize = 0;
        assert(events@.take(0).len() == 0);
        while i < events.len()
            invariant
                i <= events.len(),
                self@ == run(old(self)@, old(feeder)@.count, events@.take(i as int)).cycle,
                feeder@ == (FeederView {
                    count: run(old(self)@, old(feeder)@.count, events@.take(i as int)).supply,
                    ..old(feeder)@
                }),
                steps@ == run(old(self)@, old(feeder)@.count, events@.take(i as int)).steps,
            decreases events.len() - i,
        {
            assert(events@.take(i + 1).drop_last() =~= events@.take(i as int));
            assert(events@.take(i + 1).last() == events@[i as int]);
            let step = self.step(feeder, events[i]);
            steps.push(step);
            i = i + 1;
        }
        assert(events@.take(i as int) =~= events@);
        steps
    }

    /// Moves on, with `completed` picks done, to the next pick or to the
    /// end. The feeder is asked for its supply before anything is waited
    /// for.
    fn proceed(&mut self, feeder: &Feeder, completed: u32) -> (r: Step)
        requires
            completed <= old(self)@.requested,
        ensures
            final(self)@ == (CycleView { completed, ..old(self)@ }).proceed(feeder@.count).cycle,
            r == (CycleView { completed, ..old(self)@ }).proceed(feeder@.count).step,
    {
        let requested = self.requested;
        if completed >= requested {
            *self = CycleController { requested, completed, phase: CyclePhase::Stopping };
            Step { forward: None, command: Command::StopProgram }
        } else {
            match feeder.check_supply() {
                Ok(()) => {
                    *self = CycleController {
                        requested,
                        completed,
                        phase: CyclePhase::AwaitingPickup,
                    };
                    Step { forward: None, command: Command::AwaitPickup }
                },
                Err(_) => {
                    *self = CycleController {
                        requested,
                        completed,
                        phase: CyclePhase::Failed(CycleError::NoMoreSupply),
                    };
                    Step { forward: None, command: Command::Abort(CycleError::NoMoreSupply) }
                },
            }
        }
    }

    /// Gives the cycle up.
    fn give_up(&mut self, error: CycleError) -> (r: Step)
        ensures
            final(self)@ == old(self)@.in_phase(CyclePhase::Failed(error)),
            r == Step::quiet(Command::Abort(error)),
    {
        proof {
            use_type_invariant(&*self);
        }
        *self = CycleController {
            requested: self.requested,
            completed: self.completed,
            phase: CyclePhase::Failed(error),
        };
        Step { forward: None, command: Command::Abort(error) }
    }
}

} // verus!
