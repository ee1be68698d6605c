use manufacturing_cell::gcp_iot::EventSource;
use manufacturing_cell::manufacturing_components::feeder::{Error, Event, Feeder};
use manufacturing_cell::manufacturing_components::piston::{Actuation, Piston, PistonStates};
use manufacturing_cell::manufacturing_components::program::{
    ManufacturingProgram, ProgramState, SimplifiedScenario2,
};
use manufacturing_cell::manufacturing_components::robot::{Robot, RobotPosition};
use manufacturing_cell::manufacturing_components::{EdgeDetection, LineUse};
use std::time::Duration;

const STAMP: &str = "2015-05-15T00:00:00+00:00";

#[test]
fn feeder_to_json() {
    let feeder = Feeder::new("material feeder", 5, 0);

    let json = feeder.to_json().unwrap();
    println!("{json}")
}

#[test]
fn piston_to_json() {
    let piston = Piston::new("piston 1", 0);
    let json = piston.to_json().unwrap();
    println!("{json}");
}

#[test]
fn robot_to_json() {
    let robot = Robot::new("robot 1", 0);
    let json = robot.to_json().unwrap();
    println!("{json}")
}

#[test]
fn feeder_snapshot_has_name_count_and_time() {
    let feeder = Feeder::new("material feeder", 5, 0);
    assert_eq!(
        feeder.to_json_at(STAMP).unwrap(),
        r#"{"name":"material feeder","count":5,"updateTimestamp":"2015-05-15T00:00:00+00:00"}"#
    );
}

#[test]
fn robot_snapshot_has_name_position_and_time() {
    let mut robot = Robot::new("robot 1", 0);
    assert_eq!(
        robot.to_json_at(STAMP).unwrap(),
        r#"{"name":"robot 1","position":"position 1","updateTimestamp":"2015-05-15T00:00:00+00:00"}"#
    );
    robot.async_next_event();
    assert_eq!(
        robot.to_json_at(STAMP).unwrap(),
        r#"{"name":"robot 1","position":"position 15","updateTimestamp":"2015-05-15T00:00:00+00:00"}"#
    );
    robot.async_next_event();
    assert_eq!(
        robot.to_json_at(STAMP).unwrap(),
        r#"{"name":"robot 1","position":"position 66","updateTimestamp":"2015-05-15T00:00:00+00:00"}"#
    );
}

#[test]
fn piston_snapshot_has_name_state_and_time() {
    let mut piston = Piston::new("piston 1", 0);
    assert_eq!(
        piston.to_json_at(STAMP).unwrap(),
        r#"{"name":"piston 1","state":"steady","updateTimestamp":"2015-05-15T00:00:00+00:00"}"#
    );
    piston.depress();
    assert_eq!(
        piston.to_json_at(STAMP).unwrap(),
        r#"{"name":"piston 1","state":"depressed","updateTimestamp":"2015-05-15T00:00:00+00:00"}"#
    );
}

#[test]
fn snapshot_escapes_what_json_escapes() {
    let feeder = Feeder::new("feeder \"A\"\n", 12, 0);
    assert_eq!(
        feeder.to_json_at("now").unwrap(),
        r#"{"name":"feeder \"A\"\n","count":12,"updateTimestamp":"now"}"#
    );
}

#[test]
fn snapshot_is_stamped_with_a_time_that_parses() {
    let feeder = Feeder::new("material feeder", 5, 0);
    let json = feeder.to_json().unwrap();
    let value: serde_json::Value = serde_json::from_str(&json).unwrap();
    assert_eq!(value["name"].as_str(), Some("material feeder"));
    assert_eq!(value["count"].as_u64(), Some(5));
    let stamp = value["updateTimestamp"].as_str().unwrap();
    let time = chrono::DateTime::parse_from_rfc3339(stamp).unwrap();
    assert_eq!(time.offset().local_minus_utc(), 0);
}

#[test]
fn pickup_takes_one_piece() {
    let mut feeder = Feeder::new("Material feeder", 10, 4);
    assert_eq!(feeder.name(), "Material feeder");
    assert_eq!(feeder.remaining_supply(), 10);
    assert_eq!(feeder.check_supply(), Ok(()));
    assert_eq!(feeder.async_next_event(), Ok(Event::MaterialPickedUp));
    assert_eq!(feeder.remaining_supply(), 9);
}

#[test]
fn empty_feeder_gives_no_event() {
    let mut feeder = Feeder::new("Material feeder", 1, 4);
    assert_eq!(feeder.async_next_event(), Ok(Event::MaterialPickedUp));
    assert_eq!(feeder.remaining_supply(), 0);
    assert_eq!(feeder.check_supply(), Err(Error::NoMoreSupply));
    assert_eq!(feeder.async_next_event(), Err(Error::NoMoreSupply));
    assert_eq!(feeder.remaining_supply(), 0);
}

#[test]
fn error_in_words() {
    assert_eq!(
        Error::NoMoreSupply.to_string(),
        "Error: There are no more supply in the feeder"
    );
}

#[test]
fn replenishment_adds_to_the_supply() {
    let mut feeder = Feeder::new("Material feeder", 3, 4);
    feeder.add_new_material(4);
    assert_eq!(feeder.remaining_supply(), 7);
    feeder.add_new_material(0);
    assert_eq!(feeder.remaining_supply(), 7);
}

#[test]
fn replenishment_and_pickup_in_either_order() {
    let mut first = Feeder::new("Material feeder", 3, 4);
    first.add_new_material(5);
    first.async_next_event().unwrap();

    let mut second = Feeder::new("Material feeder", 3, 4);
    second.async_next_event().unwrap();
    second.add_new_material(5);

    assert_eq!(first.remaining_supply(), 7);
    assert_eq!(second.remaining_supply(), 7);
}

#[test]
fn replenishment_revives_an_empty_feeder() {
    let mut feeder = Feeder::new("Material feeder", 0, 4);
    assert_eq!(feeder.async_next_event(), Err(Error::NoMoreSupply));
    feeder.add_new_material(1);
    assert_eq!(feeder.async_next_event(), Ok(Event::MaterialPickedUp));
}

#[test]
fn replenishment_up_to_the_limit() {
    let mut feeder = Feeder::new("Material feeder", 1, 4);
    feeder.add_new_material(u32::MAX - 1);
    assert_eq!(feeder.remaining_supply(), u32::MAX);
}

#[test]
fn line_level_one_reports_the_feeder_empty() {
    let feeder = Feeder::new("Material feeder", 10, 4);
    assert!(feeder.is_empty(1));
    assert!(!feeder.is_empty(0));
    assert!(!feeder.is_empty(2));
}

#[test]
fn feeder_observes_both_edges() {
    let feeder = Feeder::new("Material feeder", 10, 4);
    let request = feeder.line_request();
    assert_eq!(request.line, 4);
    assert_eq!(request.purpose, LineUse::Events(EdgeDetection::BothEdges));
    assert_eq!(request.consumer, "Material feeder consumer");
}

#[test]
fn robot_observes_rising_edges() {
    let robot = Robot::new("robot 1", 9);
    let request = robot.line_request();
    assert_eq!(request.line, 9);
    assert_eq!(request.purpose, LineUse::Events(EdgeDetection::RisingEdge));
    assert_eq!(request.consumer, "robot 1 consumer");
}

#[test]
fn piston_drives_an_output() {
    let piston = Piston::new("piston 1", 2);
    let request = piston.line_request();
    assert_eq!(request.line, 2);
    assert_eq!(request.purpose, LineUse::Output { initial: 0 });
    assert_eq!(request.consumer, "piston 1 consumer");
}

#[test]
fn robot_starts_at_position_one() {
    let robot = Robot::new("robot 1", 9);
    assert_eq!(robot.name(), "robot 1");
    assert_eq!(robot.position(), RobotPosition::Position1);
    assert_eq!(RobotPosition::default(), RobotPosition::Position1);
}

#[test]
fn three_edges_bring_the_robot_back() {
    let mut robot = Robot::new("robot 1", 9);
    assert_eq!(
        robot.async_next_event(),
        Event::PositionReached(RobotPosition::Position15)
    );
    assert_eq!(robot.position(), RobotPosition::Position15);
    assert_eq!(
        robot.async_next_event(),
        Event::PositionReached(RobotPosition::Position66)
    );
    assert_eq!(robot.position(), RobotPosition::Position66);
    assert_eq!(
        robot.async_next_event(),
        Event::PositionReached(RobotPosition::Position1)
    );
    assert_eq!(robot.position(), RobotPosition::Position1);
}

#[test]
fn positions_follow_each_other_in_a_cycle() {
    assert_eq!(RobotPosition::Position1.next(), RobotPosition::Position15);
    assert_eq!(RobotPosition::Position15.next(), RobotPosition::Position66);
    assert_eq!(RobotPosition::Position66.next(), RobotPosition::Position1);
    assert_eq!(RobotPosition::Position1.label(), "position 1");
    assert_eq!(RobotPosition::Position15.label(), "position 15");
    assert_eq!(RobotPosition::Position66.label(), "position 66");
}

#[test]
fn piston_state_is_what_was_written() {
    let mut piston = Piston::new("piston 1", 2);
    assert_eq!(piston.name(), "piston 1");
    assert_eq!(piston.state(), PistonStates::Steady);
    assert_eq!(
        piston.depress(),
        Event::ActuatorChanged(PistonStates::Depressed)
    );
    assert_eq!(piston.state(), PistonStates::Depressed);
    assert_eq!(
        piston.depress(),
        Event::ActuatorChanged(PistonStates::Depressed)
    );
    assert_eq!(piston.state(), PistonStates::Depressed);
    assert_eq!(piston.steady(), Event::ActuatorChanged(PistonStates::Steady));
    assert_eq!(piston.state(), PistonStates::Steady);
}

#[test]
fn piston_states_have_levels_and_labels() {
    assert_eq!(PistonStates::default(), PistonStates::Steady);
    assert_eq!(PistonStates::Steady.level(), 0);
    assert_eq!(PistonStates::Depressed.level(), 1);
    assert_eq!(PistonStates::Steady.label(), "steady");
    assert_eq!(PistonStates::Depressed.label(), "depressed");
}

#[test]
fn depress_for_goes_down_holds_and_comes_up() {
    let mut piston = Piston::new("piston 1", 2);
    let hold = Duration::from_millis(250);
    assert_eq!(
        piston.depress_for(hold),
        vec![
            Actuation::Drive(PistonStates::Depressed),
            Actuation::Hold(hold),
            Actuation::Drive(PistonStates::Steady),
        ]
    );
    assert_eq!(piston.state(), PistonStates::Steady);
}

#[test]
fn program_starts_and_stops() {
    let mut program = SimplifiedScenario2::new(21);
    assert_eq!(program.state(), ProgramState::Idle);
    assert_eq!(program.start(), Ok(1));
    assert_eq!(program.state(), ProgramState::Running);
    assert_eq!(program.start(), Ok(1));
    assert_eq!(program.state(), ProgramState::Running);
    assert_eq!(program.stop(), Ok(0));
    assert_eq!(program.state(), ProgramState::Idle);
    assert_eq!(program.stop(), Ok(0));
    assert_eq!(program.state(), ProgramState::Idle);
}

#[test]
fn program_controls_an_output_that_starts_low() {
    let program = SimplifiedScenario2::new(21);
    let request = program.line_request();
    assert_eq!(request.line, 21);
    assert_eq!(request.purpose, LineUse::Output { initial: 0 });
    assert_eq!(request.consumer, "Simplified Scenario 2 program");
}

#[test]
fn events_name_their_source_and_their_payload() {
    assert_eq!(Event::MaterialPickedUp.source(), EventSource::Feeder);
    assert_eq!(
        Event::PositionReached(RobotPosition::Position15).source(),
        EventSource::Robot
    );
    assert_eq!(
        Event::ActuatorChanged(PistonStates::Depressed).source(),
        EventSource::Piston
    );
    assert_eq!(Event::MaterialPickedUp.payload(), r#""MaterialPickedUp""#);
    assert_eq!(
        Event::PositionReached(RobotPosition::Position1).payload(),
        r#"{"PositionReached":"position 1"}"#
    );
    assert_eq!(
        Event::PositionReached(RobotPosition::Position15).payload(),
        r#"{"PositionReached":"position 15"}"#
    );
    assert_eq!(
        Event::PositionReached(RobotPosition::Position66).payload(),
        r#"{"PositionReached":"position 66"}"#
    );
    assert_eq!(
        Event::ActuatorChanged(PistonStates::Steady).payload(),
        r#"{"ActuatorChanged":"steady"}"#
    );
    assert_eq!(
        Event::ActuatorChanged(PistonStates::Depressed).payload(),
        r#"{"ActuatorChanged":"depressed"}"#
    );
}
