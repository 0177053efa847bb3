//! The operating modes and the table that moves between them.
use vstd::prelude::*;

verus! {

/// A request, made by the mode that runs, to move to another mode.
#[derive(Clone, Copy, Debug, PartialEq, Eq, Structural)]
pub enum FSMEvent {
    Button1Pressed,
    Button2Pressed,
    BatteryIsLow,
}

/// The operating modes of the robot.
#[derive(Clone, Copy, Debug, PartialEq, Eq, Structural)]
pub enum FSMState {
    Idle,
    Calibration,
    LineFollowing,
    BatteryLow,
}

/// The mode that follows `state` on `event`. A low battery stops the robot from any mode and
/// the robot stays stopped; button 1 moves forward (idle to calibration to line following),
/// button 2 goes back to idle.
pub open spec fn transition(state: FSMState, event: FSMEvent) -> FSMState {
    match (state, event) {
        (FSMState::BatteryLow, _) => FSMState::BatteryLow,
        (_, FSMEvent::BatteryIsLow) => FSMState::BatteryLow,
        (FSMState::Idle, FSMEvent::Button1Pressed) => FSMState::Calibration,
        (FSMState::Calibration, FSMEvent::Button1Pressed) => FSMState::LineFollowing,
        (FSMState::LineFollowing, FSMEvent::Button1Pressed) => FSMState::LineFollowing,
        (_, FSMEvent::Button2Pressed) => FSMState::Idle,
    }
}

/// The mode that follows `state` on `event`.
pub fn next_state(state: FSMState, event: FSMEvent) -> (r: FSMState)
    ensures
        r == transition(state, event),
{
    match (state, event) {
        (FSMState::BatteryLow, _) => FSMState::BatteryLow,
        (_, FSMEvent::BatteryIsLow) => FSMState::BatteryLow,
        (FSMState::Idle, FSMEvent::Button1Pressed) => FSMState::Calibration,
        (FSMState::Calibration, FSMEvent::Button1Pressed) => FSMState::LineFollowing,
        (FSMState::LineFollowing, FSMEvent::Button1Pressed) => FSMState::LineFollowing,
        (_, FSMEvent::Button2Pressed) => FSMState::Idle,
    }
}

} // verus!
