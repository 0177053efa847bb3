use line_follower::calibration::{
    Action, Calibration, Event, Message, Phase, BEEP_DUTY_PERCENT, BEEP_FREQUENCY_HZ,
    BEEP_TIME_MS, ROTATION_DUTY, ROTATION_TIME_MS, SWEEP_ROUNDS,
};
use line_follower::fsm::{next_state, FSMEvent, FSMState};
use line_follower::status::LineFollowerStatus;
use line_follower::sweep::RotationDirection;

/// Runs the machine until it finishes or `limit` actions were asked, answering each action
/// with `answer`; returns the actions in order.
fn drive<F: FnMut(&Action) -> Event>(
    machine: &mut Calibration,
    status: &mut LineFollowerStatus<()>,
    limit: usize,
    mut answer: F,
) -> Vec<Action> {
    let mut actions = vec![machine.pending_action()];
    while actions.len() < limit {
        let last = *actions.last().unwrap();
        if let Action::Finish(_) = last {
            break;
        }
        let event = answer(&last);
        actions.push(machine.step(status, event));
    }
    actions
}

fn count(actions: &[Action], wanted: Action) -> usize {
    actions.iter().filter(|a| **a == wanted).count()
}

const LEFT_DARK: [u16; 8] = [100, 200, 300, 400, 500, 600, 700, 800];

fn beep() -> Action {
    Action::Beep {
        duty_percent: BEEP_DUTY_PERCENT,
        frequency_hz: BEEP_FREQUENCY_HZ,
        time_ms: BEEP_TIME_MS,
    }
}

#[test]
fn happy_path_from_idle_to_line_following() {
    assert_eq!(next_state(FSMState::Idle, FSMEvent::Button1Pressed), FSMState::Calibration);
    let mut status = LineFollowerStatus::new(());
    let mut machine = Calibration::new();
    let mut swept = false;
    let actions = drive(&mut machine, &mut status, 1000, |a| match a {
        Action::PollButton1 => Event::Button(true),
        Action::PollButton2 => Event::Button(false),
        Action::ReadSerial => Event::Serial(None),
        Action::ReadLightMap => {
            swept = true;
            Event::Light(LEFT_DARK)
        }
        _ => Event::Done,
    });
    assert!(swept);
    assert_eq!(count(&actions, Action::ReadLightMap), SWEEP_ROUNDS as usize);
    assert_eq!(count(&actions, beep()), 2);
    assert_eq!(count(&actions, Action::SetLed(true)), 1);
    assert_eq!(count(&actions, Action::SetLed(false)), 1);
    assert_eq!(status.light_sensor_thresholds, Some([50, 100, 150, 200, 250, 300, 350, 400]));
    assert_eq!(*actions.last().unwrap(), Action::Finish(FSMEvent::Button1Pressed));
    assert_eq!(next_state(FSMState::Calibration, FSMEvent::Button1Pressed), FSMState::LineFollowing);
}

#[test]
fn happy_path_action_order() {
    let mut status = LineFollowerStatus::new(());
    let mut machine = Calibration::new();
    let actions = drive(&mut machine, &mut status, 1000, |a| match a {
        Action::PollButton1 => Event::Button(true),
        Action::ReadLightMap => Event::Light(LEFT_DARK),
        _ => Event::Done,
    });
    let rotate = Action::Rotate {
        direction: RotationDirection::Left,
        duty: ROTATION_DUTY,
        time_ms: ROTATION_TIME_MS,
    };
    let mut expected = vec![
        Action::Log(Message::CalibrationState),
        Action::Log(Message::PressButton1ToStart),
        Action::Delay(2000),
        Action::PollButton1,
        Action::Log(Message::CalibrationStarted),
        Action::SetLed(true),
    ];
    for _ in 0..6 {
        expected.push(Action::ReadLightMap);
        expected.push(rotate);
    }
    expected.extend([
        Action::SetLed(false),
        Action::Delay(3000),
        Action::Log(Message::CalibrationDone),
        beep(),
        Action::Delay(50),
        beep(),
        Action::Log(Message::PressButton1ToFollow),
        Action::Log(Message::PressButton2ToIdle),
        Action::PollButton1,
        Action::Finish(FSMEvent::Button1Pressed),
    ]);
    assert_eq!(actions, expected);
    assert_eq!(ROTATION_DUTY, u16::MAX / 5);
}

#[test]
fn cancel_by_serial_before_the_sweep() {
    let mut status = LineFollowerStatus::new(());
    status.light_sensor_thresholds = Some([7; 8]);
    let mut machine = Calibration::new();
    let actions = drive(&mut machine, &mut status, 1000, |a| match a {
        Action::PollButton1 | Action::PollButton2 => Event::Button(false),
        Action::ReadSerial => Event::Serial(Some(b'2')),
        _ => Event::Done,
    });
    assert_eq!(count(&actions, Action::ReadLightMap), 0);
    assert_eq!(count(&actions, Action::SetLed(true)), 0);
    assert_eq!(status.light_sensor_thresholds, Some([7; 8]));
    assert_eq!(
        actions[actions.len() - 2..],
        [Action::Log(Message::ExitCalibration), Action::Finish(FSMEvent::Button2Pressed)]
    );
    assert_eq!(next_state(FSMState::Calibration, FSMEvent::Button2Pressed), FSMState::Idle);
}

#[test]
fn cancel_by_button_2_before_the_sweep() {
    let mut status = LineFollowerStatus::new(());
    let mut machine = Calibration::new();
    let actions = drive(&mut machine, &mut status, 1000, |a| match a {
        Action::PollButton1 => Event::Button(false),
        Action::PollButton2 => Event::Button(true),
        _ => Event::Done,
    });
    assert_eq!(count(&actions, Action::ReadSerial), 0);
    assert_eq!(status.light_sensor_thresholds, None);
    assert_eq!(*actions.last().unwrap(), Action::Finish(FSMEvent::Button2Pressed));
}

#[test]
fn cancel_after_the_sweep_keeps_the_thresholds() {
    let mut status = LineFollowerStatus::new(());
    let mut machine = Calibration::new();
    let mut beeps = 0;
    let actions = drive(&mut machine, &mut status, 1000, |a| match a {
        Action::Beep { .. } => {
            beeps += 1;
            Event::Done
        }
        Action::PollButton1 => Event::Button(beeps == 0),
        Action::PollButton2 => Event::Button(beeps == 2),
        Action::ReadSerial => Event::Serial(None),
        Action::ReadLightMap => Event::Light(LEFT_DARK),
        _ => Event::Done,
    });
    assert_eq!(beeps, 2);
    assert_eq!(*actions.last().unwrap(), Action::Finish(FSMEvent::Button2Pressed));
    assert_eq!(status.light_sensor_thresholds, Some([50, 100, 150, 200, 250, 300, 350, 400]));
}

#[test]
fn serial_start_and_serial_choices() {
    let mut status = LineFollowerStatus::new(());
    let mut machine = Calibration::new();
    let mut bytes = vec![b'x', b'1', b'9', b'2'].into_iter();
    let actions = drive(&mut machine, &mut status, 1000, |a| match a {
        Action::PollButton1 | Action::PollButton2 => Event::Button(false),
        Action::ReadSerial => Event::Serial(bytes.next()),
        Action::ReadLightMap => Event::Light(LEFT_DARK),
        _ => Event::Done,
    });
    assert_eq!(count(&actions, Action::ReadLightMap), 6);
    assert_eq!(count(&actions, Action::Log(Message::ExitCalibration)), 0);
    assert_eq!(*actions.last().unwrap(), Action::Finish(FSMEvent::Button2Pressed));
}

#[test]
fn direction_follows_the_end_that_holds_the_minimum() {
    let mut status = LineFollowerStatus::new(());
    let mut machine = Calibration::new();
    let right_dark = [800, 700, 600, 500, 400, 300, 200, 100];
    let mut rounds = 0;
    let actions = drive(&mut machine, &mut status, 1000, |a| match a {
        Action::PollButton1 => Event::Button(true),
        Action::ReadLightMap => {
            rounds += 1;
            Event::Light(if rounds % 2 == 1 { right_dark } else { LEFT_DARK })
        }
        _ => Event::Done,
    });
    let directions: Vec<RotationDirection> = actions
        .iter()
        .filter_map(|a| match a {
            Action::Rotate { direction, .. } => Some(*direction),
            _ => None,
        })
        .collect();
    let (l, r) = (RotationDirection::Left, RotationDirection::Right);
    assert_eq!(directions, vec![l, r, l, r, l, r]);
    assert_eq!(status.light_sensor_thresholds, Some([400, 350, 300, 250, 250, 300, 350, 400]));
}

#[test]
fn a_reading_with_the_minimum_inside_keeps_rotating() {
    let mut status = LineFollowerStatus::new(());
    let mut machine = Calibration::new();
    let actions = drive(&mut machine, &mut status, 200, |a| match a {
        Action::PollButton1 => Event::Button(true),
        Action::ReadLightMap => Event::Light([500, 400, 10, 400, 400, 400, 400, 500]),
        _ => Event::Done,
    });
    assert_eq!(count(&actions, Action::ReadLightMap), 1);
    assert!(count(&actions, Action::PollButton2) == 0);
    assert_eq!(machine.phase, Phase::Rotating);
    assert_eq!(machine.max_values, [500, 400, 10, 400, 400, 400, 400, 500]);
    assert_eq!(machine.min_values, [0; 8]);
    assert_eq!(status.light_sensor_thresholds, None);
}

#[test]
fn an_answer_of_the_wrong_kind_asks_again() {
    let mut status = LineFollowerStatus::new(());
    let mut machine = Calibration::new();
    assert_eq!(machine.pending_action(), Action::Log(Message::CalibrationState));
    assert_eq!(machine.step(&mut status, Event::Button(true)), Action::Log(Message::CalibrationState));
    assert_eq!(machine.step(&mut status, Event::Done), Action::Log(Message::PressButton1ToStart));
}

#[test]
fn finished_machine_stays_finished() {
    let mut status = LineFollowerStatus::new(());
    let mut machine = Calibration::new();
    machine.phase = Phase::Finished(FSMEvent::Button1Pressed);
    assert_eq!(machine.step(&mut status, Event::Done), Action::Finish(FSMEvent::Button1Pressed));
    assert_eq!(machine.step(&mut status, Event::Button(true)), Action::Finish(FSMEvent::Button1Pressed));
}

#[test]
fn message_texts() {
    assert_eq!(Message::CalibrationState.text(), "Calibration state\r\n");
    assert_eq!(Message::ExitCalibration.text(), "Exit calibration\r\n");
    assert_eq!(Message::PressButton2ToIdle.text(), "Press button 2 to go back to idle\r\n");
}

#[test]
fn mode_table() {
    assert_eq!(next_state(FSMState::Idle, FSMEvent::Button2Pressed), FSMState::Idle);
    assert_eq!(next_state(FSMState::LineFollowing, FSMEvent::Button2Pressed), FSMState::Idle);
    assert_eq!(next_state(FSMState::Calibration, FSMEvent::BatteryIsLow), FSMState::BatteryLow);
    assert_eq!(next_state(FSMState::Idle, FSMEvent::BatteryIsLow), FSMState::BatteryLow);
    assert_eq!(next_state(FSMState::BatteryLow, FSMEvent::Button1Pressed), FSMState::BatteryLow);
}
