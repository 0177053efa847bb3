//! The calibration mode as a state machine. The machine decides; its caller performs each
//! requested action on the hardware and reports back what it observed.
//!
//! The mode greets the operator, waits for a start or cancel signal (button 1, button 2, or
//! the bytes `'1'` and `'2'` on the serial line, polled in that order), sweeps the chassis
//! left and right over the line while it widens each sensor's band, stores the midpoint
//! of each band as that sensor's threshold, beeps twice, and waits for the operator to go on
//! to line following or back to idle.
//!
//! Both ends of each band start at zero, so the lower end never moves; and within one sweep
//! round the band and the direction rule use the reading taken when the round began.
use vstd::prelude::*;
use crate::fsm::FSMEvent;
use crate::status::LineFollowerStatus;
use crate::sweep::{
    LightMap, RotationDirection, raised, lowered, settled_direction, thresholds_of,
    update_min_and_max_values, calculate_light_thresholds, settle_direction,
};

verus! {

/// Number of sweep rounds.
pub const SWEEP_ROUNDS: u8 = 6;
/// Motor duty of one rotation increment.
pub const ROTATION_DUTY: u16 = u16::MAX / 5;
/// Duration of one rotation increment, in milliseconds.
pub const ROTATION_TIME_MS: u32 = 50;
/// Wait before the start signal is polled, so that a held button is released first.
pub const RELEASE_DELAY_MS: u32 = 2000;
/// Wait after the sweep, with the sensor lights off.
pub const SETTLE_DELAY_MS: u32 = 3000;
/// Gap between the two beeps.
pub const BEEP_GAP_MS: u32 = 50;
/// Duty cycle of a beep, in percent.
pub const BEEP_DUTY_PERCENT: u8 = 70;
/// Tone of a beep, in hertz.
pub const BEEP_FREQUENCY_HZ: u32 = 1828;
/// Length of a beep, in milliseconds.
pub const BEEP_TIME_MS: u32 = 100;

/// Lines written to the operator.
#[derive(Clone, Copy, Debug, PartialEq, Eq, Structural)]
pub enum Message {
    CalibrationState,
    PressButton1ToStart,
    ExitCalibration,
    CalibrationStarted,
    CalibrationDone,
    PressButton1ToFollow,
    PressButton2ToIdle,
}

impl Message {
    /// The line as written on the serial port.
    pub fn text(&self) -> (r: &'static str)
        ensures
            *self == Message::CalibrationState ==> r@ == "Calibration state\r\n"@,
            *self == Message::PressButton1ToStart ==> r@ == "Press button 1 to start calibration\r\n"@,
            *self == Message::ExitCalibration ==> r@ == "Exit calibration\r\n"@,
            *self == Message::CalibrationStarted ==> r@ == "Calibration started\r\n"@,
            *self == Message::CalibrationDone ==> r@ == "Calibration done\r\n"@,
            *self == Message::PressButton1ToFollow ==> r@ == "Press button 1 to start line following\r\n"@,
            *self == Message::PressButton2ToIdle ==> r@ == "Press button 2 to go back to idle\r\n"@,
    {
        match self {
            Message::CalibrationState => "Calibration state\r\n",
            Message::PressButton1ToStart => "Press button 1 to start calibration\r\n",
            Message::ExitCalibration => "Exit calibration\r\n",
            Message::CalibrationStarted => "Calibration started\r\n",
            Message::CalibrationDone => "Calibration done\r\n",
            Message::PressButton1ToFollow => "Press button 1 to start line following\r\n",
            Message::PressButton2ToIdle => "Press button 2 to go back to idle\r\n",
        }
    }
}

/// Work that the machine asks of its caller.
#[derive(Clone, Copy, Debug, PartialEq, Eq, Structural)]
pub enum Action {
    /// Write a line; answer `Done`.
    Log(Message),
    /// Wait this many milliseconds; answer `Done`.
    Delay(u32),
    /// Read button 1; answer `Button`.
    PollButton1,
    /// Read button 2; answer `Button`.
    PollButton2,
    /// Read one byte of the serial line without waiting; answer `Serial`.
    ReadSerial,
    /// Switch the sensor lights; answer `Done`.
    SetLed(bool),
    /// Read the light sensors; answer `Light`.
    ReadLightMap,
    /// Turn the chassis at `duty` for `time_ms`, then stop the motors; answer `Done`.
    Rotate { direction: RotationDirection, duty: u16, time_ms: u32 },
    /// Sound the buzzer at the tone given for `time_ms`, then silence it; answer `Done`.
    Beep { duty_percent: u8, frequency_hz: u32, time_ms: u32 },
    /// The mode is over; this is its outcome.
    Finish(FSMEvent),
}

/// What the caller observed while performing an action.
#[derive(Clone, Copy, Debug)]
pub enum Event {
    Done,
    Button(bool),
    Serial(Option<u8>),
    Light(LightMap),
}

/// Where the mode stands: each phase names the action that it waits on.
#[derive(Clone, Copy, Debug, PartialEq, Eq, Structural)]
pub enum Phase {
    Greeting,
    StartPrompt,
    ReleaseWait,
    StartButton1,
    StartButton2,
    StartSerial,
    ExitNotice,
    StartNotice,
    LedOn,
    Sampling,
    Rotating,
    LedOff,
    SettleWait,
    DoneNotice,
    FirstBeep,
    BeepGap,
    SecondBeep,
    FollowPrompt,
    IdlePrompt,
    ChoiceButton1,
    ChoiceButton2,
    ChoiceSerial,
    Finished(FSMEvent),
}

/// The calibration mode in progress.
#[derive(Clone, Copy, Debug)]
pub struct Calibration {
    pub phase: Phase,
    /// Direction of the rotation increments.
    pub direction: RotationDirection,
    /// Index of the sweep round in progress.
    pub round: u8,
    /// The reading taken when the sweep round began.
    pub light_values: LightMap,
    pub min_values: LightMap,
    pub max_values: LightMap,
}

/// The rotation increment in `direction`.
pub open spec fn rotate_action(direction: RotationDirection) -> Action {
    Action::Rotate { direction, duty: ROTATION_DUTY, time_ms: ROTATION_TIME_MS }
}

/// The beep that marks the end of the sweep.
pub open spec fn beep_action() -> Action {
    Action::Beep { duty_percent: BEEP_DUTY_PERCENT, frequency_hz: BEEP_FREQUENCY_HZ, time_ms: BEEP_TIME_MS }
}

/// Whether `event` is the kind of answer that `phase` waits on.
pub open spec fn answers(phase: Phase, event: Event) -> bool {
    match phase {
        Phase::StartButton1 | Phase::StartButton2 | Phase::ChoiceButton1
        | Phase::ChoiceButton2 => event is Button,
        Phase::StartSerial | Phase::ChoiceSerial => event is Serial,
        Phase::Sampling => event is Light,
        Phase::Finished(_) => true,
        _ => event is Done,
    }
}

/// The calibration mode in progress, with the readings and bands as sequences.
pub struct CalibrationModel {
    pub phase: Phase,
    pub direction: RotationDirection,
    pub round: int,
    pub light_values: Seq<u16>,
    pub min_values: Seq<u16>,
    pub max_values: Seq<u16>,
}

impl View for Calibration {
    type V = CalibrationModel;

    open spec fn view(&self) -> CalibrationModel {
        CalibrationModel {
            phase: self.phase,
            direction: self.direction,
            round: self.round as int,
            light_values: self.light_values@,
            min_values: self.min_values@,
            max_values: self.max_values@,
        }
    }
}

impl CalibrationModel {
    /// The action that the machine waits on.
    pub open spec fn pending(self) -> Action {
        match self.phase {
            Phase::Greeting => Action::Log(Message::CalibrationState),
            Phase::StartPrompt => Action::Log(Message::PressButton1ToStart),
            Phase::ReleaseWait => Action::Delay(RELEASE_DELAY_MS),
            Phase::StartButton1 => Action::PollButton1,
            Phase::StartButton2 => Action::PollButton2,
            Phase::StartSerial => Action::ReadSerial,
            Phase::ExitNotice => Action::Log(Message::ExitCalibration),
            Phase::StartNotice => Action::Log(Message::CalibrationStarted),
            Phase::LedOn => Action::SetLed(true),
            Phase::Sampling => Action::ReadLightMap,
            Phase::Rotating => rotate_action(self.direction),
            Phase::LedOff => Action::SetLed(false),
            Phase::SettleWait => Action::Delay(SETTLE_DELAY_MS),
            Phase::DoneNotice => Action::Log(Message::CalibrationDone),
            Phase::FirstBeep => beep_action(),
            Phase::BeepGap => Action::Delay(BEEP_GAP_MS),
            Phase::SecondBeep => beep_action(),
            Phase::FollowPrompt => Action::Log(Message::PressButton1ToFollow),
            Phase::IdlePrompt => Action::Log(Message::PressButton2ToIdle),
            Phase::ChoiceButton1 => Action::PollButton1,
            Phase::ChoiceButton2 => Action::PollButton2,
            Phase::ChoiceSerial => Action::ReadSerial,
            Phase::Finished(e) => Action::Finish(e),
        }
    }

    /// The machine in `phase`, all else kept.
    pub open spec fn with_phase(self, phase: Phase) -> Self {
        CalibrationModel { phase, ..self }
    }

    /// Whether the answer `event` ends the sweep: the last round settles on a direction.
    pub open spec fn ends_sweep(self, event: Event) -> bool {
        &&& self.phase == Phase::Rotating
        &&& event is Done
        &&& settled_direction(self.light_values) is Some
        &&& self.round + 1 >= SWEEP_ROUNDS
    }

    /// The machine after the answer `event`. An answer of the wrong kind changes nothing,
    /// so that the same action is asked for again.
    pub open spec fn next(self, event: Event) -> Self {
        if !answers(self.phase, event) {
            self
        } else {
            match self.phase {
                Phase::Greeting => self.with_phase(Phase::StartPrompt),
                Phase::StartPrompt => self.with_phase(Phase::ReleaseWait),
                Phase::ReleaseWait => self.with_phase(Phase::StartButton1),
                Phase::StartButton1 => self.with_phase(
                    if event == Event::Button(true) { Phase::StartNotice } else { Phase::StartButton2 },
                ),
                Phase::StartButton2 => self.with_phase(
                    if event == Event::Button(true) { Phase::ExitNotice } else { Phase::StartSerial },
                ),
                Phase::StartSerial => self.with_phase(
                    if event == Event::Serial(Some(0x31u8)) {
                        Phase::StartNotice
                    } else if event == Event::Serial(Some(0x32u8)) {
                        Phase::ExitNotice
                    } else {
                        Phase::StartButton1
                    },
                ),
                Phase::ExitNotice => self.with_phase(Phase::Finished(FSMEvent::Button2Pressed)),
                Phase::StartNotice => self.with_phase(Phase::LedOn),
                Phase::LedOn => CalibrationModel {
                    phase: Phase::Sampling,
                    direction: RotationDirection::Left,
                    round: 0,
                    min_values: Seq::new(8, |i: int| 0u16),
                    max_values: Seq::new(8, |i: int| 0u16),
                    ..self
                },
                Phase::Sampling => match event {
                    Event::Light(v) => CalibrationModel { phase: Phase::Rotating, light_values: v@, ..self },
                    _ => self,
                },
                Phase::Rotating => {
                    let widened = CalibrationModel {
                        min_values: lowered(self.min_values, self.light_values),
                        max_values: raised(self.max_values, self.light_values),
                        ..self
                    };
                    match settled_direction(self.light_values) {
                        None => widened,
                        Some(d) => if self.round + 1 < SWEEP_ROUNDS {
                            CalibrationModel { phase: Phase::Sampling, direction: d, round: self.round + 1, ..widened }
                        } else {
                            CalibrationModel { phase: Phase::LedOff, direction: d, ..widened }
                        },
                    }
                },
                Phase::LedOff => self.with_phase(Phase::SettleWait),
                Phase::SettleWait => self.with_phase(Phase::DoneNotice),
                Phase::DoneNotice => self.with_phase(Phase::FirstBeep),
                Phase::FirstBeep => self.with_phase(Phase::BeepGap),
                Phase::BeepGap => self.with_phase(Phase::SecondBeep),
                Phase::SecondBeep => self.with_phase(Phase::FollowPrompt),
                Phase::FollowPrompt => self.with_phase(Phase::IdlePrompt),
                Phase::IdlePrompt => self.with_phase(Phase::ChoiceButton1),
                Phase::ChoiceButton1 => self.with_phase(
                    if event == Event::Button(true) {
                        Phase::Finished(FSMEvent::Button1Pressed)
                    } else {
                        Phase::ChoiceButton2
                    },
                ),
                Phase::ChoiceButton2 => self.with_phase(
                    if event == Event::Button(true) { Phase::ExitNotice } else { Phase::ChoiceSerial },
                ),
                Phase::ChoiceSerial => self.with_phase(
                    if event == Event::Serial(Some(0x31u8)) {
                        Phase::Finished(FSMEvent::Button1Pressed)
                    } else if event == Event::Serial(Some(0x32u8)) {
                        Phase::Finished(FSMEvent::Button2Pressed)
                    } else {
                        Phase::ChoiceButton1
                    },
                ),
                Phase::Finished(_) => self,
            }
        }
    }
}

/// When the reading of a sweep round has its smallest value at the leftmost sensor, also
/// where the rightmost sensor ties with it, the rotation increment ends the round's search
/// and the machine turns left from then on.
pub proof fn lemma_leftmost_minimum_selects_left(m: CalibrationModel)
    requires
        m.phase == Phase::Rotating,
        m.light_values.len() == 8,
        forall|j: int| 0 <= j < 8 ==> m.light_values[0] <= #[trigger] m.light_values[j],
    ensures
        m.next(Event::Done).direction == RotationDirection::Left,
        m.next(Event::Done).phase != Phase::Rotating,
{
}

/// In a round whose reading settles no direction, a second rotation increment leaves the
/// machine, band included, as the first one left it.
pub proof fn lemma_round_band_settles(m: CalibrationModel)
    requires
        m.phase == Phase::Rotating,
        m.light_values.len() == 8,
        m.min_values.len() == 8,
        m.max_values.len() == 8,
        settled_direction(m.light_values) is None,
    ensures
        m.next(Event::Done).next(Event::Done) == m.next(Event::Done),
{
    crate::sweep::lemma_band_update_idempotent(m.min_values, m.max_values, m.light_values);
}

impl Calibration {
    /// The mode on entry: it greets the operator first.
    pub fn new() -> (r: Self)
        ensures
            r@.phase == Phase::Greeting,
            r@.round == 0,
            r@.direction == RotationDirection::Left,
            r.light_values@ == Seq::new(8, |i: int| 0u16),
            r.min_values@ == Seq::new(8, |i: int| 0u16),
            r.max_values@ == Seq::new(8, |i: int| 0u16),
    {
        let r = Calibration {
            phase: Phase::Greeting,
            direction: RotationDirection::Left,
            round: 0,
            light_values: [0u16; 8],
            min_values: [0u16; 8],
            max_values: [0u16; 8],
        };
        assert(r.light_values@ =~= Seq::new(8, |i: int| 0u16));
        r
    }

    /// The action that the machine waits on.
    pub fn pending_action(&self) -> (r: Action)
        ensures
            r == self@.pending(),
    {
        match self.phase {
            Phase::Greeting => Action::Log(Message::CalibrationState),
            Phase::StartPrompt => Action::Log(Message::PressButton1ToStart),
            Phase::ReleaseWait => Action::Delay(RELEASE_DELAY_MS),
            Phase::StartButton1 => Action::PollButton1,
            Phase::StartButton2 => Action::PollButton2,
            Phase::StartSerial => Action::ReadSerial,
            Phase::ExitNotice => Action::Log(Message::ExitCalibration),
            Phase::StartNotice => Action::Log(Message::CalibrationStarted),
            Phase::LedOn => Action::SetLed(true),
            Phase::Sampling => Action::ReadLightMap,
            Phase::Rotating => Action::Rotate {
                direction: self.direction,
                duty: ROTATION_DUTY,
                time_ms: ROTATION_TIME_MS,
            },
            Phase::LedOff => Action::SetLed(false),
            Phase::SettleWait => Action::Delay(SETTLE_DELAY_MS),
            Phase::DoneNotice => Action::Log(Message::CalibrationDone),
            Phase::FirstBeep | Phase::SecondBeep => Action::Beep {
                duty_percent: BEEP_DUTY_PERCENT,
                frequency_hz: BEEP_FREQUENCY_HZ,
                time_ms: BEEP_TIME_MS,
            },
            Phase::BeepGap => Action::Delay(BEEP_GAP_MS),
            Phase::FollowPrompt => Action::Log(Message::PressButton1ToFollow),
            Phase::IdlePrompt => Action::Log(Message::PressButton2ToIdle),
            Phase::ChoiceButton1 => Action::PollButton1,
            Phase::ChoiceButton2 => Action::PollButton2,
            Phase::ChoiceSerial => Action::ReadSerial,
            Phase::Finished(e) => Action::Finish(e),
        }
    }

    /// Takes the answer to the pending action, moves on, and returns the next action. The
    /// step that ends the sweep stores the thresholds in `status`; no other step touches it.
    pub fn step<B>(&mut self, status: &mut LineFollowerStatus<B>, event: Event) -> (r: Action)
        ensures
            final(self)@ == old(self)@.next(event),
            r == final(self)@.pending(),
            final(status).board == old(status).board,
            old(self)@.ends_sweep(event) ==> (match final(status).light_sensor_thresholds {
                Some(t) => t@ == thresholds_of(final(self)@.max_values, final(self)@.min_values),
                None => false,
            }),
            !old(self)@.ends_sweep(event) ==> final(status).light_sensor_thresholds
                == old(status).light_sensor_thresholds,
    {
        let pressed = matches!(event, Event::Button(true));
        let start_byte = matches!(event, Event::Serial(Some(0x31u8)));
        let cancel_byte = matches!(event, Event::Serial(Some(0x32u8)));
        match (self.phase, event) {
            (Phase::Greeting, Event::Done) => self.phase = Phase::StartPrompt,
            (Phase::StartPrompt, Event::Done) => self.phase = Phase::ReleaseWait,
            (Phase::ReleaseWait, Event::Done) => self.phase = Phase::StartButton1,
            (Phase::StartButton1, Event::Button(_)) => {
                self.phase = if pressed { Phase::StartNotice } else { Phase::StartButton2 };
            },
            (Phase::StartButton2, Event::Button(_)) => {
                self.phase = if pressed { Phase::ExitNotice } else { Phase::StartSerial };
            },
            (Phase::StartSerial, Event::Serial(_)) => {
                self.phase = if start_byte {
                    Phase::StartNotice
                } else if cancel_byte {
                    Phase::ExitNotice
                } else {
                    Phase::StartButton1
                };
            },
            (Phase::ExitNotice, Event::Done) => {
                self.phase = Phase::Finished(FSMEvent::Button2Pressed);
            },
            (Phase::StartNotice, Event::Done) => self.phase = Phase::LedOn,
            (Phase::LedOn, Event::Done) => {
                self.phase = Phase::Sampling;
                self.direction = RotationDirection::Left;
                self.round = 0;
                self.min_values = [0u16; 8];
                self.max_values = [0u16; 8];
                assert(self.min_values@ =~= Seq::new(8, |i: int| 0u16));
                assert(self.max_values@ =~= Seq::new(8, |i: int| 0u16));
            },
            (Phase::Sampling, Event::Light(v)) => {
                self.phase = Phase::Rotating;
                self.light_values = v;
            },
            (Phase::Rotating, Event::Done) => {
                let light_values = self.light_values;
                update_min_and_max_values(&light_values, &mut self.min_values, &mut self.max_values);
                match settle_direction(&light_values) {
                    None => {},
                    Some(d) => {
                        self.direction = d;
                        if self.round < SWEEP_ROUNDS - 1 {
                            self.round = self.round + 1;
                            self.phase = Phase::Sampling;
                        } else {
                            self.phase = Phase::LedOff;
                            status.light_sensor_thresholds = Some(
                                calculate_light_thresholds(self.max_values, self.min_values),
                            );
                        }
                    },
                }
            },
            (Phase::LedOff, Event::Done) => self.phase = Phase::SettleWait,
            (Phase::SettleWait, Event::Done) => self.phase = Phase::DoneNotice,
            (Phase::DoneNotice, Event::Done) => self.phase = Phase::FirstBeep,
            (Phase::FirstBeep, Event::Done) => self.phase = Phase::BeepGap,
            (Phase::BeepGap, Event::Done) => self.phase = Phase::SecondBeep,
            (Phase::SecondBeep, Event::Done) => self.phase = Phase::FollowPrompt,
            (Phase::FollowPrompt, Event::Done) => self.phase = Phase::IdlePrompt,
            (Phase::IdlePrompt, Event::Done) => self.phase = Phase::ChoiceButton1,
            (Phase::ChoiceButton1, Event::Button(_)) => {
                self.phase = if pressed {
                    Phase::Finished(FSMEvent::Button1Pressed)
                } else {
                    Phase::ChoiceButton2
                };
            },
            (Phase::ChoiceButton2, Event::Button(_)) => {
                self.phase = if pressed { Phase::ExitNotice } else { Phase::ChoiceSerial };
            },
            (Phase::ChoiceSerial, Event::Serial(_)) => {
                self.phase = if start_byte {
                    Phase::Finished(FSMEvent::Button1Pressed)
                } else if cancel_byte {
                    Phase::Finished(FSMEvent::Button2Pressed)
                } else {
                    Phase::ChoiceButton1
                };
            },
            _ => {},
        }
        self.pending_action()
    }
}

} // verus!
