use vstd::prelude::*;

use crate::motor::MotorsPower;

verus! {

/// Speed at start, and the speed of the fixed-speed driving commands.
pub const NORMAL_SPEED: i16 = 100;

/// Speed of the slower side while steering towards the forward heading.
pub const SLOW_SPEED: i16 = 5;

/// Speed of the faster side while steering towards the forward heading.
pub const FAST_SPEED: i16 = 120;

/// Change of speed per accelerate / decelerate command.
pub const SPEED_STEP: i16 = 5;

/// Largest speed the controller keeps.
pub const MAX_SPEED: i16 = 255;

/// Where a heading estimate points, relative to straight ahead
/// (0 is left, a quarter turn is forward, a half turn is right).
#[derive(Clone, Copy, PartialEq, Eq, Structural, Debug)]
pub enum HeadingSector {
    /// Below 80 degrees: the car points to the left.
    PointsLeft,
    /// Above 100 degrees: the car points to the right.
    PointsRight,
    /// Within 80..=100 degrees (or not comparable).
    Ahead,
}

/// What the controller reacts to: a command character from the mobile
/// app, or the sector of a new heading estimate.
#[derive(Clone, Copy, PartialEq, Eq, Structural, Debug)]
pub enum Event {
    UserCommand(char),
    HeadingUpdated(HeadingSector),
}

/// The abstract state of a [`MobileAppCommnadsController`].
pub struct MobileAppView {
    pub heading_alignment_mode: bool,
    pub current_speed: i16,
}

impl MobileAppView {
    /// The speed lies in `0..=255`.
    pub open spec fn valid(self) -> bool {
        0 <= self.current_speed <= MAX_SPEED
    }
}

/// Keeps a speed within `0..=255`.
pub open spec fn clamp_speed(v: int) -> i16 {
    if v < 0 {
        0
    } else if v > MAX_SPEED {
        MAX_SPEED
    } else {
        v as i16
    }
}

/// The power command for a driving command character at the given speed:
/// `F`/`B`/`L`/`R` drive forward/backward/left/right at the current speed,
/// `f`/`b`/`l`/`r` the same at the normal speed, `Q` full forward, `E` at
/// speed 5; every other character stops the car.
pub open spec fn to_motors_power_spec(speed: i16, command: char) -> MotorsPower {
    let s = speed;
    let n = NORMAL_SPEED;
    if command == 'F' {
        MotorsPower { left: s, right: s }
    } else if command == 'B' {
        MotorsPower { left: (-s) as i16, right: (-s) as i16 }
    } else if command == 'L' {
        MotorsPower { left: (-s) as i16, right: s }
    } else if command == 'R' {
        MotorsPower { left: s, right: (-s) as i16 }
    } else if command == 'f' {
        MotorsPower { left: n, right: n }
    } else if command == 'b' {
        MotorsPower { left: (-n) as i16, right: (-n) as i16 }
    } else if command == 'l' {
        MotorsPower { left: (-n) as i16, right: n }
    } else if command == 'r' {
        MotorsPower { left: n, right: (-n) as i16 }
    } else if command == 'Q' {
        MotorsPower { left: 255, right: 255 }
    } else if command == 'E' {
        MotorsPower { left: 5, right: 5 }
    } else {
        MotorsPower { left: 0, right: 0 }
    }
}

/// The power command that steers towards the forward heading.
pub open spec fn heading_power_spec(sector: HeadingSector) -> MotorsPower {
    match sector {
        HeadingSector::PointsLeft => MotorsPower { left: FAST_SPEED, right: SLOW_SPEED },
        HeadingSector::PointsRight => MotorsPower { left: SLOW_SPEED, right: FAST_SPEED },
        HeadingSector::Ahead => MotorsPower { left: SLOW_SPEED, right: SLOW_SPEED },
    }
}

/// The new state and the motor command (if any) for an event: `a`/`d`
/// accelerate/decelerate by 5 within `0..=255`, `H`/`G` switch heading
/// alignment on/off, other characters are driving commands; every heading
/// update steers towards the forward heading.
pub open spec fn event_step(state: MobileAppView, event: Event) -> (MobileAppView, Option<MotorsPower>) {
    match event {
        Event::UserCommand(c) => if c == 'a' {
            (
                MobileAppView {
                    current_speed: clamp_speed(state.current_speed + SPEED_STEP),
                    ..state
                },
                None,
            )
        } else if c == 'd' {
            (
                MobileAppView {
                    current_speed: clamp_speed(state.current_speed - SPEED_STEP),
                    ..state
                },
                None,
            )
        } else if c == 'H' {
            (MobileAppView { heading_alignment_mode: true, ..state }, None)
        } else if c == 'G' {
            (MobileAppView { heading_alignment_mode: false, ..state }, None)
        } else {
            (state, Some(to_motors_power_spec(state.current_speed, c)))
        },
        Event::HeadingUpdated(sector) => (state, Some(heading_power_spec(sector))),
    }
}

/// `v` clamped to `0..=255`.
fn clamp_to_speed(v: i16) -> (r: i16)
    ensures
        r == clamp_speed(v as int),
{
    if v < 0 {
        0
    } else if v > MAX_SPEED {
        MAX_SPEED
    } else {
        v
    }
}

/// Turns mobile-app commands and heading estimates into motor power
/// commands. Superseded by the control-station controller.
pub struct MobileAppCommnadsController {
    is_heading_alignment_mode: bool,
    current_speed: i16,
}

impl View for MobileAppCommnadsController {
    type V = MobileAppView;

    closed spec fn view(&self) -> MobileAppView {
        MobileAppView {
            heading_alignment_mode: self.is_heading_alignment_mode,
            current_speed: self.current_speed,
        }
    }
}

impl MobileAppCommnadsController {
    #[verifier::type_invariant]
    spec fn inv(self) -> bool {
        self@.valid()
    }

    /// Heading alignment off, normal speed.
    pub fn new() -> (c: MobileAppCommnadsController)
        ensures
            !c@.heading_alignment_mode,
            c@.current_speed == NORMAL_SPEED,
            c@.valid(),
    {
        MobileAppCommnadsController { is_heading_alignment_mode: false, current_speed: NORMAL_SPEED }
    }

    /// Whether heading alignment was switched on.
    pub fn is_heading_alignment_mode(&self) -> (b: bool)
        ensures
            b == self@.heading_alignment_mode,
    {
        self.is_heading_alignment_mode
    }

    /// The speed of the speed-relative driving commands.
    pub fn current_speed(&self) -> (s: i16)
        ensures
            s == self@.current_speed,
            self@.valid(),
    {
        proof {
            use_type_invariant(self);
        }
        self.current_speed
    }

    /// Handles one event and returns the motor command to send, if any.
    pub fn on_event(&mut self, event: Event) -> (signal: Option<MotorsPower>)
        ensures
            (final(self)@, signal) == event_step(old(self)@, event),
            final(self)@.valid(),
            signal matches Some(p) ==> p.wf(),
    {
        proof {
            use_type_invariant(&*self);
        }
        match event {
            Event::UserCommand(command) => {
                if command == 'a' {
                    self.current_speed = clamp_to_speed(self.current_speed + SPEED_STEP);
                    None
                } else if command == 'd' {
                    self.current_speed = clamp_to_speed(self.current_speed - SPEED_STEP);
                    None
                } else if command == 'H' {
                    self.is_heading_alignment_mode = true;
                    None
                } else if command == 'G' {
                    self.is_heading_alignment_mode = false;
                    None
                } else {
                    Some(self.to_motors_power(command))
                }
            },
            Event::HeadingUpdated(sector) => match sector {
                HeadingSector::PointsLeft => Some(MotorsPower::new(FAST_SPEED, SLOW_SPEED)),
                HeadingSector::PointsRight => Some(MotorsPower::new(SLOW_SPEED, FAST_SPEED)),
                HeadingSector::Ahead => Some(MotorsPower::new(SLOW_SPEED, SLOW_SPEED)),
            },
        }
    }

    /// The power command for a driving command character.
    pub fn to_motors_power(&self, command: char) -> (p: MotorsPower)
        ensures
            p == to_motors_power_spec(self@.current_speed, command),
            p.wf(),
    {
        proof {
            use_type_invariant(self);
        }
        let s = self.current_speed;
        if command == 'F' {
            MotorsPower::new(s, s)
        } else if command == 'B' {
            MotorsPower::new(-s, -s)
        } else if command == 'L' {
            MotorsPower::new(-s, s)
        } else if command == 'R' {
            MotorsPower::new(s, -s)
        } else if command == 'f' {
            MotorsPower::new(NORMAL_SPEED, NORMAL_SPEED)
        } else if command == 'b' {
            MotorsPower::new(-NORMAL_SPEED, -NORMAL_SPEED)
        } else if command == 'l' {
            MotorsPower::new(-NORMAL_SPEED, NORMAL_SPEED)
        } else if command == 'r' {
            MotorsPower::new(NORMAL_SPEED, -NORMAL_SPEED)
        } else if command == 'Q' {
            MotorsPower::new(255, 255)
        } else if command == 'E' {
            MotorsPower::new(5, 5)
        } else {
            MotorsPower::stop()
        }
    }
}

/// Every event keeps the state valid and every emitted command is
/// admissible.
pub proof fn lemma_event_step_valid(state: MobileAppView, event: Event)
    requires
        state.valid(),
    ensures
        event_step(state, event).0.valid(),
        event_step(state, event).1 matches Some(p) ==> p.wf(),
{
}

/// Backward at the current speed is the reverse of forward at the current
/// speed, and likewise at the normal speed; turning left is the reverse of
/// turning right.
pub proof fn lemma_reverse_commands(state: MobileAppView)
    requires
        state.valid(),
    ensures
        to_motors_power_spec(state.current_speed, 'B') == to_motors_power_spec(
            state.current_speed,
            'F',
        ).reversed_spec(),
        to_motors_power_spec(state.current_speed, 'L') == to_motors_power_spec(
            state.current_speed,
            'R',
        ).reversed_spec(),
        to_motors_power_spec(state.current_speed, 'b') == to_motors_power_spec(
            state.current_speed,
            'f',
        ).reversed_spec(),
        to_motors_power_spec(state.current_speed, 'l') == to_motors_power_spec(
            state.current_speed,
            'r',
        ).reversed_spec(),
{
}

/// At any valid speed `s`, the speed-relative commands drive with
/// magnitude `s`: `F` is `(s, s)`, `B` is `(-s, -s)`, `L` turns left with
/// `(-s, s)` and `R` turns right with `(s, -s)`; sent through `on_event`
/// they leave the state as it was.
pub proof fn lemma_speed_relative_commands(state: MobileAppView)
    requires
        state.valid(),
    ensures
        ({
            let s = state.current_speed;
            &&& to_motors_power_spec(s, 'F') == MotorsPower { left: s, right: s }
            &&& to_motors_power_spec(s, 'B') == MotorsPower { left: (-s) as i16, right: (-s) as i16 }
            &&& to_motors_power_spec(s, 'L') == MotorsPower { left: (-s) as i16, right: s }
            &&& to_motors_power_spec(s, 'R') == MotorsPower { left: s, right: (-s) as i16 }
            &&& event_step(state, Event::UserCommand('L')) == (state, Some(
                MotorsPower { left: (-s) as i16, right: s },
            ))
            &&& event_step(state, Event::UserCommand('R')) == (state, Some(
                MotorsPower { left: s, right: (-s) as i16 },
            ))
        }),
{
}

/// Accelerating and then decelerating gives back the previous state, as
/// long as accelerating did not hit the upper speed limit.
pub proof fn lemma_accelerate_then_decelerate(state: MobileAppView)
    requires
        state.valid(),
        state.current_speed + SPEED_STEP <= MAX_SPEED,
    ensures
        event_step(event_step(state, Event::UserCommand('a')).0, Event::UserCommand('d')).0 == state,
{
}

/// Speed changes and mode switches send no motor command, and every
/// other command character sends one.
pub proof fn lemma_user_command_signals(state: MobileAppView, c: char)
    ensures
        (event_step(state, Event::UserCommand(c)).1 is None) <==> (c == 'a' || c == 'd' || c == 'H'
            || c == 'G'),
{
}

} // verus!
