use vstd::prelude::*;

use crate::motor::MotorsPower;

verus! {

/// Speed that the `'n'` command sets on both sides.
pub const NORMAL_SPEED: i16 = 85;

/// Change of speed per accelerate / decelerate command.
pub const SPEED_STEP: i16 = 5;

/// Largest speed the controller keeps.
pub const MAX_SPEED: i16 = 255;

/// The outcome of the heading controller: which side to speed up, and by
/// how many percent.
#[derive(Clone, Copy, PartialEq, Eq, Structural, Debug)]
pub enum Correction {
    /// Speed the left side up by the given percentage.
    IncreaseLeft(i16),
    /// Speed the right side up by the given percentage.
    IncreaseRight(i16),
    /// The heading is close enough: keep the current speed.
    Keep,
}

/// What the controller reacts to: a command character from the control
/// station, or the correction computed from a new heading estimate.
#[derive(Clone, Copy, PartialEq, Eq, Structural, Debug)]
pub enum Event {
    UserCommand(char),
    HeadingCorrection(Correction),
}

/// The abstract state of a [`MainController`].
pub struct MainControllerView {
    pub heading_alignment_mode: bool,
    pub current_speed: MotorsPower,
}

impl MainControllerView {
    /// The speed lies in `0..=255` and is the same on both sides.
    pub open spec fn valid(self) -> bool {
        &&& 0 <= self.current_speed.left <= MAX_SPEED
        &&& 0 <= self.current_speed.right <= MAX_SPEED
        &&& self.current_speed.left == self.current_speed.right
    }
}

/// Keeps a speed within `0..=255`.
pub open spec fn clamp_speed(v: int) -> int {
    if v < 0 {
        0
    } else if v > MAX_SPEED {
        MAX_SPEED as int
    } else {
        v
    }
}

/// Rust's integer division, which rounds toward zero (`d > 0`).
pub open spec fn div_toward_zero(n: int, d: int) -> int {
    if n >= 0 {
        n / d
    } else {
        -((-n) / d)
    }
}

/// `initial` scaled by `100 + by_percents` percent, as an `i32` quotient
/// rounded toward zero and then truncated to `i16`.
pub open spec fn increase_by_percent_spec(initial: int, by_percents: int) -> i16 {
    div_toward_zero(initial * (by_percents + 100), 100) as i16
}

/// The motor power after applying a heading correction to `speed`.
pub open spec fn apply_correction_spec(speed: MotorsPower, correction: Correction) -> MotorsPower {
    match correction {
        Correction::IncreaseLeft(p) => MotorsPower {
            left: clamp_speed(increase_by_percent_spec(speed.left as int, p as int) as int) as i16,
            right: speed.right,
        },
        Correction::IncreaseRight(p) => MotorsPower {
            left: speed.left,
            right: clamp_speed(increase_by_percent_spec(speed.right as int, p as int) as int) as i16,
        },
        Correction::Keep => speed,
    }
}

/// The new state and the motor command (if any) for a command character:
/// `z`/`x` accelerate/decelerate by 5 within `0..=255` and send the new
/// speed; `c`/`v` switch heading alignment on/off; `w`, `s`, `a`, `d`
/// drive forward, backward, turn left, turn right at the current speed;
/// `n` sets and sends the normal speed; anything else stops the car.
pub open spec fn command_step(state: MainControllerView, command: char) -> (
    MainControllerView,
    Option<MotorsPower>,
) {
    let l = state.current_speed.left;
    let r = state.current_speed.right;
    let mode = state.heading_alignment_mode;
    if command == 'z' {
        let s = MotorsPower {
            left: clamp_speed(l + SPEED_STEP) as i16,
            right: clamp_speed(r + SPEED_STEP) as i16,
        };
        (MainControllerView { heading_alignment_mode: mode, current_speed: s }, Some(s))
    } else if command == 'x' {
        let s = MotorsPower {
            left: clamp_speed(l - SPEED_STEP) as i16,
            right: clamp_speed(r - SPEED_STEP) as i16,
        };
        (MainControllerView { heading_alignment_mode: mode, current_speed: s }, Some(s))
    } else if command == 'c' {
        (MainControllerView { heading_alignment_mode: true, current_speed: state.current_speed }, None)
    } else if command == 'v' {
        (MainControllerView { heading_alignment_mode: false, current_speed: state.current_speed }, None)
    } else if command == 'w' {
        (state, Some(state.current_speed))
    } else if command == 's' {
        (state, Some(MotorsPower { left: (-l) as i16, right: (-r) as i16 }))
    } else if command == 'a' {
        (state, Some(MotorsPower { left: (-l) as i16, right: r }))
    } else if command == 'd' {
        (state, Some(MotorsPower { left: l, right: (-r) as i16 }))
    } else if command == 'n' {
        let s = MotorsPower { left: NORMAL_SPEED, right: NORMAL_SPEED };
        (MainControllerView { heading_alignment_mode: mode, current_speed: s }, Some(s))
    } else {
        (state, Some(MotorsPower { left: 0, right: 0 }))
    }
}

/// The new state and the motor command (if any) for an event.
pub open spec fn event_step(state: MainControllerView, event: Event) -> (
    MainControllerView,
    Option<MotorsPower>,
) {
    match event {
        Event::UserCommand(c) => command_step(state, c),
        Event::HeadingCorrection(correction) => if state.heading_alignment_mode {
            (state, Some(apply_correction_spec(state.current_speed, correction)))
        } else {
            (state, None)
        },
    }
}

/// `v` clamped to `0..=255`.
pub fn clamp_to_speed(v: i16) -> (r: i16)
    ensures
        r == clamp_speed(v as int),
{
    if v < 0 {
        0
    } else if v > MAX_SPEED {
        MAX_SPEED
    } else {
        v
    }
}

/// Every event keeps the controller state valid, and every motor command
/// it emits from a valid state is an admissible power command.
pub proof fn lemma_event_step_valid(state: MainControllerView, event: Event)
    requires
        state.valid(),
    ensures
        event_step(state, event).0.valid(),
        event_step(state, event).1 matches Some(p) ==> p.wf(),
{
}

/// Driving backward sends exactly the reverse of driving forward.
pub proof fn lemma_backward_reverses_forward(state: MainControllerView)
    requires
        state.valid(),
    ensures
        command_step(state, 'w').1 matches Some(forward) && command_step(state, 's').1 == Some(
            forward.reversed_spec(),
        ),
{
}

/// Accelerating and then decelerating gives back the previous state, as
/// long as accelerating did not hit the upper speed limit.
pub proof fn lemma_accelerate_then_decelerate(state: MainControllerView)
    requires
        state.valid(),
        state.current_speed.left + SPEED_STEP <= MAX_SPEED,
    ensures
        command_step(command_step(state, 'z').0, 'x').0 == state,
{
}

/// Heading corrections never change the controller state, and are
/// ignored while heading alignment is off.
pub proof fn lemma_correction_keeps_state(state: MainControllerView, correction: Correction)
    ensures
        event_step(state, Event::HeadingCorrection(correction)).0 == state,
        !state.heading_alignment_mode ==> event_step(
            state,
            Event::HeadingCorrection(correction),
        ).1 is None,
{
}

/// With heading alignment on, a correction is applied to the current
/// speed: `Keep` sends exactly the current speed (what `w` sends); raising
/// one side by `p` percent keeps the other side at the current speed and
/// sets the raised side to `speed * (100 + p) / 100`, capped at 255, as
/// long as that quotient fits in 16 bits and `p >= -100`.
pub proof fn lemma_correction_applies_to_current_speed(state: MainControllerView, p: i16)
    requires
        state.valid(),
        state.heading_alignment_mode,
    ensures
        event_step(state, Event::HeadingCorrection(Correction::Keep)).1 == Some(
            state.current_speed,
        ),
        event_step(state, Event::HeadingCorrection(Correction::Keep)).1 == command_step(
            state,
            'w',
        ).1,
        event_step(state, Event::HeadingCorrection(Correction::IncreaseLeft(p))).1 matches Some(
            q,
        ) && q.right == state.current_speed.right && ({
            let raised = state.current_speed.left * (100 + p) / 100;
            -100 <= p && raised <= 32767 ==> q.left == if raised > 255 {
                255
            } else {
                raised
            }
        }),
        event_step(state, Event::HeadingCorrection(Correction::IncreaseRight(p))).1 matches Some(
            q,
        ) && q.left == state.current_speed.left && ({
            let raised = state.current_speed.right * (100 + p) / 100;
            -100 <= p && raised <= 32767 ==> q.right == if raised > 255 {
                255
            } else {
                raised
            }
        }),
{
    let l = state.current_speed.left as int;
    let r = state.current_speed.right as int;
    if -100 <= p {
        assert(0 <= l * (100 + p)) by (nonlinear_arith)
            requires
                0 <= l,
                -100 <= p,
        ;
        assert(0 <= r * (100 + p)) by (nonlinear_arith)
            requires
                0 <= r,
                -100 <= p,
        ;
    }
}

/// For a valid state with speed `s` on both sides, `w` sends `(s, s)`,
/// `s` sends `(-s, -s)`, `a` turns left with `(-s, s)` and `d` turns right
/// with `(s, -s)`; none of them changes the state.
pub proof fn lemma_driving_commands_use_current_speed(state: MainControllerView)
    requires
        state.valid(),
    ensures
        ({
            let s = state.current_speed.left;
            &&& command_step(state, 'w') == (state, Some(MotorsPower { left: s, right: s }))
            &&& command_step(state, 's') == (state, Some(
                MotorsPower { left: (-s) as i16, right: (-s) as i16 },
            ))
            &&& command_step(state, 'a') == (state, Some(MotorsPower { left: (-s) as i16, right: s }))
            &&& command_step(state, 'd') == (state, Some(MotorsPower { left: s, right: (-s) as i16 }))
        }),
{
}

/// A zero percent increase leaves the value unchanged, and a non-negative
/// increase of a speed in `0..=255` by at most 100 percent neither
/// decreases it nor wraps around.
pub proof fn lemma_increase_by_percent_bounds(initial: i16, by_percents: i16)
    ensures
        increase_by_percent_spec(initial as int, 0) == initial,
        0 <= initial <= MAX_SPEED && 0 <= by_percents <= 100 ==> initial <= increase_by_percent_spec(
            initial as int,
            by_percents as int,
        ) <= 2 * initial,
{
    let x = initial as int;
    assert(x * 100 / 100 == x) by (nonlinear_arith);
    assert((-x) * 100 / 100 == -x) by (nonlinear_arith);
    if 0 <= initial <= MAX_SPEED && 0 <= by_percents <= 100 {
        let p = by_percents as int;
        assert(x <= x * (p + 100) / 100 <= 2 * x) by (nonlinear_arith)
            requires
                0 <= x <= 255,
                0 <= p <= 100,
        ;
    }
}

/// Scales `initial` by `100 + by_percents` percent.
pub fn increase_by_percent(initial: i16, by_percents: i16) -> (r: i16)
    ensures
        r == increase_by_percent_spec(initial as int, by_percents as int),
{
    let a: i32 = initial as i32;
    let b: i32 = by_percents as i32 + 100;
    assert(-1_100_000_000 <= a * b <= 1_100_000_000) by (nonlinear_arith)
        requires
            -32768 <= a <= 32767,
            -32668 <= b <= 32867,
    ;
    let product: i32 = a * b;
    let quotient: i32 = if product >= 0 {
        product / 100
    } else {
        -((-product) / 100)
    };
    quotient as i16
}

/// The motor power after applying a heading correction to the current
/// speed; the corrected side is kept within `0..=255`.
pub fn apply_correction(speed: MotorsPower, correction: Correction) -> (p: MotorsPower)
    requires
        speed.wf(),
    ensures
        p == apply_correction_spec(speed, correction),
        p.wf(),
{
    match correction {
        Correction::IncreaseLeft(percent) => {
            let left = clamp_to_speed(increase_by_percent(speed.left, percent));
            MotorsPower::new(left, speed.right)
        },
        Correction::IncreaseRight(percent) => {
            let right = clamp_to_speed(increase_by_percent(speed.right, percent));
            MotorsPower::new(speed.left, right)
        },
        Correction::Keep => speed,
    }
}

/// Turns control-station commands and heading corrections into motor
/// power commands.
pub struct MainController {
    is_heading_alignment_mode: bool,
    current_speed: MotorsPower,
}

impl View for MainController {
    type V = MainControllerView;

    closed spec fn view(&self) -> MainControllerView {
        MainControllerView {
            heading_alignment_mode: self.is_heading_alignment_mode,
            current_speed: self.current_speed,
        }
    }
}

impl MainController {
    #[verifier::type_invariant]
    spec fn inv(self) -> bool {
        self@.valid()
    }

    /// A stopped controller with heading alignment off.
    pub fn new() -> (c: MainController)
        ensures
            !c@.heading_alignment_mode,
            c@.current_speed == MotorsPower::stop_spec(),
            c@.valid(),
    {
        MainController { is_heading_alignment_mode: false, current_speed: MotorsPower::stop() }
    }

    /// Whether heading corrections are applied.
    pub fn is_heading_alignment_mode(&self) -> (b: bool)
        ensures
            b == self@.heading_alignment_mode,
    {
        self.is_heading_alignment_mode
    }

    /// The speed that forward driving uses.
    pub fn current_speed(&self) -> (s: MotorsPower)
        ensures
            s == self@.current_speed,
            self@.valid(),
    {
        proof {
            use_type_invariant(self);
        }
        self.current_speed
    }

    /// Handles one event and returns the motor command to send, if any.
    pub fn on_event(&mut self, event: Event) -> (signal: Option<MotorsPower>)
        ensures
            (final(self)@, signal) == event_step(old(self)@, event),
            final(self)@.valid(),
            signal matches Some(p) ==> p.wf(),
    {
        proof {
            use_type_invariant(&*self);
        }
        let l = self.current_speed.left;
        let r = self.current_speed.right;
        match event {
            Event::UserCommand(command) => {
                if command == 'z' {
                    let s = MotorsPower::new(
                        clamp_to_speed(l + SPEED_STEP),
                        clamp_to_speed(r + SPEED_STEP),
                    );
                    self.current_speed = s;
                    Some(s)
                } else if command == 'x' {
                    let s = MotorsPower::new(
                        clamp_to_speed(l - SPEED_STEP),
                        clamp_to_speed(r - SPEED_STEP),
                    );
                    self.current_speed = s;
                    Some(s)
                } else if command == 'c' {
                    self.is_heading_alignment_mode = true;
                    None
                } else if command == 'v' {
                    self.is_heading_alignment_mode = false;
                    None
                } else if command == 'w' {
                    Some(self.current_speed)
                } else if command == 's' {
                    Some(MotorsPower::new(-l, -r))
                } else if command == 'a' {
                    Some(MotorsPower::new(-l, r))
                } else if command == 'd' {
                    Some(MotorsPower::new(l, -r))
                } else if command == 'n' {
                    let s = MotorsPower::new(NORMAL_SPEED, NORMAL_SPEED);
                    self.current_speed = s;
                    Some(s)
                } else {
                    Some(MotorsPower::stop())
                }
            },
            Event::HeadingCorrection(correction) => {
                if self.is_heading_alignment_mode {
                    Some(apply_correction(self.current_speed, correction))
                } else {
                    None
                }
            },
        }
    }
}

} // verus!
