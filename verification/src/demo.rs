use vstd::prelude::*;

use crate::motor::MotorsPower;

verus! {

/// Step between two powers of a sweep.
pub const SWEEP_STEP: i16 = 20;

/// Number of powers in a sweep from -255 upward to at most 255.
pub const SWEEP_LEN: usize = 26;

/// One step of a motor test: apply `power`, then wait `wait_ms`
/// milliseconds before the next step.
#[derive(Clone, Copy, PartialEq, Eq, Structural, Debug)]
pub struct DemoStep {
    pub power: MotorsPower,
    pub wait_ms: u64,
}

pub open spec fn step(left: int, right: int, wait_ms: int) -> DemoStep {
    DemoStep { power: MotorsPower { left: left as i16, right: right as i16 }, wait_ms: wait_ms as u64 }
}

/// The `k`-th power of a sweep: -255, -235, ..., 245.
pub open spec fn sweep_value(k: int) -> int {
    -255 + SWEEP_STEP * k
}

/// Half-second steps through the sweep on one side (left when `left`),
/// with the other side stopped.
pub open spec fn sweep_spec(left: bool) -> Seq<DemoStep> {
    Seq::new(
        SWEEP_LEN as nat,
        |k: int|
            if left {
                step(sweep_value(k), 0, 500)
            } else {
                step(0, sweep_value(k), 500)
            },
    )
}

/// The full motor test: stop; each side alone forward and backward at 100
/// (the right side for longer), stopping in between; a sweep of each
/// side; both sides full forward, then full backward.
pub open spec fn test_motor_spec() -> Seq<DemoStep> {
    seq![
        step(0, 0, 3000),
        step(100, 0, 3000),
        step(0, 0, 0),
        step(-100, 0, 3000),
        step(0, 0, 0),
        step(0, 100, 5000),
        step(0, 0, 0),
        step(0, -100, 5000),
        step(0, 0, 0),
    ] + sweep_spec(true) + sweep_spec(false) + seq![step(255, 255, 3000), step(-255, -255, 5000)]
}

/// Forward-backward-left-right test: stop; turn right; stop; turn left;
/// stop; full forward; full backward.
pub open spec fn fblr_spec() -> Seq<DemoStep> {
    seq![
        step(0, 0, 3000),
        step(100, -100, 3000),
        step(0, 0, 0),
        step(-100, 100, 3000),
        step(0, 0, 0),
        step(255, 255, 3000),
        step(-255, -255, 5000),
    ]
}

/// Whether, among the steps before `bound`, some step runs the motors at
/// `(left, right)` for a while and is followed by a stop of both sides.
pub open spec fn runs_then_stops(plan: Seq<DemoStep>, bound: int, left: int, right: int) -> bool {
    exists|i: int|
        0 < i < bound - 1 && (#[trigger] plan[i]).power.left == left && plan[i].power.right == right
            && plan[i].wait_ms > 0 && plan[i + 1].power == (MotorsPower { left: 0, right: 0 })
}

/// Before its sweeps, the motor test drives each side alone forward and
/// backward at 100 for a while, with the other side stopped, and stops
/// both sides after each of those runs; the test starts and the sweeps
/// begin from a stop.
pub proof fn lemma_test_motor_covers_both_directions()
    ensures
        ({
            let plan = test_motor_spec();
            let sweeps_start = 9int;
            &&& plan.len() == sweeps_start + 2 * SWEEP_LEN + 2
            &&& plan[0].power == MotorsPower { left: 0, right: 0 }
            &&& runs_then_stops(plan, sweeps_start, 100, 0)
            &&& runs_then_stops(plan, sweeps_start, -100, 0)
            &&& runs_then_stops(plan, sweeps_start, 0, 100)
            &&& runs_then_stops(plan, sweeps_start, 0, -100)
            &&& plan[sweeps_start - 1].power == MotorsPower { left: 0, right: 0 }
        }),
{
    let plan = test_motor_spec();
    assert(plan[1] == step(100, 0, 3000));
    assert(plan[2] == step(0, 0, 0));
    assert(plan[3] == step(-100, 0, 3000));
    assert(plan[4] == step(0, 0, 0));
    assert(plan[5] == step(0, 100, 5000));
    assert(plan[6] == step(0, 0, 0));
    assert(plan[7] == step(0, -100, 5000));
    assert(plan[8] == step(0, 0, 0));
}

/// The sweeps of the motor test run the left side and then the right side
/// through every value `-255 + 20 k` in `-255..=255`, in increasing order,
/// half a second each, with the other side stopped.
pub proof fn lemma_test_motor_sweeps()
    ensures
        forall|i: int|
            9 <= i < 9 + SWEEP_LEN ==> (#[trigger] test_motor_spec()[i]).power == (MotorsPower {
                left: (-255 + 20 * (i - 9)) as i16,
                right: 0,
            }) && test_motor_spec()[i].wait_ms == 500 && -255 <= -255 + 20 * (i - 9) <= 255,
        forall|i: int|
            9 + SWEEP_LEN <= i < 9 + 2 * SWEEP_LEN ==> (#[trigger] test_motor_spec()[i]).power
                == (MotorsPower { left: 0, right: (-255 + 20 * (i - 9 - SWEEP_LEN)) as i16 })
                && test_motor_spec()[i].wait_ms == 500 && -255 <= -255 + 20 * (i - 9 - SWEEP_LEN)
                <= 255,
        -255 + 20 * (SWEEP_LEN as int) > 255,
{
    let head = seq![
        step(0, 0, 3000),
        step(100, 0, 3000),
        step(0, 0, 0),
        step(-100, 0, 3000),
        step(0, 0, 0),
        step(0, 100, 5000),
        step(0, 0, 0),
        step(0, -100, 5000),
        step(0, 0, 0),
    ];
    let tail = seq![step(255, 255, 3000), step(-255, -255, 5000)];
    assert(test_motor_spec() == head + sweep_spec(true) + sweep_spec(false) + tail);
    assert(head.len() == 9);
    assert forall|i: int| 9 <= i < 9 + SWEEP_LEN implies (#[trigger] test_motor_spec()[i]).power
        == (MotorsPower { left: (-255 + 20 * (i - 9)) as i16, right: 0 })
        && test_motor_spec()[i].wait_ms == 500 && -255 <= -255 + 20 * (i - 9) <= 255 by {
        assert(test_motor_spec()[i] == sweep_spec(true)[i - 9]);
    }
    assert forall|i: int| 9 + SWEEP_LEN <= i < 9 + 2 * SWEEP_LEN implies (
    #[trigger] test_motor_spec()[i]).power == (MotorsPower {
        left: 0,
        right: (-255 + 20 * (i - 9 - SWEEP_LEN)) as i16,
    }) && test_motor_spec()[i].wait_ms == 500 && -255 <= -255 + 20 * (i - 9 - SWEEP_LEN) <= 255 by {
        assert(test_motor_spec()[i] == sweep_spec(false)[i - 9 - SWEEP_LEN]);
    }
}

/// The forward-backward-left-right test turns right with `(100, -100)` and
/// left with `(-100, 100)`, each followed by a stop, then drives fully
/// forward and fully backward.
pub proof fn lemma_fblr_covers_turns_and_directions()
    ensures
        ({
            let plan = fblr_spec();
            &&& runs_then_stops(plan, plan.len() as int, 100, -100)
            &&& runs_then_stops(plan, plan.len() as int, -100, 100)
            &&& plan[plan.len() - 2].power == (MotorsPower { left: 255, right: 255 })
            &&& plan[plan.len() - 1].power == (MotorsPower { left: -255i16, right: -255i16 })
        }),
{
    let plan = fblr_spec();
    assert(plan[1] == step(100, -100, 3000));
    assert(plan[2] == step(0, 0, 0));
    assert(plan[3] == step(-100, 100, 3000));
    assert(plan[4] == step(0, 0, 0));
}

fn push_step(steps: &mut Vec<DemoStep>, left: i16, right: i16, wait_ms: u64)
    requires
        -255 <= left <= 255,
        -255 <= right <= 255,
    ensures
        final(steps)@ == old(steps)@.push(step(left as int, right as int, wait_ms as int)),
{
    steps.push(DemoStep { power: MotorsPower::new(left, right), wait_ms });
}

fn push_sweep(steps: &mut Vec<DemoStep>, left: bool)
    ensures
        final(steps)@ == old(steps)@ + sweep_spec(left),
{
    let ghost before = steps@;
    let mut value: i16 = -255;
    let mut k: usize = 0;
    while value <= 255
        invariant
            0 <= k <= SWEEP_LEN,
            value == -255 + SWEEP_STEP * k,
            steps@ == before + sweep_spec(left).take(k as int),
        decreases 300 - value,
    {
        assert(k < SWEEP_LEN);
        if left {
            push_step(steps, value, 0, 500);
        } else {
            push_step(steps, 0, value, 500);
        }
        assert(sweep_spec(left).take(k + 1) =~= sweep_spec(left).take(k as int).push(
            sweep_spec(left)[k as int],
        ));
        value = value + SWEEP_STEP;
        k = k + 1;
    }
    assert(sweep_spec(left).take(k as int) =~= sweep_spec(left));
}

/// The steps of the full motor test.
pub fn test_motor_plan() -> (steps: Vec<DemoStep>)
    ensures
        steps@ == test_motor_spec(),
        forall|i: int| 0 <= i < steps@.len() ==> (#[trigger] steps@[i]).power.wf(),
{
    let mut steps: Vec<DemoStep> = Vec::new();
    push_step(&mut steps, 0, 0, 3000);
    push_step(&mut steps, 100, 0, 3000);
    push_step(&mut steps, 0, 0, 0);
    push_step(&mut steps, -100, 0, 3000);
    push_step(&mut steps, 0, 0, 0);
    push_step(&mut steps, 0, 100, 5000);
    push_step(&mut steps, 0, 0, 0);
    push_step(&mut steps, 0, -100, 5000);
    push_step(&mut steps, 0, 0, 0);
    push_sweep(&mut steps, true);
    push_sweep(&mut steps, false);
    push_step(&mut steps, 255, 255, 3000);
    push_step(&mut steps, -255, -255, 5000);
    assert(steps@ =~= test_motor_spec());
    steps
}

/// The steps of the forward-backward-left-right test.
pub fn fblr_plan() -> (steps: Vec<DemoStep>)
    ensures
        steps@ == fblr_spec(),
        forall|i: int| 0 <= i < steps@.len() ==> (#[trigger] steps@[i]).power.wf(),
{
    let mut steps: Vec<DemoStep> = Vec::new();
    push_step(&mut steps, 0, 0, 3000);
    push_step(&mut steps, 100, -100, 3000);
    push_step(&mut steps, 0, 0, 0);
    push_step(&mut steps, -100, 100, 3000);
    push_step(&mut steps, 0, 0, 0);
    push_step(&mut steps, 255, 255, 3000);
    push_step(&mut steps, -255, -255, 5000);
    assert(steps@ =~= fblr_spec());
    steps
}

} // verus!
