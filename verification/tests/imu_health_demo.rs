use climber::demo::{fblr_plan, test_motor_plan, DemoStep};
use climber::health::{update_baro_health, update_imu_health, SystemHealth};
use climber::imu::{ImuAction, ImuEvent, ImuLink, ImuOperation};
use climber::motor::MotorsPower;

fn drive(link: &mut ImuLink, op: ImuOperation, outcomes: &[bool]) -> (Vec<ImuAction>, ImuAction) {
    let mut requests = Vec::new();
    let mut action = link.start(op);
    let mut next = 0;
    loop {
        match action {
            ImuAction::Finish { .. } => return (requests, action),
            ImuAction::Connect { .. } => {
                requests.push(action);
                action = link.on_event(ImuEvent::ConnectResult(outcomes[next]));
            }
            ImuAction::ReadAngles | ImuAction::ReadAcceleration => {
                requests.push(action);
                action = link.on_event(ImuEvent::ReadResult(outcomes[next]));
            }
        }
        next += 1;
    }
}

#[test]
fn imu_connect_gives_up_after_three_attempts() {
    let mut link = ImuLink::new();
    assert!(!link.is_up());
    let (requests, end) = drive(&mut link, ImuOperation::Connect, &[false, false, false]);
    assert_eq!(
        requests,
        vec![
            ImuAction::Connect { attempt: 1 },
            ImuAction::Connect { attempt: 2 },
            ImuAction::Connect { attempt: 3 }
        ]
    );
    assert_eq!(end, ImuAction::Finish { success: false });
    assert!(!link.is_up());
}

#[test]
fn imu_connect_succeeds_on_second_attempt() {
    let mut link = ImuLink::new();
    let (requests, end) = drive(&mut link, ImuOperation::Connect, &[false, true]);
    assert_eq!(requests.len(), 2);
    assert_eq!(end, ImuAction::Finish { success: true });
    assert!(link.is_up());
}

#[test]
fn imu_pitch_reconnects_when_down() {
    let mut link = ImuLink::new();
    let (requests, end) = drive(&mut link, ImuOperation::Pitch, &[true, true]);
    assert_eq!(requests, vec![ImuAction::Connect { attempt: 1 }, ImuAction::ReadAngles]);
    assert_eq!(end, ImuAction::Finish { success: true });
    assert!(link.is_up());
    // a failed read marks the link down
    let (requests, end) = drive(&mut link, ImuOperation::Pitch, &[false]);
    assert_eq!(requests, vec![ImuAction::ReadAngles]);
    assert_eq!(end, ImuAction::Finish { success: false });
    assert!(!link.is_up());
}

#[test]
fn imu_pitch_fails_when_reconnecting_fails() {
    let mut link = ImuLink::new();
    let (requests, end) = drive(&mut link, ImuOperation::Pitch, &[false, false, false]);
    assert_eq!(requests.len(), 3);
    assert_eq!(end, ImuAction::Finish { success: false });
}

#[test]
fn imu_acceleration_retries_once_after_a_failed_read() {
    let mut link = ImuLink::new();
    drive(&mut link, ImuOperation::Connect, &[true]);
    let (requests, end) =
        drive(&mut link, ImuOperation::Acceleration, &[false, false, true, true]);
    assert_eq!(
        requests,
        vec![
            ImuAction::ReadAcceleration,
            ImuAction::Connect { attempt: 1 },
            ImuAction::Connect { attempt: 2 },
            ImuAction::ReadAcceleration
        ]
    );
    assert_eq!(end, ImuAction::Finish { success: true });
    assert!(link.is_up());
}

#[test]
fn imu_acceleration_worst_case_is_five_requests() {
    let mut link = ImuLink::new();
    drive(&mut link, ImuOperation::Connect, &[true]);
    let (requests, end) =
        drive(&mut link, ImuOperation::Acceleration, &[false, false, false, true, false]);
    assert_eq!(requests.len(), 5);
    assert_eq!(end, ImuAction::Finish { success: false });
    assert!(!link.is_up());
}

#[test]
fn imu_unexpected_report_ends_operation() {
    let mut link = ImuLink::new();
    assert_eq!(link.start(ImuOperation::Pitch), ImuAction::Connect { attempt: 1 });
    assert_eq!(link.on_event(ImuEvent::ReadResult(true)), ImuAction::Finish { success: false });
    assert_eq!(link.on_event(ImuEvent::ConnectResult(true)), ImuAction::Finish { success: false });
    assert!(!link.is_up());
}

#[test]
fn health_reports() {
    let mut h = SystemHealth::new();
    assert!(!h.all_up());
    assert_eq!(h, SystemHealth::default());
    update_imu_health(&mut h, true);
    assert!(h.imu_is_up && !h.baro_is_up);
    assert!(!h.all_up());
    update_baro_health(&mut h, true);
    assert!(h.all_up());
    update_imu_health(&mut h, false);
    assert!(!h.all_up());
    assert!(h.baro_is_up);
}

#[test]
fn test_motor_plan_steps() {
    let steps = test_motor_plan();
    assert_eq!(steps.len(), 9 + 26 + 26 + 2);
    assert_eq!(steps[0], DemoStep { power: MotorsPower::stop(), wait_ms: 3000 });
    assert_eq!(steps[1], DemoStep { power: MotorsPower::new(100, 0), wait_ms: 3000 });
    assert_eq!(steps[7], DemoStep { power: MotorsPower::new(0, -100), wait_ms: 5000 });
    assert_eq!(steps[9], DemoStep { power: MotorsPower::new(-255, 0), wait_ms: 500 });
    assert_eq!(steps[34], DemoStep { power: MotorsPower::new(245, 0), wait_ms: 500 });
    assert_eq!(steps[35], DemoStep { power: MotorsPower::new(0, -255), wait_ms: 500 });
    assert_eq!(steps[60], DemoStep { power: MotorsPower::new(0, 245), wait_ms: 500 });
    assert_eq!(steps[61], DemoStep { power: MotorsPower::new(255, 255), wait_ms: 3000 });
    assert_eq!(steps[62], DemoStep { power: MotorsPower::new(-255, -255), wait_ms: 5000 });
    let sweep: Vec<i16> = (-255..=255).step_by(20).collect();
    for (k, v) in sweep.iter().enumerate() {
        assert_eq!(steps[9 + k].power, MotorsPower::new(*v, 0));
        assert_eq!(steps[35 + k].power, MotorsPower::new(0, *v));
    }
}

#[test]
fn fblr_plan_steps() {
    let steps = fblr_plan();
    let powers: Vec<(i16, i16)> = steps.iter().map(|s| (s.power.left, s.power.right)).collect();
    assert_eq!(powers, vec![(0, 0), (100, -100), (0, 0), (-100, 100), (0, 0), (255, 255), (-255, -255)]);
    let waits: Vec<u64> = steps.iter().map(|s| s.wait_ms).collect();
    assert_eq!(waits, vec![3000, 3000, 0, 3000, 0, 3000, 5000]);
}
