use climber::motor::{wheel_drive, MotorsPower, PwmDuty, WheelDrive};
use climber::utils::{map_in_range, parse_bool, parse_u32};

#[test]
fn map_in_range_scales_linearly() {
    assert_eq!(map_in_range(10, 0..256, 100..211), 104);
    assert_eq!(map_in_range(0, 0..256, 100..211), 100);
    assert_eq!(map_in_range(255, 0..256, 100..211), 210);
    assert_eq!(map_in_range(255, 0..256, 100..190), 189);
    assert_eq!(map_in_range(15, 10..20, 0..100), 50);
}

#[test]
fn map_in_range_stays_inside_out_range() {
    for input in 0..256u32 {
        let r = map_in_range(input, 0..256, 100..190);
        assert!((100..190).contains(&r));
        if input > 0 {
            assert!(map_in_range(input - 1, 0..256, 100..190) <= r);
        }
    }
}

#[test]
fn motors_power_constructors() {
    let p = MotorsPower::new(-255, 255);
    assert_eq!(p.left, -255);
    assert_eq!(p.right, 255);
    assert_eq!(MotorsPower::stop(), MotorsPower { left: 0, right: 0 });
}

#[test]
fn reversed_twice_is_identity() {
    let p = MotorsPower::new(120, -35);
    let r = p.reversed();
    assert_eq!(r, MotorsPower { left: -120, right: 35 });
    assert_eq!(r.reversed(), p);
    assert_eq!(MotorsPower::stop().reversed(), MotorsPower::stop());
}

#[test]
fn wheel_drive_stopped() {
    assert_eq!(wheel_drive(0), WheelDrive { direction_high: false, duty: PwmDuty::FullyOff });
}

#[test]
fn wheel_drive_backward() {
    assert_eq!(
        wheel_drive(-255),
        WheelDrive { direction_high: false, duty: PwmDuty::Fraction { numerator: 210, denominator: 255 } }
    );
    assert_eq!(
        wheel_drive(-100),
        WheelDrive { direction_high: false, duty: PwmDuty::Fraction { numerator: 143, denominator: 255 } }
    );
    assert_eq!(
        wheel_drive(-1),
        WheelDrive { direction_high: false, duty: PwmDuty::Fraction { numerator: 100, denominator: 255 } }
    );
}

#[test]
fn wheel_drive_forward() {
    assert_eq!(
        wheel_drive(255),
        WheelDrive { direction_high: true, duty: PwmDuty::Fraction { numerator: 100, denominator: 255 } }
    );
    assert_eq!(
        wheel_drive(100),
        WheelDrive { direction_high: true, duty: PwmDuty::Fraction { numerator: 154, denominator: 255 } }
    );
    assert_eq!(
        wheel_drive(1),
        WheelDrive { direction_high: true, duty: PwmDuty::Fraction { numerator: 189, denominator: 255 } }
    );
}

#[test]
fn wheel_drive_within_calibration_everywhere() {
    for p in -255..=255i16 {
        let d = wheel_drive(p);
        match d.duty {
            PwmDuty::FullyOff => assert_eq!(p, 0),
            PwmDuty::Fraction { numerator, denominator } => {
                assert_eq!(denominator, 255);
                assert_eq!(d.direction_high, p > 0);
                if p > 0 {
                    assert!((100..190).contains(&numerator));
                } else {
                    assert!((100..211).contains(&numerator));
                }
            }
        }
    }
}

#[test]
fn parse_bool_accepts_only_true() {
    assert!(parse_bool(Some("true")));
    assert!(!parse_bool(Some("True")));
    assert!(!parse_bool(Some("true ")));
    assert!(!parse_bool(Some("false")));
    assert!(!parse_bool(Some("")));
    assert!(!parse_bool(None));
}

#[test]
fn parse_u32_reads_numbers() {
    assert_eq!(parse_u32(Some("42"), 7), 42);
    assert_eq!(parse_u32(Some("+42"), 7), 42);
    assert_eq!(parse_u32(Some("007"), 99), 7);
    assert_eq!(parse_u32(Some("0"), 99), 0);
    assert_eq!(parse_u32(Some("4294967295"), 7), 4294967295);
}

#[test]
fn parse_u32_falls_back_to_default() {
    assert_eq!(parse_u32(None, 7), 7);
    assert_eq!(parse_u32(Some(""), 7), 7);
    assert_eq!(parse_u32(Some("+"), 7), 7);
    assert_eq!(parse_u32(Some("-"), 7), 7);
    assert_eq!(parse_u32(Some("-1"), 7), 7);
    assert_eq!(parse_u32(Some("+-1"), 7), 7);
    assert_eq!(parse_u32(Some(" 1"), 7), 7);
    assert_eq!(parse_u32(Some("12a"), 7), 7);
    assert_eq!(parse_u32(Some("4294967296"), 7), 7);
    assert_eq!(parse_u32(Some("99999999999999999999"), 7), 7);
}

#[test]
fn parse_u32_agrees_with_std() {
    for s in ["1", "+0", "65535", "4294967295", "4294967296", "x", "++1", "1+", "٣"] {
        assert_eq!(parse_u32(Some(s), 11), s.parse::<u32>().unwrap_or(11));
    }
}
