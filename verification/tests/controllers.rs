use climber::main_controller::{
    apply_correction, increase_by_percent, Correction, Event, MainController,
};
use climber::mobile_app_commands_mapping::{
    Event as AppEvent, HeadingSector, MobileAppCommnadsController,
};
use climber::motor::MotorsPower;

fn mp(left: i16, right: i16) -> MotorsPower {
    MotorsPower::new(left, right)
}

#[test]
fn increase_by_percent_values() {
    assert_eq!(increase_by_percent(200, 10), 220);
    assert_eq!(increase_by_percent(200, 0), 200);
    assert_eq!(increase_by_percent(100, -200), -100);
    assert_eq!(increase_by_percent(-150, -50), -75);
    // rounds toward zero, as integer division does
    assert_eq!(increase_by_percent(-1, -99), 0);
    assert_eq!(increase_by_percent(1, -99), 0);
    // the quotient is truncated to 16 bits
    assert_eq!(increase_by_percent(200, 32767), 198);
}

#[test]
fn apply_correction_clamps_the_corrected_side() {
    assert_eq!(apply_correction(mp(100, 100), Correction::IncreaseLeft(50)), mp(150, 100));
    assert_eq!(apply_correction(mp(100, 100), Correction::IncreaseRight(200)), mp(100, 255));
    assert_eq!(apply_correction(mp(100, 100), Correction::IncreaseLeft(-150)), mp(0, 100));
    assert_eq!(apply_correction(mp(200, 200), Correction::IncreaseLeft(32767)), mp(198, 200));
    assert_eq!(apply_correction(mp(85, 85), Correction::Keep), mp(85, 85));
}

#[test]
fn main_controller_starts_stopped() {
    let c = MainController::new();
    assert!(!c.is_heading_alignment_mode());
    assert_eq!(c.current_speed(), MotorsPower::stop());
}

#[test]
fn main_controller_speed_commands() {
    let mut c = MainController::new();
    assert_eq!(c.on_event(Event::UserCommand('z')), Some(mp(5, 5)));
    assert_eq!(c.on_event(Event::UserCommand('z')), Some(mp(10, 10)));
    assert_eq!(c.on_event(Event::UserCommand('x')), Some(mp(5, 5)));
    assert_eq!(c.on_event(Event::UserCommand('x')), Some(mp(0, 0)));
    assert_eq!(c.on_event(Event::UserCommand('x')), Some(mp(0, 0)));
    assert_eq!(c.on_event(Event::UserCommand('n')), Some(mp(85, 85)));
    assert_eq!(c.current_speed(), mp(85, 85));
    for _ in 0..40 {
        c.on_event(Event::UserCommand('z'));
    }
    assert_eq!(c.current_speed(), mp(255, 255));
}

#[test]
fn main_controller_driving_commands() {
    let mut c = MainController::new();
    c.on_event(Event::UserCommand('n'));
    assert_eq!(c.on_event(Event::UserCommand('w')), Some(mp(85, 85)));
    assert_eq!(c.on_event(Event::UserCommand('s')), Some(mp(-85, -85)));
    assert_eq!(c.on_event(Event::UserCommand('a')), Some(mp(-85, 85)));
    assert_eq!(c.on_event(Event::UserCommand('d')), Some(mp(85, -85)));
    assert_eq!(c.on_event(Event::UserCommand('?')), Some(MotorsPower::stop()));
    // driving commands leave the speed as it was
    assert_eq!(c.current_speed(), mp(85, 85));
}

#[test]
fn main_controller_heading_alignment() {
    let mut c = MainController::new();
    c.on_event(Event::UserCommand('n'));
    assert_eq!(c.on_event(Event::HeadingCorrection(Correction::IncreaseLeft(10))), None);
    assert_eq!(c.on_event(Event::UserCommand('c')), None);
    assert!(c.is_heading_alignment_mode());
    assert_eq!(
        c.on_event(Event::HeadingCorrection(Correction::IncreaseLeft(10))),
        Some(mp(93, 85))
    );
    assert_eq!(
        c.on_event(Event::HeadingCorrection(Correction::IncreaseRight(20))),
        Some(mp(85, 102))
    );
    assert_eq!(c.on_event(Event::HeadingCorrection(Correction::Keep)), Some(mp(85, 85)));
    // corrections never change the stored speed
    assert_eq!(c.current_speed(), mp(85, 85));
    assert_eq!(c.on_event(Event::UserCommand('v')), None);
    assert!(!c.is_heading_alignment_mode());
    assert_eq!(c.on_event(Event::HeadingCorrection(Correction::Keep)), None);
}

#[test]
fn mobile_app_starts_at_normal_speed() {
    let c = MobileAppCommnadsController::new();
    assert_eq!(c.current_speed(), 100);
    assert!(!c.is_heading_alignment_mode());
}

#[test]
fn mobile_app_speed_commands() {
    let mut c = MobileAppCommnadsController::new();
    assert_eq!(c.on_event(AppEvent::UserCommand('a')), None);
    assert_eq!(c.current_speed(), 105);
    assert_eq!(c.on_event(AppEvent::UserCommand('F')), Some(mp(105, 105)));
    for _ in 0..60 {
        c.on_event(AppEvent::UserCommand('a'));
    }
    assert_eq!(c.current_speed(), 255);
    for _ in 0..60 {
        c.on_event(AppEvent::UserCommand('d'));
    }
    assert_eq!(c.current_speed(), 0);
    assert_eq!(c.on_event(AppEvent::UserCommand('B')), Some(mp(0, 0)));
}

#[test]
fn mobile_app_driving_commands() {
    let c = MobileAppCommnadsController::new();
    assert_eq!(c.to_motors_power('F'), mp(100, 100));
    assert_eq!(c.to_motors_power('B'), mp(-100, -100));
    assert_eq!(c.to_motors_power('L'), mp(-100, 100));
    assert_eq!(c.to_motors_power('R'), mp(100, -100));
    assert_eq!(c.to_motors_power('f'), mp(100, 100));
    assert_eq!(c.to_motors_power('b'), mp(-100, -100));
    assert_eq!(c.to_motors_power('l'), mp(-100, 100));
    assert_eq!(c.to_motors_power('r'), mp(100, -100));
    assert_eq!(c.to_motors_power('Q'), mp(255, 255));
    assert_eq!(c.to_motors_power('E'), mp(5, 5));
    for stop in ['X', 'Y', 'U', 'S', 's', 'a', 'd', 'H', 'G', '1'] {
        assert_eq!(c.to_motors_power(stop), MotorsPower::stop());
    }
}

#[test]
fn mobile_app_mode_and_heading() {
    let mut c = MobileAppCommnadsController::new();
    assert_eq!(c.on_event(AppEvent::UserCommand('H')), None);
    assert!(c.is_heading_alignment_mode());
    assert_eq!(c.on_event(AppEvent::UserCommand('G')), None);
    assert!(!c.is_heading_alignment_mode());
    assert_eq!(c.on_event(AppEvent::HeadingUpdated(HeadingSector::PointsLeft)), Some(mp(120, 5)));
    assert_eq!(c.on_event(AppEvent::HeadingUpdated(HeadingSector::PointsRight)), Some(mp(5, 120)));
    assert_eq!(c.on_event(AppEvent::HeadingUpdated(HeadingSector::Ahead)), Some(mp(5, 5)));
    assert_eq!(c.on_event(AppEvent::UserCommand('Z')), Some(MotorsPower::stop()));
}
