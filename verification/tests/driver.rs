use motor_driver::sim::{Fault, SimChannel, SimPin};
use motor_driver::command::DriveCommand;
use motor_driver::driver::MotorDriver;
use motor_driver::error::DriveError;

type SimDriver = MotorDriver<SimPin, SimPin, SimChannel>;
type SimError = DriveError<Fault, Fault, Fault>;

fn working(max: u16) -> SimDriver {
    match MotorDriver::new(SimPin::new(), SimPin::new(), SimChannel::new(max)) {
        Ok(driver) => driver,
        Err(_) => panic!("working hardware must give a driver"),
    }
}

fn observed(driver: &SimDriver) -> (bool, bool, u16, DriveCommand) {
    (driver.pin_a().high, driver.pin_b().high, driver.pwm().duty, driver.current_command())
}

#[test]
fn new_applies_stop() {
    let pin_a = SimPin { high: true, writes_left: None };
    let pin_b = SimPin { high: true, writes_left: None };
    let pwm = SimChannel { duty: 700, max: 1000, writes_left: None };
    let driver = match MotorDriver::new(pin_a, pin_b, pwm) {
        Ok(driver) => driver,
        Err(_) => panic!("working hardware must give a driver"),
    };
    assert_eq!(observed(&driver), (false, false, 0, DriveCommand::Stop));
    assert_eq!(driver.max_duty(), 1000);
}

#[test]
fn new_passes_on_a_failure_of_the_first_output() {
    let res = MotorDriver::new(SimPin::failing_after(0), SimPin::new(), SimChannel::new(1000));
    let expected: SimError = DriveError::PinAError(Fault);
    assert_eq!(res.err(), Some(expected));
}

#[test]
fn new_passes_on_a_failure_of_the_second_output() {
    let res = MotorDriver::new(SimPin::new(), SimPin::failing_after(0), SimChannel::new(1000));
    let expected: SimError = DriveError::PinBError(Fault);
    assert_eq!(res.err(), Some(expected));
}

#[test]
fn new_passes_on_a_failure_of_the_duty_channel() {
    let res = MotorDriver::new(SimPin::new(), SimPin::new(), SimChannel::failing_after(1000, 0));
    let expected: SimError = DriveError::PwmError(Fault);
    assert_eq!(res.err(), Some(expected));
}

#[test]
fn forward_sets_first_high_second_low() {
    for speed in 0..=100u8 {
        let mut driver = working(65535);
        assert_eq!(driver.drive(DriveCommand::Forward(speed)), Ok(()));
        let duty = (speed as u32 * 65535 / 100) as u16;
        assert_eq!(observed(&driver), (true, false, duty, DriveCommand::Forward(speed)));
    }
}

#[test]
fn backward_sets_first_low_second_high() {
    for speed in 0..=100u8 {
        let mut driver = working(65416);
        assert_eq!(driver.drive(DriveCommand::Backward(speed)), Ok(()));
        let duty = (speed as u32 * 65416 / 100) as u16;
        assert_eq!(observed(&driver), (false, true, duty, DriveCommand::Backward(speed)));
    }
}

#[test]
fn speeds_above_one_hundred_are_rejected_and_change_nothing() {
    for speed in 101..=255u8 {
        let mut driver = working(1000);
        assert_eq!(driver.drive(DriveCommand::Forward(40)), Ok(()));
        let before = observed(&driver);
        let pins = (*driver.pin_a(), *driver.pin_b(), *driver.pwm());
        assert_eq!(driver.drive(DriveCommand::Forward(speed)), Err(DriveError::InvalidSpeed));
        assert_eq!(driver.drive(DriveCommand::Backward(speed)), Err(DriveError::InvalidSpeed));
        assert_eq!(observed(&driver), before);
        assert_eq!((*driver.pin_a(), *driver.pin_b(), *driver.pwm()), pins);
    }
}

#[test]
fn rejected_command_makes_no_write() {
    let pin_a = SimPin::failing_after(3);
    let pin_b = SimPin::failing_after(3);
    let pwm = SimChannel::failing_after(1000, 3);
    let mut driver = match MotorDriver::new(pin_a, pin_b, pwm) {
        Ok(driver) => driver,
        Err(_) => panic!("the first write of each output succeeds"),
    };
    assert_eq!(driver.drive(DriveCommand::Backward(101)), Err(DriveError::InvalidSpeed));
    assert_eq!(driver.pin_a().writes_left, Some(2));
    assert_eq!(driver.pin_b().writes_left, Some(2));
    assert_eq!(driver.pwm().writes_left, Some(2));
}

#[test]
fn brake_sets_both_high_and_duty_zero() {
    let mut driver = working(1000);
    assert_eq!(driver.drive(DriveCommand::Forward(80)), Ok(()));
    assert_eq!(driver.drive(DriveCommand::Brake), Ok(()));
    assert_eq!(observed(&driver), (true, true, 0, DriveCommand::Brake));
}

#[test]
fn stop_sets_both_low_and_duty_zero() {
    let mut driver = working(1000);
    assert_eq!(driver.drive(DriveCommand::Backward(80)), Ok(()));
    assert_eq!(driver.drive(DriveCommand::Stop), Ok(()));
    assert_eq!(observed(&driver), (false, false, 0, DriveCommand::Stop));
}

#[test]
fn repeating_a_command_changes_nothing() {
    let commands = [
        DriveCommand::Forward(0),
        DriveCommand::Forward(63),
        DriveCommand::Backward(100),
        DriveCommand::Brake,
        DriveCommand::Stop,
    ];
    for command in commands {
        let mut driver = working(65535);
        assert_eq!(driver.drive(command), Ok(()));
        let once = (*driver.pin_a(), *driver.pin_b(), *driver.pwm(), driver.current_command());
        assert_eq!(driver.drive(command), Ok(()));
        let twice = (*driver.pin_a(), *driver.pin_b(), *driver.pwm(), driver.current_command());
        assert_eq!(once, twice);
    }
}

#[test]
fn max_duty_is_fixed_at_construction() {
    let mut driver = working(65416);
    assert_eq!(driver.max_duty(), 65416);
    assert_eq!(driver.drive(DriveCommand::Forward(100)), Ok(()));
    assert_eq!(driver.max_duty(), 65416);
    assert_eq!(driver.drive(DriveCommand::Backward(250)), Err(DriveError::InvalidSpeed));
    assert_eq!(driver.max_duty(), 65416);
    assert_eq!(driver.drive(DriveCommand::Brake), Ok(()));
    assert_eq!(driver.drive(DriveCommand::Stop), Ok(()));
    assert_eq!(driver.max_duty(), 65416);
}

#[test]
fn max_duty_survives_a_failed_drive() {
    let pwm = SimChannel::failing_after(4000, 1);
    let mut driver = match MotorDriver::new(SimPin::new(), SimPin::new(), pwm) {
        Ok(driver) => driver,
        Err(_) => panic!("the first write of the channel succeeds"),
    };
    assert_eq!(driver.drive(DriveCommand::Forward(10)), Err(DriveError::PwmError(Fault)));
    assert_eq!(driver.max_duty(), 4000);
}

#[test]
fn forward_then_invalid_backward_keeps_forward() {
    let mut driver = working(65535);
    assert_eq!(driver.current_command(), DriveCommand::Stop);
    assert_eq!(driver.drive(DriveCommand::Forward(50)), Ok(()));
    assert_eq!(observed(&driver), (true, false, 65535 / 2, DriveCommand::Forward(50)));
    assert_eq!(driver.drive(DriveCommand::Backward(200)), Err(DriveError::InvalidSpeed));
    assert_eq!(observed(&driver), (true, false, 65535 / 2, DriveCommand::Forward(50)));
}

#[test]
fn failure_of_the_first_output_changes_nothing() {
    let pin_a = SimPin::failing_after(2);
    let mut driver = match MotorDriver::new(pin_a, SimPin::new(), SimChannel::new(1000)) {
        Ok(driver) => driver,
        Err(_) => panic!("the first write of the pin succeeds"),
    };
    assert_eq!(driver.drive(DriveCommand::Forward(30)), Ok(()));
    let before = observed(&driver);
    assert_eq!(driver.drive(DriveCommand::Backward(90)), Err(DriveError::PinAError(Fault)));
    assert_eq!(observed(&driver), before);
    assert_eq!(before, (true, false, 300, DriveCommand::Forward(30)));
}

#[test]
fn failure_of_the_second_output_leaves_the_first_written() {
    let pin_b = SimPin::failing_after(2);
    let mut driver = match MotorDriver::new(SimPin::new(), pin_b, SimChannel::new(1000)) {
        Ok(driver) => driver,
        Err(_) => panic!("the first write of the pin succeeds"),
    };
    assert_eq!(driver.drive(DriveCommand::Forward(30)), Ok(()));
    assert_eq!(driver.drive(DriveCommand::Backward(90)), Err(DriveError::PinBError(Fault)));
    assert_eq!(observed(&driver), (false, false, 300, DriveCommand::Forward(30)));
}

#[test]
fn failure_of_the_duty_channel_leaves_both_outputs_written() {
    let pwm = SimChannel::failing_after(1000, 2);
    let mut driver = match MotorDriver::new(SimPin::new(), SimPin::new(), pwm) {
        Ok(driver) => driver,
        Err(_) => panic!("the first write of the channel succeeds"),
    };
    assert_eq!(driver.drive(DriveCommand::Forward(30)), Ok(()));
    assert_eq!(driver.drive(DriveCommand::Backward(90)), Err(DriveError::PwmError(Fault)));
    assert_eq!(observed(&driver), (false, true, 300, DriveCommand::Forward(30)));
}

#[test]
fn a_failed_command_can_be_tried_again() {
    let pin_b = SimPin { high: false, writes_left: Some(1) };
    let mut driver = match MotorDriver::new(SimPin::new(), pin_b, SimChannel::new(200)) {
        Ok(driver) => driver,
        Err(_) => panic!("the first write of the pin succeeds"),
    };
    assert_eq!(driver.drive(DriveCommand::Brake), Err(DriveError::PinBError(Fault)));
    assert_eq!(driver.drive(DriveCommand::Brake), Err(DriveError::PinBError(Fault)));
    assert_eq!(observed(&driver), (true, false, 0, DriveCommand::Stop));
}

#[test]
fn direction_is_written_before_duty() {
    let pwm = SimChannel::failing_after(1000, 1);
    let mut driver = match MotorDriver::new(SimPin::new(), SimPin::new(), pwm) {
        Ok(driver) => driver,
        Err(_) => panic!("the first write of the channel succeeds"),
    };
    assert_eq!(driver.drive(DriveCommand::Backward(55)), Err(DriveError::PwmError(Fault)));
    assert!(!driver.pin_a().high);
    assert!(driver.pin_b().high);
    assert_eq!(driver.pwm().duty, 0);
}

#[test]
fn wrapping_marks_the_output_that_failed() {
    assert_eq!(SimError::from_pin_a(Ok(())), Ok(()));
    assert_eq!(SimError::from_pin_b(Ok(())), Ok(()));
    assert_eq!(SimError::from_pwm(Ok(())), Ok(()));
    assert_eq!(SimError::from_pin_a(Err(Fault)), Err(DriveError::PinAError(Fault)));
    assert_eq!(SimError::from_pin_b(Err(Fault)), Err(DriveError::PinBError(Fault)));
    assert_eq!(SimError::from_pwm(Err(Fault)), Err(DriveError::PwmError(Fault)));
}

#[test]
fn wrapping_keeps_the_error_value() {
    type Numbered = DriveError<u8, u16, u32>;
    assert_eq!(Numbered::from_pin_a(Err(7)), Err(DriveError::PinAError(7)));
    assert_eq!(Numbered::from_pin_b(Err(8)), Err(DriveError::PinBError(8)));
    assert_eq!(Numbered::from_pwm(Err(9)), Err(DriveError::PwmError(9)));
}
