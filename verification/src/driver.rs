//! The motor driver: from a command to three hardware writes.

use vstd::prelude::*;
use crate::capability::{set_level, DigitalOutput, DutyChannel};
use crate::command::{
    duty_for, lemma_duty_for_bounds, scale_duty, validate, DriveCommand, ValidatedCommand,
    MAX_SPEED,
};
use crate::error::DriveError;

verus! {

/// The state of the three outputs of a driver.
#[derive(Clone, Copy, Debug, PartialEq, Eq, Structural)]
pub struct Outputs {
    /// Whether the first direction output is high.
    pub pin_a_high: bool,
    /// Whether the second direction output is high.
    pub pin_b_high: bool,
    /// The duty value of the channel.
    pub duty: u16,
}

/// The outputs that `command` stands for on a channel whose maximum duty is
/// `max_duty`:
///
/// | command  | first | second | duty                  |
/// |----------|-------|--------|-----------------------|
/// | Forward  | high  | low    | speed * max_duty / 100 |
/// | Backward | low   | high   | speed * max_duty / 100 |
/// | Brake    | high  | high   | 0                     |
/// | Stop     | low   | low    | 0                     |
pub open spec fn target_outputs(command: DriveCommand, max_duty: u16) -> Outputs {
    Outputs {
        pin_a_high: command.pin_a_high_spec(),
        pin_b_high: command.pin_b_high_spec(),
        duty: duty_for(command.speed_spec(), max_duty) as u16,
    }
}

impl Outputs {
    /// The outputs that a validated command stands for.
    pub fn for_command(command: &ValidatedCommand, max_duty: u16) -> (target: Outputs)
        ensures
            target == target_outputs(command@, max_duty),
            target.duty <= max_duty,
    {
        let plain = command.command();
        Outputs {
            pin_a_high: plain.pin_a_high(),
            pin_b_high: plain.pin_b_high(),
            duty: scale_duty(command.speed(), max_duty),
        }
    }
}

/// What can be observed of a driver.
pub struct DriverState {
    /// The last command that was applied in full.
    pub command: DriveCommand,
    /// The state of the hardware.
    pub outputs: Outputs,
    /// The maximum duty value of the channel.
    pub max_duty: u16,
    /// Whether none of the three outputs can fail.
    pub reliable: bool,
}

impl DriverState {
    /// Whether the hardware is in the state that the recorded command stands for.
    pub open spec fn in_sync(self) -> bool {
        self.outputs == target_outputs(self.command, self.max_duty)
    }
}

/// The state that `drive` leaves behind, given the state before, the command
/// and the result:
///
/// - on success the outputs are those of the command, which is recorded;
/// - a rejected command and a failure at the first output change nothing;
/// - a failure at the second output leaves the first one written;
/// - a failure at the duty channel leaves both direction outputs written.
///
/// The recorded command changes on success only.
pub open spec fn after_drive<EA, EB, EP>(
    pre: DriverState,
    command: DriveCommand,
    res: Result<(), DriveError<EA, EB, EP>>,
) -> DriverState {
    let target = target_outputs(command, pre.max_duty);
    match res {
        Ok(()) => DriverState { command, outputs: target, ..pre },
        Err(DriveError::InvalidSpeed) => pre,
        Err(DriveError::PinAError(_)) => pre,
        Err(DriveError::PinBError(_)) => DriverState {
            outputs: Outputs { pin_a_high: target.pin_a_high, ..pre.outputs },
            ..pre
        },
        Err(DriveError::PwmError(_)) => DriverState {
            outputs: Outputs { duty: pre.outputs.duty, ..target },
            ..pre
        },
    }
}

/// Driving forward at a valid speed, once it succeeds, leaves the first output
/// high, the second low and the duty at `speed * max / 100`, and records the
/// command.
pub proof fn lemma_forward_applied<EA, EB, EP>(pre: DriverState, speed: u8)
    requires
        speed <= MAX_SPEED,
    ensures
        after_drive(pre, DriveCommand::Forward(speed), Ok::<(), DriveError<EA, EB, EP>>(()))
            == (DriverState {
            command: DriveCommand::Forward(speed),
            outputs: Outputs {
                pin_a_high: true,
                pin_b_high: false,
                duty: (speed as int * pre.max_duty as int / 100) as u16,
            },
            ..pre
        }),
        0 <= speed as int * pre.max_duty as int / 100 <= pre.max_duty,
{
    lemma_duty_for_bounds(speed, pre.max_duty);
}

/// Driving backward at a valid speed, once it succeeds, leaves the first output
/// low, the second high and the duty at `speed * max / 100`, and records the
/// command.
pub proof fn lemma_backward_applied<EA, EB, EP>(pre: DriverState, speed: u8)
    requires
        speed <= MAX_SPEED,
    ensures
        after_drive(pre, DriveCommand::Backward(speed), Ok::<(), DriveError<EA, EB, EP>>(()))
            == (DriverState {
            command: DriveCommand::Backward(speed),
            outputs: Outputs {
                pin_a_high: false,
                pin_b_high: true,
                duty: (speed as int * pre.max_duty as int / 100) as u16,
            },
            ..pre
        }),
        0 <= speed as int * pre.max_duty as int / 100 <= pre.max_duty,
{
    lemma_duty_for_bounds(speed, pre.max_duty);
}

/// Braking is always a valid command and, once it succeeds, leaves both
/// direction outputs high and the duty at 0.
pub proof fn lemma_brake_applied<EA, EB, EP>(pre: DriverState)
    ensures
        DriveCommand::Brake.is_valid(),
        after_drive(pre, DriveCommand::Brake, Ok::<(), DriveError<EA, EB, EP>>(()))
            == (DriverState {
            command: DriveCommand::Brake,
            outputs: Outputs { pin_a_high: true, pin_b_high: true, duty: 0 },
            ..pre
        }),
{
}

/// Stopping is always a valid command and, once it succeeds, leaves both
/// direction outputs low and the duty at 0.
pub proof fn lemma_stop_applied<EA, EB, EP>(pre: DriverState)
    ensures
        DriveCommand::Stop.is_valid(),
        after_drive(pre, DriveCommand::Stop, Ok::<(), DriveError<EA, EB, EP>>(()))
            == (DriverState {
            command: DriveCommand::Stop,
            outputs: Outputs { pin_a_high: false, pin_b_high: false, duty: 0 },
            ..pre
        }),
{
}

/// Applying a command a second time changes nothing: the state after two
/// successful runs of `drive` with one command is the state after the first.
pub proof fn lemma_drive_idempotent<EA, EB, EP>(pre: DriverState, command: DriveCommand)
    ensures
        ({
            let done = Ok::<(), DriveError<EA, EB, EP>>(());
            let once = after_drive(pre, command, done);
            after_drive(once, command, done) == once
        }),
{
}

/// Applying the recorded command again to hardware that is in its state
/// rewrites the values that are there: nothing observable changes.
pub proof fn lemma_redrive_in_sync<EA, EB, EP>(pre: DriverState)
    requires
        pre.in_sync(),
    ensures
        after_drive(pre, pre.command, Ok::<(), DriveError<EA, EB, EP>>(())) == pre,
{
}

/// Whatever the command and however `drive` ends, the maximum duty and the
/// reliability of the hardware stay as they are, and the recorded command
/// changes on success only.
pub proof fn lemma_drive_keeps<EA, EB, EP>(
    pre: DriverState,
    command: DriveCommand,
    res: Result<(), DriveError<EA, EB, EP>>,
)
    ensures
        after_drive(pre, command, res).max_duty == pre.max_duty,
        after_drive(pre, command, res).reliable == pre.reliable,
        res is Err ==> after_drive(pre, command, res).command == pre.command,
        res is Ok ==> after_drive(pre, command, res).command == command,
{
}

/// The hardware stays in the state of the recorded command when `drive`
/// succeeds, when it rejects the command, and when the first write fails. After
/// a failure at the second output or at the duty channel it need not.
pub proof fn lemma_in_sync_kept<EA, EB, EP>(
    pre: DriverState,
    command: DriveCommand,
    res: Result<(), DriveError<EA, EB, EP>>,
)
    requires
        pre.in_sync(),
        !(res is Err && (res->Err_0 is PinBError || res->Err_0 is PwmError)),
    ensures
        after_drive(pre, command, res).in_sync(),
{
}

/// A driver for one motor. It owns two direction outputs and a duty channel, and
/// records the last command that it applied in full.
pub struct MotorDriver<A: DigitalOutput, B: DigitalOutput, P: DutyChannel> {
    pin_a: A,
    pin_b: B,
    pwm: P,
    current: ValidatedCommand,
}

impl<A: DigitalOutput, B: DigitalOutput, P: DutyChannel> View for MotorDriver<A, B, P> {
    type V = DriverState;

    open spec fn view(&self) -> DriverState {
        DriverState {
            command: self.command_spec(),
            outputs: Outputs {
                pin_a_high: self.pin_a_spec().is_high(),
                pin_b_high: self.pin_b_spec().is_high(),
                duty: self.pwm_spec().duty_spec(),
            },
            max_duty: self.pwm_spec().max_duty_spec(),
            reliable: self.pin_a_spec().reliable() && self.pin_b_spec().reliable()
                && self.pwm_spec().reliable(),
        }
    }
}

impl<A: DigitalOutput, B: DigitalOutput, P: DutyChannel> MotorDriver<A, B, P> {
    /// The first direction output.
    pub closed spec fn pin_a_spec(&self) -> A {
        self.pin_a
    }

    /// The second direction output.
    pub closed spec fn pin_b_spec(&self) -> B {
        self.pin_b
    }

    /// The duty channel.
    pub closed spec fn pwm_spec(&self) -> P {
        self.pwm
    }

    /// The last command that was applied in full.
    pub closed spec fn command_spec(&self) -> DriveCommand {
        self.current@
    }

    /// Takes the three outputs and applies `Stop` to them. A failure of the
    /// hardware on the way is returned, and no driver is made.
    pub fn new(pin_a: A, pin_b: B, pwm: P) -> (res: Result<
        Self,
        DriveError<A::Error, B::Error, P::Error>,
    >)
        ensures
            match res {
                Ok(driver) => driver@ == (DriverState {
                    command: DriveCommand::Stop,
                    outputs: Outputs { pin_a_high: false, pin_b_high: false, duty: 0 },
                    max_duty: pwm.max_duty_spec(),
                    reliable: pin_a.reliable() && pin_b.reliable() && pwm.reliable(),
                }),
                Err(DriveError::InvalidSpeed) => false,
                Err(DriveError::PinAError(_)) => !pin_a.reliable(),
                Err(DriveError::PinBError(_)) => !pin_b.reliable(),
                Err(DriveError::PwmError(_)) => !pwm.reliable(),
            },
            res is Ok ==> res->Ok_0@.in_sync(),
            pin_a.reliable() && pin_b.reliable() && pwm.reliable() ==> res is Ok,
    {
        let mut driver = MotorDriver { pin_a, pin_b, pwm, current: ValidatedCommand::stop() };
        match driver.drive(DriveCommand::Stop) {
            Ok(()) => Ok(driver),
            Err(e) => Err(e),
        }
    }

    /// Applies `command`: checks it, writes the first direction output, the
    /// second, then the duty, and records the command once all three are
    /// written. The first failure ends the operation; what was written before
    /// it stays written.
    pub fn drive(&mut self, command: DriveCommand) -> (res: Result<
        (),
        DriveError<A::Error, B::Error, P::Error>,
    >)
        ensures
            final(self)@ == after_drive(old(self)@, command, res),
            (res is Err && res->Err_0 is InvalidSpeed) <==> !command.is_valid(),
            !command.is_valid() ==> *final(self) == *old(self),
            command.is_valid() && old(self)@.reliable ==> res is Ok,
            res is Ok ==> final(self)@.in_sync(),
            final(self)@.max_duty == old(self)@.max_duty,
            final(self)@.reliable == old(self)@.reliable,
            res is Err && res->Err_0 is PinAError ==> !old(self).pin_a_spec().reliable()
                && final(self).pin_b_spec() == old(self).pin_b_spec() && final(self).pwm_spec()
                == old(self).pwm_spec(),
            res is Err && res->Err_0 is PinBError ==> !old(self).pin_b_spec().reliable()
                && final(self).pwm_spec() == old(self).pwm_spec(),
            res is Err && res->Err_0 is PwmError ==> !old(self).pwm_spec().reliable(),
    {
        let validated = match validate(command) {
            Ok(v) => v,
            Err(_) => {
                return Err(DriveError::InvalidSpeed);
            },
        };
        let target = Outputs::for_command(&validated, self.pwm.max_duty());
        let wrote_a = set_level(&mut self.pin_a, target.pin_a_high);
        DriveError::<A::Error, B::Error, P::Error>::from_pin_a(wrote_a)?;
        let wrote_b = set_level(&mut self.pin_b, target.pin_b_high);
        DriveError::<A::Error, B::Error, P::Error>::from_pin_b(wrote_b)?;
        let wrote_duty = self.pwm.set_duty(target.duty);
        DriveError::<A::Error, B::Error, P::Error>::from_pwm(wrote_duty)?;
        self.current = validated;
        Ok(())
    }

    /// The maximum duty value of the channel. It is fixed when the channel is
    /// made, and `drive` does not change it.
    pub fn max_duty(&self) -> (max: u16)
        ensures
            max == self@.max_duty,
    {
        self.pwm.max_duty()
    }

    /// The last command that was applied in full: `Stop` until the first
    /// successful `drive`.
    pub fn current_command(&self) -> (command: DriveCommand)
        ensures
            command == self@.command,
            command.is_valid(),
    {
        self.current.command()
    }

    /// The first direction output, for reading.
    pub fn pin_a(&self) -> (pin: &A)
        ensures
            *pin == self.pin_a_spec(),
    {
        &self.pin_a
    }

    /// The second direction output, for reading.
    pub fn pin_b(&self) -> (pin: &B)
        ensures
            *pin == self.pin_b_spec(),
    {
        &self.pin_b
    }

    /// The duty channel, for reading.
    pub fn pwm(&self) -> (channel: &P)
        ensures
            *channel == self.pwm_spec(),
    {
        &self.pwm
    }
}

} // verus!
