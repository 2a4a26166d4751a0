//! Drive commands, their validation, and the outputs they stand for.

use vstd::prelude::*;

verus! {

/// The highest speed a command may carry, in percent.
pub const MAX_SPEED: u8 = 100;

/// What the motor is asked to do.
#[derive(Clone, Copy, Debug, PartialEq, Eq, Structural)]
pub enum DriveCommand {
    /// Turn forward at this percentage of full power.
    Forward(u8),
    /// Turn backward at this percentage of full power.
    Backward(u8),
    /// Short both motor terminals.
    Brake,
    /// Let the motor coast.
    Stop,
}

/// Marks a command whose speed is above [`MAX_SPEED`].
#[derive(Clone, Copy, Debug, PartialEq, Eq, Structural)]
pub struct InvalidSpeed;

impl DriveCommand {
    /// The speed the command carries; `Brake` and `Stop` carry 0.
    pub open spec fn speed_spec(self) -> u8 {
        match self {
            DriveCommand::Forward(s) => s,
            DriveCommand::Backward(s) => s,
            DriveCommand::Brake => 0,
            DriveCommand::Stop => 0,
        }
    }

    /// A command is valid when its speed is at most [`MAX_SPEED`].
    pub open spec fn is_valid(self) -> bool {
        self.speed_spec() <= MAX_SPEED
    }

    /// The level of the first direction output: high for `Forward` and `Brake`.
    pub open spec fn pin_a_high_spec(self) -> bool {
        self is Forward || self is Brake
    }

    /// The level of the second direction output: high for `Backward` and `Brake`.
    pub open spec fn pin_b_high_spec(self) -> bool {
        self is Backward || self is Brake
    }

    /// The command that a signed percentage stands for, where the sign is the
    /// direction: positive is forward, negative is backward and 0 is `Stop`. A
    /// percentage beyond 100 either way counts as 100.
    pub open spec fn from_signed_spec(percent: i16) -> DriveCommand {
        if percent == 0 {
            DriveCommand::Stop
        } else if percent > 100 {
            DriveCommand::Forward(100)
        } else if percent > 0 {
            DriveCommand::Forward(percent as u8)
        } else if percent < -100 {
            DriveCommand::Backward(100)
        } else {
            DriveCommand::Backward((-percent) as u8)
        }
    }

    /// The command that a signed percentage stands for, where the sign is the
    /// direction: positive is forward, negative is backward and 0 is `Stop`. A
    /// percentage beyond 100 either way counts as 100, so the command is always
    /// valid.
    pub fn from_signed(percent: i16) -> (command: DriveCommand)
        ensures
            command == Self::from_signed_spec(percent),
            command.is_valid(),
    {
        if percent == 0 {
            DriveCommand::Stop
        } else if percent > 100 {
            DriveCommand::Forward(100)
        } else if percent > 0 {
            DriveCommand::Forward(percent as u8)
        } else if percent < -100 {
            DriveCommand::Backward(100)
        } else {
            let speed: i16 = -percent;
            DriveCommand::Backward(speed as u8)
        }
    }

    /// The speed the command carries; `Brake` and `Stop` carry 0.
    #[verifier::when_used_as_spec(speed_spec)]
    pub fn speed(self) -> (s: u8)
        ensures
            s == self.speed_spec(),
    {
        match self {
            DriveCommand::Forward(s) => s,
            DriveCommand::Backward(s) => s,
            DriveCommand::Brake => 0,
            DriveCommand::Stop => 0,
        }
    }

    /// Whether the first direction output is high under this command.
    #[verifier::when_used_as_spec(pin_a_high_spec)]
    pub fn pin_a_high(self) -> (high: bool)
        ensures
            high == self.pin_a_high_spec(),
    {
        match self {
            DriveCommand::Forward(_) => true,
            DriveCommand::Backward(_) => false,
            DriveCommand::Brake => true,
            DriveCommand::Stop => false,
        }
    }

    /// Whether the second direction output is high under this command.
    #[verifier::when_used_as_spec(pin_b_high_spec)]
    pub fn pin_b_high(self) -> (high: bool)
        ensures
            high == self.pin_b_high_spec(),
    {
        match self {
            DriveCommand::Forward(_) => false,
            DriveCommand::Backward(_) => true,
            DriveCommand::Brake => true,
            DriveCommand::Stop => false,
        }
    }
}

/// A command that has passed [`validate`]: its speed is at most [`MAX_SPEED`].
#[derive(Clone, Copy, Debug, PartialEq, Eq)]
pub struct ValidatedCommand {
    command: DriveCommand,
}

impl View for ValidatedCommand {
    type V = DriveCommand;

    closed spec fn view(&self) -> DriveCommand {
        self.command
    }
}

impl ValidatedCommand {
    #[verifier::type_invariant]
    spec fn speed_in_range(self) -> bool {
        self.command.is_valid()
    }

    /// The validated form of `Stop`, which carries no speed to check.
    pub fn stop() -> (v: Self)
        ensures
            v@ == DriveCommand::Stop,
    {
        ValidatedCommand { command: DriveCommand::Stop }
    }

    /// The command that was validated.
    pub fn command(&self) -> (c: DriveCommand)
        ensures
            c == self@,
            c.is_valid(),
    {
        proof {
            use_type_invariant(self);
        }
        self.command
    }

    /// The speed of the command, which is at most [`MAX_SPEED`].
    pub fn speed(&self) -> (s: u8)
        ensures
            s == self@.speed_spec(),
            s <= MAX_SPEED,
    {
        proof {
            use_type_invariant(self);
        }
        self.command.speed()
    }
}

/// Checks a command: it is accepted as it stands unless its speed is above
/// [`MAX_SPEED`].
pub fn validate(command: DriveCommand) -> (res: Result<ValidatedCommand, InvalidSpeed>)
    ensures
        command.is_valid() ==> res is Ok && res->Ok_0@ == command,
        !command.is_valid() ==> res == Err::<ValidatedCommand, InvalidSpeed>(InvalidSpeed),
{
    if command.speed() > MAX_SPEED {
        Err(InvalidSpeed)
    } else {
        Ok(ValidatedCommand { command })
    }
}

/// The duty value for `speed` percent of `max`: `speed * max / 100`, rounded down.
pub open spec fn duty_for(speed: u8, max: u16) -> int {
    (speed as int * max as int) / 100
}

/// The scaled duty never exceeds the maximum, and so fits in 16 bits.
pub proof fn lemma_duty_for_bounds(speed: u8, max: u16)
    requires
        speed <= MAX_SPEED,
    ensures
        0 <= duty_for(speed, max) <= max,
        speed as int * max as int <= 100 * max as int,
{
    assert(0 <= speed as int * max as int <= 100 * max as int) by (nonlinear_arith)
        requires
            0 <= speed as int <= 100,
            0 <= max as int,
    ;
}

/// Scales a percentage against the channel's maximum duty value. The product is
/// formed in 32 bits, so it cannot overflow.
pub fn scale_duty(speed: u8, max: u16) -> (duty: u16)
    requires
        speed <= MAX_SPEED,
    ensures
        duty == duty_for(speed, max),
        duty <= max,
{
    proof {
        lemma_duty_for_bounds(speed, max);
    }
    let product: u32 = (speed as u32) * (max as u32);
    let scaled: u32 = product / 100;
    scaled as u16
}

} // verus!
