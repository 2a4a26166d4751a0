//! Direct control of a full H-bridge through its two PWM inputs.
//!
//! This is the low-level surface: it acts on the inputs at once, with no
//! command and no check of a speed. Each method touches either the switches or
//! a duty, never both, so it cannot apply power before a direction is set.

use vstd::prelude::*;
use crate::capability::PwmPin;

verus! {

/// What can be observed of one PWM input.
pub struct InputState<D> {
    /// Whether the input is switched on.
    pub enabled: bool,
    /// The duty value the input is set to.
    pub duty: D,
    /// The largest duty value the input takes.
    pub max_duty: D,
}

/// What can be observed of a [`Motor`]: the state of its two inputs.
pub struct MotorState<D1, D2> {
    /// The first input.
    pub in1: InputState<D1>,
    /// The second input.
    pub in2: InputState<D2>,
}

/// The observable state of a PWM input.
pub open spec fn input_state<I: PwmPin>(pin: I) -> InputState<I::Duty> {
    InputState {
        enabled: pin.is_enabled(),
        duty: pin.duty_spec(),
        max_duty: pin.max_duty_spec(),
    }
}

impl<D1, D2> MotorState<D1, D2> {
    /// The same state with both inputs switched off.
    pub open spec fn switched_off(self) -> Self {
        MotorState {
            in1: InputState { enabled: false, ..self.in1 },
            in2: InputState { enabled: false, ..self.in2 },
        }
    }

    /// The same state with the duty of the first input set to `duty`.
    pub open spec fn with_duty(self, duty: D1) -> Self {
        MotorState { in1: InputState { duty, ..self.in1 }, in2: self.in2 }
    }
}

/// A full H-bridge motor driver, held by its two PWM inputs.
pub struct Motor<IN1: PwmPin, IN2: PwmPin> {
    in1: IN1,
    in2: IN2,
}

impl<IN1: PwmPin, IN2: PwmPin> View for Motor<IN1, IN2> {
    type V = MotorState<IN1::Duty, IN2::Duty>;

    open spec fn view(&self) -> MotorState<IN1::Duty, IN2::Duty> {
        MotorState { in1: input_state(self.in1_spec()), in2: input_state(self.in2_spec()) }
    }
}

impl<IN1: PwmPin, IN2: PwmPin> Motor<IN1, IN2> {
    /// The first input.
    pub closed spec fn in1_spec(&self) -> IN1 {
        self.in1
    }

    /// The second input.
    pub closed spec fn in2_spec(&self) -> IN2 {
        self.in2
    }

    /// Creates a new `Motor` from its two inputs, and switches both off.
    pub fn tb67(in1: IN1, in2: IN2) -> (motor: Self)
        ensures
            motor@ == (MotorState { in1: input_state(in1), in2: input_state(in2) }).switched_off(),
    {
        let mut in1 = in1;
        let mut in2 = in2;
        in1.disable();
        in2.disable();
        Motor { in1, in2 }
    }

    /// Brakes the motor: both inputs are switched off. The duties stay as they
    /// are set.
    pub fn brake(&mut self) -> (ret: &mut Self)
        ensures
            ret@ == old(self)@.switched_off(),
            *final(self) == *final(ret),
    {
        self.in1.disable();
        self.in2.disable();
        self
    }

    /// Readies the motor for counter-clockwise rotation: both inputs are switched
    /// off. The duties stay as they are set.
    pub fn ccw(&mut self) -> (ret: &mut Self)
        ensures
            ret@ == old(self)@.switched_off(),
            *final(self) == *final(ret),
    {
        self.in1.disable();
        self.in2.disable();
        self
    }

    /// Readies the motor for clockwise rotation: both inputs are switched off.
    /// The duties stay as they are set.
    pub fn cw(&mut self) -> (ret: &mut Self)
        ensures
            ret@ == old(self)@.switched_off(),
            *final(self) == *final(ret),
    {
        self.in1.disable();
        self.in2.disable();
        self
    }

    /// Returns the maximum duty value of the first input. The motor is left as
    /// it is.
    pub fn get_max_duty(&mut self) -> (max: IN1::Duty)
        ensures
            max == old(self)@.in1.max_duty,
            *final(self) == *old(self),
    {
        self.in1.get_max_duty()
    }

    /// Changes the motor speed: sets the duty of the first input. Whether the
    /// inputs are switched on does not change, and the second input is left as
    /// it is.
    pub fn duty(&mut self, duty: IN1::Duty) -> (ret: &mut Self)
        ensures
            ret@ == old(self)@.with_duty(duty),
            ret.in2_spec() == old(self).in2_spec(),
            *final(self) == *final(ret),
    {
        self.in1.set_duty(duty);
        self
    }

    /// The first input, for reading.
    pub fn in1(&self) -> (pin: &IN1)
        ensures
            *pin == self.in1_spec(),
    {
        &self.in1
    }

    /// The second input, for reading.
    pub fn in2(&self) -> (pin: &IN2)
        ensures
            *pin == self.in2_spec(),
    {
        &self.in2
    }
}

} // verus!
