//! Simulated outputs, for running a driver without hardware.
//!
//! Each can be given a number of writes after which it fails, so that every
//! failure of a driver can be brought about.

use vstd::prelude::*;
use crate::capability::{DigitalOutput, DutyChannel, PwmPin};

verus! {

/// What a simulated output reports when a write fails.
#[derive(Clone, Copy, Debug, PartialEq, Eq, Structural)]
pub struct Fault;

/// A simulated digital output.
#[derive(Clone, Copy, Debug, PartialEq, Eq)]
pub struct SimPin {
    /// The level the pin is driven to.
    pub high: bool,
    /// The number of writes that still succeed; `None` if none ever fails.
    pub writes_left: Option<u32>,
}

/// Counts one write against a budget: the budget afterwards, or `None` if the
/// write fails because the budget is used up.
pub open spec fn spend_spec(writes_left: Option<u32>) -> Option<Option<u32>> {
    match writes_left {
        None => Some(None),
        Some(n) => if n == 0 {
            None
        } else {
            Some(Some((n - 1) as u32))
        },
    }
}

/// Counts one write against a budget: the budget afterwards, or `None` if the
/// write fails because the budget is used up.
pub fn spend(writes_left: Option<u32>) -> (after: Option<Option<u32>>)
    ensures
        after == spend_spec(writes_left),
{
    match writes_left {
        None => Some(None),
        Some(n) => if n == 0 {
            None
        } else {
            Some(Some(n - 1))
        },
    }
}

impl SimPin {
    /// A pin that is driven low and never fails.
    pub fn new() -> (pin: Self)
        ensures
            pin == (SimPin { high: false, writes_left: None }),
    {
        SimPin { high: false, writes_left: None }
    }

    /// A pin that is driven low, takes `writes` writes and fails from then on.
    pub fn failing_after(writes: u32) -> (pin: Self)
        ensures
            pin == (SimPin { high: false, writes_left: Some(writes) }),
    {
        SimPin { high: false, writes_left: Some(writes) }
    }

    /// Writes `high` to the pin, if the budget allows a write.
    fn write(&mut self, high: bool) -> (res: Result<(), Fault>)
        ensures
            match spend_spec(old(self).writes_left) {
                Some(left) => res is Ok && *final(self) == (SimPin { high, writes_left: left }),
                None => res is Err && *final(self) == *old(self),
            },
    {
        match spend(self.writes_left) {
            Some(left) => {
                self.high = high;
                self.writes_left = left;
                Ok(())
            },
            None => Err(Fault),
        }
    }
}

impl DigitalOutput for SimPin {
    type Error = Fault;

    open spec fn is_high(&self) -> bool {
        self.high
    }

    open spec fn reliable(&self) -> bool {
        self.writes_left is None
    }

    fn set_high(&mut self) -> (res: Result<(), Fault>)
        ensures
            match spend_spec(old(self).writes_left) {
                Some(left) => res is Ok && *final(self) == (SimPin { high: true, writes_left: left }),
                None => res is Err && *final(self) == *old(self),
            },
    {
        self.write(true)
    }

    fn set_low(&mut self) -> (res: Result<(), Fault>)
        ensures
            match spend_spec(old(self).writes_left) {
                Some(left) => res is Ok && *final(self) == (SimPin { high: false, writes_left: left }),
                None => res is Err && *final(self) == *old(self),
            },
    {
        self.write(false)
    }
}

/// A simulated duty channel.
#[derive(Clone, Copy, Debug, PartialEq, Eq)]
pub struct SimChannel {
    /// The duty value the channel runs at.
    pub duty: u16,
    /// The largest duty value the channel takes.
    pub max: u16,
    /// The number of writes that still succeed; `None` if none ever fails.
    pub writes_left: Option<u32>,
}

impl SimChannel {
    /// A channel with the given maximum that runs at duty 0 and never fails.
    pub fn new(max: u16) -> (channel: Self)
        ensures
            channel == (SimChannel { duty: 0, max, writes_left: None }),
    {
        SimChannel { duty: 0, max, writes_left: None }
    }

    /// A channel with the given maximum that runs at duty 0, takes `writes`
    /// writes and fails from then on.
    pub fn failing_after(max: u16, writes: u32) -> (channel: Self)
        ensures
            channel == (SimChannel { duty: 0, max, writes_left: Some(writes) }),
    {
        SimChannel { duty: 0, max, writes_left: Some(writes) }
    }
}

impl DutyChannel for SimChannel {
    type Error = Fault;

    open spec fn max_duty_spec(&self) -> u16 {
        self.max
    }

    open spec fn duty_spec(&self) -> u16 {
        self.duty
    }

    open spec fn reliable(&self) -> bool {
        self.writes_left is None
    }

    fn max_duty(&self) -> (max: u16) {
        self.max
    }

    fn set_duty(&mut self, duty: u16) -> (res: Result<(), Fault>)
        ensures
            match spend_spec(old(self).writes_left) {
                Some(left) => res is Ok && *final(self) == (SimChannel {
                    duty,
                    max: old(self).max,
                    writes_left: left,
                }),
                None => res is Err && *final(self) == *old(self),
            },
    {
        match spend(self.writes_left) {
            Some(left) => {
                self.duty = duty;
                self.writes_left = left;
                Ok(())
            },
            None => Err(Fault),
        }
    }
}

/// A simulated PWM input of an H-bridge.
#[derive(Clone, Copy, Debug, PartialEq, Eq, Structural)]
pub struct SimPwmPin {
    /// Whether the input is switched on.
    pub enabled: bool,
    /// The duty value the input is set to.
    pub duty: u16,
    /// The largest duty value the input takes.
    pub max: u16,
}

impl SimPwmPin {
    /// An input with the given maximum that is switched on at duty 0.
    pub fn new(max: u16) -> (pin: Self)
        ensures
            pin == (SimPwmPin { enabled: true, duty: 0, max }),
    {
        SimPwmPin { enabled: true, duty: 0, max }
    }
}

impl PwmPin for SimPwmPin {
    type Duty = u16;

    open spec fn is_enabled(&self) -> bool {
        self.enabled
    }

    open spec fn duty_spec(&self) -> u16 {
        self.duty
    }

    open spec fn max_duty_spec(&self) -> u16 {
        self.max
    }

    fn disable(&mut self) {
        self.enabled = false;
    }

    fn get_max_duty(&self) -> (max: u16) {
        self.max
    }

    fn set_duty(&mut self, duty: u16) {
        self.duty = duty;
    }
}

} // verus!
