//! The hardware capabilities a driver is built on.
//!
//! Each trait gives an output an abstract state, and says what a write does to
//! it. An implementation for real hardware takes these clauses as its
//! obligation: a driver is proved correct only relative to them.

use vstd::prelude::*;

verus! {

/// A digital output that can be driven high or low.
pub trait DigitalOutput {
    /// What a failed write reports.
    type Error;

    /// Whether the output is driven high.
    spec fn is_high(&self) -> bool;

    /// Whether writes to this output are known never to fail. An implementation
    /// that cannot promise this answers `false`.
    spec fn reliable(&self) -> bool;

    /// Drives the output high. A failed write leaves the level as it was.
    fn set_high(&mut self) -> (res: Result<(), Self::Error>)
        ensures
            final(self).is_high() == (res is Ok || old(self).is_high()),
            final(self).reliable() == old(self).reliable(),
            old(self).reliable() ==> res is Ok,
    ;

    /// Drives the output low. A failed write leaves the level as it was.
    fn set_low(&mut self) -> (res: Result<(), Self::Error>)
        ensures
            final(self).is_high() == (res is Err && old(self).is_high()),
            final(self).reliable() == old(self).reliable(),
            old(self).reliable() ==> res is Ok,
    ;
}

/// Drives `pin` high or low as `high` says, and passes on what the write
/// reported.
pub fn set_level<O: DigitalOutput>(pin: &mut O, high: bool) -> (res: Result<(), O::Error>)
    ensures
        final(pin).is_high() == (if res is Ok { high } else { old(pin).is_high() }),
        final(pin).reliable() == old(pin).reliable(),
        old(pin).reliable() ==> res is Ok,
{
    if high {
        pin.set_high()
    } else {
        pin.set_low()
    }
}

/// A PWM channel whose duty can be set to any value up to a fixed maximum.
pub trait DutyChannel {
    /// What a failed write reports.
    type Error;

    /// The largest duty value the channel takes. It never changes.
    spec fn max_duty_spec(&self) -> u16;

    /// The duty value the channel runs at.
    spec fn duty_spec(&self) -> u16;

    /// Whether writes to this channel are known never to fail. An implementation
    /// that cannot promise this answers `false`.
    spec fn reliable(&self) -> bool;

    /// The largest duty value the channel takes.
    fn max_duty(&self) -> (max: u16)
        ensures
            max == self.max_duty_spec(),
    ;

    /// Sets the duty value. A failed write leaves the duty as it was.
    fn set_duty(&mut self, duty: u16) -> (res: Result<(), Self::Error>)
        requires
            duty <= old(self).max_duty_spec(),
        ensures
            final(self).duty_spec() == (if res is Ok { duty } else { old(self).duty_spec() }),
            final(self).max_duty_spec() == old(self).max_duty_spec(),
            final(self).reliable() == old(self).reliable(),
            old(self).reliable() ==> res is Ok,
    ;
}

/// A PWM output that can be switched off and whose duty can be set. Its writes
/// cannot fail.
pub trait PwmPin {
    /// The type of a duty value.
    type Duty;

    /// Whether the output is switched on.
    spec fn is_enabled(&self) -> bool;

    /// The duty value the output is set to.
    spec fn duty_spec(&self) -> Self::Duty;

    /// The largest duty value the output takes. It never changes.
    spec fn max_duty_spec(&self) -> Self::Duty;

    /// Switches the output off. The duty stays as it is set.
    fn disable(&mut self)
        ensures
            !final(self).is_enabled(),
            final(self).duty_spec() == old(self).duty_spec(),
            final(self).max_duty_spec() == old(self).max_duty_spec(),
    ;

    /// The largest duty value the output takes.
    fn get_max_duty(&self) -> (max: Self::Duty)
        ensures
            max == self.max_duty_spec(),
    ;

    /// Sets the duty value. The output stays on or off as it is.
    fn set_duty(&mut self, duty: Self::Duty)
        ensures
            final(self).duty_spec() == duty,
            final(self).is_enabled() == old(self).is_enabled(),
            final(self).max_duty_spec() == old(self).max_duty_spec(),
    ;
}

} // verus!
