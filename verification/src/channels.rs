//! An H-bridge whose two inputs are both PWM channels: the direction is the
//! channel that carries the duty, and the other channel stays at 0.

use vstd::prelude::*;
use crate::command::{duty_for, scale_duty, DriveCommand};

verus! {

/// The size of a signed percentage, cut off at 100.
pub open spec fn clamped_size(percent: i16) -> u8 {
    if percent > 100 || percent < -100 {
        100
    } else if percent < 0 {
        (-percent) as u8
    } else {
        percent as u8
    }
}

/// The duties of the first and the second channel for a signed percentage of a
/// maximum duty of `max`. A positive percentage puts its share of `max` on the
/// first channel, a negative one on the second, and 0 leaves both at 0.
pub open spec fn channel_duties_spec(percent: i16, max: u16) -> (u16, u16) {
    let duty = duty_for(clamped_size(percent), max) as u16;
    if percent > 0 {
        (duty, 0)
    } else if percent < 0 {
        (0, duty)
    } else {
        (0, 0)
    }
}

/// The duties of the first and the second channel for a signed percentage of a
/// maximum duty of `max`. Neither exceeds `max`.
pub fn channel_duties(percent: i16, max: u16) -> (duties: (u16, u16))
    ensures
        duties == channel_duties_spec(percent, max),
        duties.0 <= max,
        duties.1 <= max,
{
    let command = DriveCommand::from_signed(percent);
    let duty = scale_duty(command.speed(), max);
    let first: u16 = if command.pin_a_high() { duty } else { 0 };
    let second: u16 = if command.pin_b_high() { duty } else { 0 };
    (first, second)
}

} // verus!
