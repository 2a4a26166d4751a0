//! Driver for a DC motor behind a two-input H-bridge.
//!
//! - [`command`]: what the motor can be asked to do, and which commands are
//!   valid.
//! - [`capability`]: what the driver needs of the hardware.
//! - [`driver`]: [`driver::MotorDriver`], which checks a command and writes the
//!   two direction outputs and the duty that it stands for.
//! - [`error`]: why a drive operation failed.
//! - [`channels`]: the duties for a bridge whose inputs are both PWM channels.
//! - [`motor`]: [`motor::Motor`], direct control of the two inputs of a bridge.
//! - [`sim`]: simulated hardware.

pub mod capability;
pub mod channels;
pub mod command;
pub mod driver;
pub mod error;
pub mod motor;
pub mod sim;
