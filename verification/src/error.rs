//! Why a drive operation failed.

use vstd::prelude::*;

verus! {

/// Why a drive operation failed. `EA`, `EB` and `EP` are the error types of the
/// first direction output, the second direction output and the duty channel.
#[derive(Clone, Copy, Debug, PartialEq, Eq)]
pub enum DriveError<EA, EB, EP> {
    /// The command's speed is above 100 percent. Nothing was written.
    InvalidSpeed,
    /// Writing the first direction output failed.
    PinAError(EA),
    /// Writing the second direction output failed. The first one was already
    /// written and is not put back.
    PinBError(EB),
    /// Setting the duty failed. Both direction outputs were already written.
    PwmError(EP),
}

impl<EA, EB, EP> DriveError<EA, EB, EP> {
    /// Passes on the result of writing the first direction output, with a
    /// failure marked as [`DriveError::PinAError`].
    pub fn from_pin_a(res: Result<(), EA>) -> (out: Result<(), Self>)
        ensures
            out == (match res {
                Ok(()) => Ok::<(), Self>(()),
                Err(e) => Err::<(), Self>(DriveError::PinAError(e)),
            }),
    {
        match res {
            Ok(()) => Ok(()),
            Err(e) => Err(DriveError::PinAError(e)),
        }
    }

    /// Passes on the result of writing the second direction output, with a
    /// failure marked as [`DriveError::PinBError`].
    pub fn from_pin_b(res: Result<(), EB>) -> (out: Result<(), Self>)
        ensures
            out == (match res {
                Ok(()) => Ok::<(), Self>(()),
                Err(e) => Err::<(), Self>(DriveError::PinBError(e)),
            }),
    {
        match res {
            Ok(()) => Ok(()),
            Err(e) => Err(DriveError::PinBError(e)),
        }
    }

    /// Passes on the result of setting the duty, with a failure marked as
    /// [`DriveError::PwmError`].
    pub fn from_pwm(res: Result<(), EP>) -> (out: Result<(), Self>)
        ensures
            out == (match res {
                Ok(()) => Ok::<(), Self>(()),
                Err(e) => Err::<(), Self>(DriveError::PwmError(e)),
            }),
    {
        match res {
            Ok(()) => Ok(()),
            Err(e) => Err(DriveError::PwmError(e)),
        }
    }
}

} // verus!
