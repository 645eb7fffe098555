//! The error taxonomy, and the reading of an authenticator's status.

use vstd::prelude::*;

verus! {

/// The status with which an authenticator reports success.
pub const FIDO_OK: i32 = 0;

/// The status of an authenticator that does not know the requested option.
pub const FIDO_ERR_UNSUPPORTED_OPTION: i32 = 0x2b;

/// The status of an authenticator that was given a wrong PIN.
pub const FIDO_ERR_PIN_INVALID: i32 = 0x31;

/// The status of an authenticator whose PIN is blocked after too many wrong tries.
pub const FIDO_ERR_PIN_BLOCKED: i32 = 0x32;

/// The status of an authenticator that wants a PIN and was given none.
pub const FIDO_ERR_PIN_REQUIRED: i32 = 0x36;

/// A failure that the authenticator, or the transport to it, reported.
#[derive(Debug, Clone, Copy, PartialEq, Eq, Structural)]
pub enum DeviceError {
    /// The PIN was rejected; the caller may ask for another.
    WrongPin,
    /// The operation needs a PIN.
    PinRequired,
    /// The PIN is blocked.
    PinBlocked,
    /// The authenticator does not offer the operation.
    Unsupported,
    /// Any other failure, with the status as it was reported.
    Other(i32),
}

/// Everything that an operation of this crate can fail with.
#[derive(Debug, Clone, Copy, PartialEq, Eq, Structural)]
pub enum Error {
    /// A string cannot be written as a NUL-terminated string.
    Encoding,
    /// The authenticator or the transport reported a failure.
    Device(DeviceError),
    /// A value handed in lacks a field that the operation needs.
    InvalidArgument,
    /// An index lies at or beyond the number of elements.
    IndexOutOfRange,
}

/// The kind of failure that a status other than success stands for.
pub open spec fn device_error(status: i32) -> DeviceError {
    if status == FIDO_ERR_PIN_INVALID {
        DeviceError::WrongPin
    } else if status == FIDO_ERR_PIN_REQUIRED {
        DeviceError::PinRequired
    } else if status == FIDO_ERR_PIN_BLOCKED {
        DeviceError::PinBlocked
    } else if status == FIDO_ERR_UNSUPPORTED_OPTION {
        DeviceError::Unsupported
    } else {
        DeviceError::Other(status)
    }
}

/// What a status means for the operation that ended with it.
pub open spec fn status_result(status: i32) -> Result<(), Error> {
    if status == FIDO_OK {
        Ok(())
    } else {
        Err(Error::Device(device_error(status)))
    }
}

/// Whether `e` is a failure of the authenticator, of whatever kind.
pub open spec fn is_device_error(e: Error) -> bool {
    e is Device
}

/// Turns the status of a finished operation into its result: success for
/// `FIDO_OK`, and for any other status the device error that it stands for.
pub fn check(status: i32) -> (r: Result<(), Error>)
    ensures
        r == status_result(status),
{
    if status == FIDO_OK {
        Ok(())
    } else if status == FIDO_ERR_PIN_INVALID {
        Err(Error::Device(DeviceError::WrongPin))
    } else if status == FIDO_ERR_PIN_REQUIRED {
        Err(Error::Device(DeviceError::PinRequired))
    } else if status == FIDO_ERR_PIN_BLOCKED {
        Err(Error::Device(DeviceError::PinBlocked))
    } else if status == FIDO_ERR_UNSUPPORTED_OPTION {
        Err(Error::Device(DeviceError::Unsupported))
    } else {
        Err(Error::Device(DeviceError::Other(status)))
    }
}

impl Error {
    /// A short description of the error, for a person to read.
    pub fn message(&self) -> (s: &'static str)
        ensures
            s@ == (match *self {
                Error::Encoding => "string contains a NUL byte"@,
                Error::Device(DeviceError::WrongPin) => "wrong PIN"@,
                Error::Device(DeviceError::PinRequired) => "PIN required"@,
                Error::Device(DeviceError::PinBlocked) => "PIN blocked"@,
                Error::Device(DeviceError::Unsupported) => "not supported by the authenticator"@,
                Error::Device(DeviceError::Other(_)) => "authenticator reported a failure"@,
                Error::InvalidArgument => "invalid argument"@,
                Error::IndexOutOfRange => "index out of range"@,
            }),
    {
        match *self {
            Error::Encoding => "string contains a NUL byte",
            Error::Device(DeviceError::WrongPin) => "wrong PIN",
            Error::Device(DeviceError::PinRequired) => "PIN required",
            Error::Device(DeviceError::PinBlocked) => "PIN blocked",
            Error::Device(DeviceError::Unsupported) => "not supported by the authenticator",
            Error::Device(DeviceError::Other(_)) => "authenticator reported a failure",
            Error::InvalidArgument => "invalid argument",
            Error::IndexOutOfRange => "index out of range",
        }
    }
}

/// A status is read as a wrong PIN exactly when it is `FIDO_ERR_PIN_INVALID`,
/// and as `Other` only when it is none of the statuses that have a kind of
/// their own, in which case `Other` carries that very status. So a rejected
/// PIN can never be taken for a failure of the transport, or the reverse.
pub proof fn lemma_wrong_pin_is_distinct(status: i32)
    ensures
        status_result(status) == Err::<(), Error>(Error::Device(DeviceError::WrongPin))
            <==> status == FIDO_ERR_PIN_INVALID,
        forall|code: i32|
            status_result(status) == Err::<(), Error>(Error::Device(DeviceError::Other(code)))
                <==> (code == status && status != FIDO_OK && status != FIDO_ERR_PIN_INVALID
                && status != FIDO_ERR_PIN_REQUIRED && status != FIDO_ERR_PIN_BLOCKED && status
                != FIDO_ERR_UNSUPPORTED_OPTION),
{
}

/// Two statuses are read alike only if they are the same status: every
/// status that an authenticator or the transport can report keeps a reading
/// of its own.
pub proof fn lemma_statuses_stay_distinct(a: i32, b: i32)
    ensures
        status_result(a) == status_result(b) <==> a == b,
{
}

/// An operation succeeds exactly when the authenticator reported `FIDO_OK`;
/// every other status ends it with a device error, never with another kind of
/// error and never with success.
pub proof fn lemma_failure_is_reported(status: i32)
    ensures
        status_result(status) is Ok <==> status == FIDO_OK,
        status != FIDO_OK ==> status_result(status) is Err && is_device_error(
            status_result(status)->Err_0,
        ),
{
}

} // verus!
