//! The credential-management session: one PIN, bound to one authenticator.
//!
//! The session never talks to the authenticator itself. For each operation
//! the caller makes the call, with the session's PIN, and hands the session
//! what the authenticator answered; an update is first asked of the session,
//! which refuses it before any call where the credential does not say what
//! to update.

use crate::credential::{bytes_of, text_of, text_of_str, Credential, CredentialView};
use crate::encoding::{can_encode, has_nul, is_encodable_if_any};
use crate::error::{check, device_error, status_result, DeviceError, Error, FIDO_OK};
use crate::pin::PinHolder;
use crate::relying_party::{CredManRP, RelyingParty};
use crate::resident_key::CredManRK;
use vstd::prelude::*;
use vstd::string::StringSliceAdditionalSpecFns;

verus! {

/// An update that may be sent to the authenticator: the credential to update
/// and the user it belongs to, with the user's name and display name as they
/// shall read afterwards. It carries nothing else of the credential, since
/// nothing else can be updated.
pub struct RkUpdate<'a> {
    /// The id of the credential to update.
    pub cred_id: &'a [u8],
    /// The id of the user that the credential belongs to.
    pub user_id: &'a [u8],
    /// The user's new name, if any.
    pub user_name: Option<&'a str>,
    /// The user's new display name, if any.
    pub display_name: Option<&'a str>,
}

impl<'a> RkUpdate<'a> {
    /// Whether the update says what `cred` says: the same two ids, the same
    /// name and the same display name.
    pub open spec fn is_from(&self, cred: &Credential) -> bool {
        &&& Some(self.cred_id@) == bytes_of(cred.id)
        &&& Some(self.user_id@) == bytes_of(cred.user_id)
        &&& text_of_str(self.user_name) == text_of(cred.user_name)
        &&& text_of_str(self.display_name) == text_of(cred.display_name)
    }

    /// Whether both names, where there are any, can be written as
    /// NUL-terminated strings.
    pub open spec fn is_encodable(&self) -> bool {
        is_encodable_if_any(text_of_str(self.user_name)) && is_encodable_if_any(
            text_of_str(self.display_name),
        )
    }

    /// Ends the update with the status that the authenticator answered it
    /// with: success for `FIDO_OK`, the device error of any other status.
    pub fn complete(self, status: i32) -> (r: Result<(), Error>)
        ensures
            r == status_result(status),
    {
        check(status)
    }
}

/// FIDO2 credential management.
pub struct CredentialManagement {
    pin: PinHolder,
    existing: usize,
    remaining: usize,
}

impl CredentialManagement {
    /// The bytes of the session's PIN, terminator included.
    pub closed spec fn pin_bytes(&self) -> Seq<u8> {
        self.pin@
    }

    /// The number of resident credentials that the authenticator reported.
    pub closed spec fn existing(&self) -> nat {
        self.existing as nat
    }

    /// The number of further resident credentials that the authenticator
    /// estimated it has room for.
    pub closed spec fn capacity_left(&self) -> nat {
        self.remaining as nat
    }

    /// The step before the authenticator is asked for its metadata. An
    /// authenticator without credential management is refused with
    /// `DeviceError::Unsupported`, and the PIN is then not even copied;
    /// otherwise a PIN that holds a NUL byte is refused with
    /// `Error::Encoding`; otherwise the PIN is returned ready for the call.
    pub fn begin(supported: bool, pin: &str) -> (r: Result<PinHolder, Error>)
        ensures
            match r {
                Ok(holder) => supported && !has_nul(pin.spec_bytes()) && holder@
                    == pin.spec_bytes().push(0u8),
                Err(e) => e == (if !supported {
                    Error::Device(DeviceError::Unsupported)
                } else {
                    Error::Encoding
                }) && (!supported || has_nul(pin.spec_bytes())),
            },
    {
        if !supported {
            return Err(Error::Device(DeviceError::Unsupported));
        }
        PinHolder::new(pin)
    }

    /// Opens the session from the authenticator's answer to the request for
    /// its metadata: the status, the number of resident credentials and the
    /// estimate of how many more it can take. Any status but `FIDO_OK` fails
    /// with its device error, and the PIN is scrubbed as it is dropped.
    pub fn open(pin: PinHolder, status: i32, existing: usize, remaining: usize) -> (r: Result<
        CredentialManagement,
        Error,
    >)
        ensures
            match r {
                Ok(session) => status == FIDO_OK && session.pin_bytes() == pin@
                    && session.existing() == existing && session.capacity_left() == remaining,
                Err(e) => status != FIDO_OK && e == Error::Device(device_error(status)),
            },
    {
        match check(status) {
            Ok(()) => Ok(CredentialManagement::new(pin, existing, remaining)),
            Err(e) => Err(e),
        }
    }

    /// Makes a session of a PIN and the metadata of an authenticator that has
    /// already accepted the PIN.
    pub fn new(pin: PinHolder, existing: usize, remaining: usize) -> (session: CredentialManagement)
        ensures
            session.pin_bytes() == pin@,
            session.existing() == existing,
            session.capacity_left() == remaining,
    {
        CredentialManagement { pin, existing, remaining }
    }

    /// The PIN of the session, to be handed to each call of the authenticator.
    pub fn pin(&self) -> (holder: &PinHolder)
        ensures
            holder@ == self.pin_bytes(),
    {
        &self.pin
    }

    /// Returns the number of resident credentials on the authenticator.
    pub fn count(&self) -> (n: usize)
        ensures
            n == self.existing(),
    {
        self.existing
    }

    /// Returns the estimated number of resident credentials that can be
    /// created on the authenticator.
    pub fn remaining(&self) -> (n: usize)
        ensures
            n == self.capacity_left(),
    {
        self.remaining
    }

    /// Get information about relying parties with resident credentials:
    /// makes the catalog from the authenticator's answer. With `FIDO_OK` the
    /// catalog holds `entries`, all of them and in their order; with any other
    /// status the query fails as a whole, whatever `entries` holds.
    pub fn get_rp(&self, status: i32, entries: Vec<RelyingParty>) -> (r: Result<CredManRP, Error>)
        ensures
            match r {
                Ok(catalog) => status == FIDO_OK && catalog@ == entries@,
                Err(e) => status != FIDO_OK && e == Error::Device(device_error(status)),
            },
    {
        match check(status) {
            Ok(()) => Ok(CredManRP::new(entries)),
            Err(e) => Err(e),
        }
    }

    /// Get resident credentials belonging to one relying party: makes the
    /// set from the authenticator's answer. With `FIDO_OK` the set holds
    /// `entries`, all of them and in their order; with any other status the
    /// query fails as a whole, whatever `entries` holds.
    pub fn get_rk(&self, status: i32, entries: Vec<CredentialView>) -> (r: Result<CredManRK, Error>)
        ensures
            match r {
                Ok(set) => status == FIDO_OK && set@ == entries@,
                Err(e) => status != FIDO_OK && e == Error::Device(device_error(status)),
            },
    {
        match check(status) {
            Ok(()) => Ok(CredManRK::new(entries)),
            Err(e) => Err(e),
        }
    }

    /// Ends the deletion of a resident credential with the authenticator's
    /// answer: the deletion succeeded exactly when the status is `FIDO_OK`,
    /// and any other status, such as that for an id which the authenticator
    /// does not hold, is a device error.
    pub fn delete_rk(&self, status: i32) -> (r: Result<(), Error>)
        ensures
            r == status_result(status),
            status != FIDO_OK ==> r == Err::<(), Error>(Error::Device(device_error(status))),
    {
        check(status)
    }

    /// Prepares the update of a resident credential from `cred`.
    ///
    /// The credential id and user id attributes of `cred` must be set: where
    /// one is missing the answer is `Error::InvalidArgument`. Where both are
    /// set and a name holds a NUL byte, the answer is `Error::Encoding`. In
    /// both cases there is nothing to send. Only a credential's user
    /// attributes (name, display name) may be updated, so the update carries
    /// these and the two ids.
    pub fn set_rk<'a>(&self, cred: &'a Credential) -> (r: Result<RkUpdate<'a>, Error>)
        ensures
            match r {
                Ok(update) => cred.is_addressed() && cred.has_encodable_names() && update.is_from(
                    cred,
                ) && update.is_encodable(),
                Err(e) => e == (if !cred.is_addressed() {
                    Error::InvalidArgument
                } else {
                    Error::Encoding
                }) && !(cred.is_addressed() && cred.has_encodable_names()),
            },
    {
        match (&cred.id, &cred.user_id) {
            (Some(id), Some(user_id)) => {
                let user_name = match &cred.user_name {
                    Some(name) => Some(name.as_str()),
                    None => None,
                };
                let display_name = match &cred.display_name {
                    Some(name) => Some(name.as_str()),
                    None => None,
                };
                if !encodable_if_any(user_name) || !encodable_if_any(display_name) {
                    return Err(Error::Encoding);
                }
                Ok(
                    RkUpdate {
                        cred_id: id.as_slice(),
                        user_id: user_id.as_slice(),
                        user_name,
                        display_name,
                    },
                )
            },
            _ => Err(Error::InvalidArgument),
        }
    }
}

/// Tells whether `text` is absent or can be written as a NUL-terminated string.
fn encodable_if_any(text: Option<&str>) -> (ok: bool)
    ensures
        ok == is_encodable_if_any(text_of_str(text)),
{
    match text {
        Some(text) => can_encode(text),
        None => true,
    }
}

} // verus!
