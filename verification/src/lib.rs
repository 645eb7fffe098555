//! Credential management for FIDO2 authenticators, free of I/O.
//!
//! The crate holds the rules of a credential-management session: how a PIN is
//! kept and scrubbed, how an authenticator's status becomes an error, how the
//! relying parties and resident credentials that an authenticator reported are
//! walked and indexed, and when an update may be sent at all. Talking to the
//! authenticator is left to the caller, who hands in what it answered.

pub mod credential;
pub mod encoding;
pub mod error;
pub mod pin;
pub mod relying_party;
pub mod resident_key;
pub mod sequence;
pub mod session;

pub use credential::{Credential, CredentialView};
pub use error::{check, DeviceError, Error};
pub use pin::PinHolder;
pub use relying_party::{CredManRP, IterRP, RelyingParty};
pub use resident_key::{CredManRK, IterRK};
pub use session::{CredentialManagement, RkUpdate};
