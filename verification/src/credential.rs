//! Credentials: the record that an update is made from, and the read-only
//! record of a resident credential as an authenticator listed it.

use crate::encoding::is_encodable_if_any;
use vstd::prelude::*;

verus! {

/// The text of an optional string: nothing where the string is absent, which
/// is not the same as an empty string.
pub open spec fn text_of(s: Option<String>) -> Option<Seq<char>> {
    match s {
        Some(s) => Some(s@),
        None => None,
    }
}

/// The text of an optional borrowed string.
pub open spec fn text_of_str(s: Option<&str>) -> Option<Seq<char>> {
    match s {
        Some(s) => Some(s@),
        None => None,
    }
}

/// The bytes of an optional byte string.
pub open spec fn bytes_of(b: Option<Vec<u8>>) -> Option<Seq<u8>> {
    match b {
        Some(b) => Some(b@),
        None => None,
    }
}

/// A credential as a caller fills it in, to have a resident credential on an
/// authenticator updated from it. Every field may be left unset.
#[derive(Debug, Clone, PartialEq, Eq)]
pub struct Credential {
    /// The credential id.
    pub id: Option<Vec<u8>>,
    /// The id of the user that the credential belongs to.
    pub user_id: Option<Vec<u8>>,
    /// The user's name.
    pub user_name: Option<String>,
    /// The user's display name.
    pub display_name: Option<String>,
}

impl Credential {
    /// A credential with no field set.
    pub fn new() -> (cred: Credential)
        ensures
            cred.id is None,
            cred.user_id is None,
            cred.user_name is None,
            cred.display_name is None,
    {
        Credential { id: None, user_id: None, user_name: None, display_name: None }
    }

    /// Whether the credential names what an update needs: a credential id and
    /// a user id.
    pub open spec fn is_addressed(&self) -> bool {
        self.id is Some && self.user_id is Some
    }

    /// Whether the user's name and display name, where they are set, can be
    /// written as NUL-terminated strings.
    pub open spec fn has_encodable_names(&self) -> bool {
        is_encodable_if_any(text_of(self.user_name)) && is_encodable_if_any(
            text_of(self.display_name),
        )
    }
}

/// What a resident credential is: the values that an authenticator lists of it.
pub struct CredentialData {
    pub id: Seq<u8>,
    pub user_id: Seq<u8>,
    pub user_name: Option<Seq<char>>,
    pub display_name: Option<Seq<char>>,
    pub public_key: Seq<u8>,
    pub sign_count: u32,
}

/// One resident credential as an authenticator listed it. It can be read and
/// not changed.
#[derive(Debug, Clone, PartialEq, Eq)]
pub struct CredentialView {
    id: Vec<u8>,
    user_id: Vec<u8>,
    user_name: Option<String>,
    display_name: Option<String>,
    public_key: Vec<u8>,
    sign_count: u32,
}

impl CredentialView {
    /// The values of the credential.
    pub closed spec fn view(&self) -> CredentialData {
        CredentialData {
            id: self.id@,
            user_id: self.user_id@,
            user_name: text_of(self.user_name),
            display_name: text_of(self.display_name),
            public_key: self.public_key@,
            sign_count: self.sign_count,
        }
    }

    /// Makes the record of a credential from the values listed of it.
    pub fn new(
        id: Vec<u8>,
        user_id: Vec<u8>,
        user_name: Option<String>,
        display_name: Option<String>,
        public_key: Vec<u8>,
        sign_count: u32,
    ) -> (cred: CredentialView)
        ensures
            cred@ == (CredentialData {
                id: id@,
                user_id: user_id@,
                user_name: text_of(user_name),
                display_name: text_of(display_name),
                public_key: public_key@,
                sign_count,
            }),
    {
        CredentialView { id, user_id, user_name, display_name, public_key, sign_count }
    }

    /// Returns the credential id.
    pub fn id(&self) -> (r: &[u8])
        ensures
            r@ == self@.id,
    {
        self.id.as_slice()
    }

    /// Returns the id of the user.
    pub fn user_id(&self) -> (r: &[u8])
        ensures
            r@ == self@.user_id,
    {
        self.user_id.as_slice()
    }

    /// Returns the user's name, where the authenticator recorded one.
    pub fn user_name(&self) -> (r: Option<&str>)
        ensures
            text_of_str(r) == self@.user_name,
    {
        match &self.user_name {
            Some(name) => Some(name.as_str()),
            None => None,
        }
    }

    /// Returns the user's display name, where the authenticator recorded one.
    pub fn display_name(&self) -> (r: Option<&str>)
        ensures
            text_of_str(r) == self@.display_name,
    {
        match &self.display_name {
            Some(name) => Some(name.as_str()),
            None => None,
        }
    }

    /// Returns the public key of the credential, as the authenticator encoded it.
    pub fn public_key(&self) -> (r: &[u8])
        ensures
            r@ == self@.public_key,
    {
        self.public_key.as_slice()
    }

    /// Returns the signature counter of the credential.
    pub fn sign_count(&self) -> (r: u32)
        ensures
            r == self@.sign_count,
    {
        self.sign_count
    }
}

} // verus!
