//! Login credentials, as plain values.

use vstd::prelude::*;
use vstd::string::StrSliceExecFns;
use vstd::string::StringSliceAdditionalSpecFns;

verus! {

/// How the secret of a set of credentials is to be read.
#[derive(Clone, Copy, Debug, PartialEq, Eq, Structural)]
pub enum AuthKind {
    /// The secret is the account's password.
    UserPass,
    /// The secret is a reusable blob that an earlier login handed out.
    StoredSpotifyCredentials,
    /// As above, for an account that logs in through Facebook.
    StoredFacebookCredentials,
    /// The secret is an access token.
    SpotifyToken,
    /// The secret is a Facebook access token.
    FacebookToken,
}

/// One set of credentials: whom to log in, and with what.
#[derive(Clone, Debug, PartialEq, Eq)]
pub struct Credentials {
    pub username: String,
    pub auth_kind: AuthKind,
    pub auth_data: Vec<u8>,
}

/// What a set of credentials holds.
pub struct CredentialsView {
    pub username: Seq<char>,
    pub auth_kind: AuthKind,
    pub auth_data: Seq<u8>,
}

impl View for Credentials {
    type V = CredentialsView;

    open spec fn view(&self) -> CredentialsView {
        CredentialsView {
            username: self.username@,
            auth_kind: self.auth_kind,
            auth_data: self.auth_data@,
        }
    }
}

impl Credentials {
    /// Credentials that log `username` in with a password: the secret is the
    /// password's UTF-8 encoding.
    pub fn with_password(username: String, password: &str) -> (c: Credentials)
        ensures
            c.username == username,
            c.auth_kind == AuthKind::UserPass,
            c.auth_data@ == password.spec_bytes(),
    {
        Credentials { username, auth_kind: AuthKind::UserPass, auth_data: password.as_bytes_vec() }
    }
}

} // verus!
