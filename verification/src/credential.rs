//! Startup validation of the gateway credential.
//!
//! The credential arrives as the value of one environment variable, read
//! by the caller before any connection attempt. A missing or empty value
//! must stop startup at once: every connection attempt stands behind
//! this gate.

use vstd::prelude::*;

verus! {

/// Why startup must stop before any connection is attempted.
#[derive(Clone, Copy, Debug, PartialEq, Eq, Structural)]
pub enum CredentialError {
    /// The environment variable was not set at all.
    Missing,
    /// The environment variable was set, but to the empty string.
    Empty,
}

/// A credential is usable exactly when it was provided and is non-empty.
pub open spec fn credential_usable(token: Option<Seq<char>>) -> bool {
    token is Some && token.unwrap().len() > 0
}

/// Gate the credential read from the environment. Returns the token
/// unchanged when it is usable; otherwise says precisely why startup
/// must stop, before any network work is done.
pub fn check_credential(token: Option<String>) -> (r: Result<String, CredentialError>)
    ensures
        r is Ok <==> credential_usable(match token {
            Some(t) => Some(t@),
            None => None,
        }),
        match r {
            Ok(t) => token == Some(t) && t@.len() > 0,
            Err(CredentialError::Missing) => token is None,
            Err(CredentialError::Empty) => token is Some && token.unwrap()@.len() == 0,
        },
{
    match token {
        None => Err(CredentialError::Missing),
        Some(t) => {
            if t.as_str().is_empty() {
                Err(CredentialError::Empty)
            } else {
                Ok(t)
            }
        },
    }
}

} // verus!
