//! The credentials that a request is sent with.

use crate::errors::Error;
use vstd::prelude::*;

verus! {

/// How the client proves who it is: with a user name and password, or with
/// an access token that was obtained beforehand.
#[derive(Debug)]
pub enum Credentials {
    /// User name and password, for HTTP Basic authentication.
    Basic(String, String),
    /// An access token, sent as a bearer token. Obtaining it, and its scope,
    /// is the caller's business.
    OAuth(String),
}

impl Credentials {
    /// Credentials of a user name and a password. Never fails.
    pub fn new_basic(username: String, password: String) -> (made: Result<Credentials, Error>)
        ensures
            made == Ok::<Credentials, Error>(Credentials::Basic(username, password)),
    {
        Ok(Credentials::Basic(username, password))
    }

    /// Credentials of an access token. Never fails.
    pub fn new_oauth(access_token: String) -> (made: Result<Credentials, Error>)
        ensures
            made == Ok::<Credentials, Error>(Credentials::OAuth(access_token)),
    {
        Ok(Credentials::OAuth(access_token))
    }
}

impl Clone for Credentials {
    /// The same variant with the same texts.
    fn clone(&self) -> (copy: Credentials)
        ensures
            copy == *self,
    {
        match self {
            Credentials::Basic(username, password) => Credentials::Basic(
                username.clone(),
                password.clone(),
            ),
            Credentials::OAuth(access_token) => Credentials::OAuth(access_token.clone()),
        }
    }
}

} // verus!
