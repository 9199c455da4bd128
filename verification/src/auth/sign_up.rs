use vstd::prelude::*;
use crate::status::{ClientError, passed_through, status_of};
use crate::auth::Credentials;

verus! {

/// Credentials to create an account with.
pub struct SignUpRequest {
    pub username: String,
    pub password: String,
}

/// The session token of the new user.
pub struct SignUpResponse {
    pub token: String,
}

/// First step of account creation: the auth service is asked for an account
/// with the credentials of the request, unchanged.
pub fn start(request: SignUpRequest) -> (call: Credentials)
    ensures
        call == (Credentials { username: request.username, password: request.password }),
{
    Credentials { username: request.username, password: request.password }
}

/// What account creation does once the account has been created.
pub enum SignUpNext {
    /// Ask for a session token of the user `user_id`, then call `on_token`.
    CreateToken { user_id: String },
    /// Answer with this status.
    Fail(u16),
}

/// Step of account creation once the auth service has answered with the new
/// user's id: a token is asked for that very user; a failure is answered with its
/// upstream status.
pub fn on_signed_up(reply: Result<String, ClientError>) -> (next: SignUpNext)
    ensures
        next == match reply {
            Ok(user_id) => SignUpNext::CreateToken { user_id },
            Err(e) => SignUpNext::Fail(passed_through(e)),
        },
{
    match reply {
        Ok(user_id) => SignUpNext::CreateToken { user_id },
        Err(e) => SignUpNext::Fail(status_of(e)),
    }
}

/// Last step of account creation: the token, or the upstream status.
pub fn on_token(reply: Result<String, ClientError>) -> (r: Result<SignUpResponse, u16>)
    ensures
        r == match reply {
            Ok(token) => Ok(SignUpResponse { token }),
            Err(e) => Err(passed_through(e)),
        },
{
    match reply {
        Ok(token) => Ok(SignUpResponse { token }),
        Err(e) => Err(status_of(e)),
    }
}

} // verus!
