use vstd::prelude::*;
use crate::status::{ClientError, passed_through, status_of};
use crate::auth::Credentials;

verus! {

/// Credentials to log in with.
pub struct LoginRequest {
    pub username: String,
    pub password: String,
}

/// The session token of a logged-in user.
pub struct LoginResponse {
    pub token: String,
}

/// First step of a login: the auth service is handed the credentials of the
/// request, unchanged.
pub fn start(request: LoginRequest) -> (call: Credentials)
    ensures
        call == (Credentials { username: request.username, password: request.password }),
{
    Credentials { username: request.username, password: request.password }
}

/// Answer to a login, once the auth service has answered with a token: the token,
/// or the upstream status.
pub fn on_login(reply: Result<String, ClientError>) -> (r: Result<LoginResponse, u16>)
    ensures
        r == match reply {
            Ok(token) => Ok(LoginResponse { token }),
            Err(e) => Err(passed_through(e)),
        },
{
    match reply {
        Ok(token) => Ok(LoginResponse { token }),
        Err(e) => Err(status_of(e)),
    }
}

} // verus!
