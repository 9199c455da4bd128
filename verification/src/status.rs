use vstd::prelude::*;

verus! {

pub const OK: u16 = 200;
pub const CREATED: u16 = 201;
pub const ACCEPTED: u16 = 202;
pub const NO_CONTENT: u16 = 204;
pub const FORBIDDEN: u16 = 403;
pub const NOT_FOUND: u16 = 404;
pub const INTERNAL_SERVER_ERROR: u16 = 500;

/// How a call to an upstream service failed.
#[derive(Clone, Copy, Debug, PartialEq, Eq, Structural)]
pub enum ClientError {
    /// The upstream service answered with this HTTP status code.
    Status(u16),
    /// Any other failure: the connection, the body, and the like.
    Other,
}

/// The upstream status passed through; any other failure is a server error.
pub open spec fn passed_through(err: ClientError) -> u16 {
    match err {
        ClientError::Status(code) => code,
        ClientError::Other => INTERNAL_SERVER_ERROR,
    }
}

/// Only an upstream "not found" is passed through; any other failure is a server error.
pub open spec fn not_found_passed_through(err: ClientError) -> u16 {
    match err {
        ClientError::Status(code) => if code == NOT_FOUND { NOT_FOUND } else { INTERNAL_SERVER_ERROR },
        ClientError::Other => INTERNAL_SERVER_ERROR,
    }
}

/// Only an upstream "not found" or "forbidden" is passed through; any other failure
/// is a server error.
pub open spec fn not_found_or_forbidden_passed_through(err: ClientError) -> u16 {
    match err {
        ClientError::Status(code) => if code == NOT_FOUND || code == FORBIDDEN {
            code
        } else {
            INTERNAL_SERVER_ERROR
        },
        ClientError::Other => INTERNAL_SERVER_ERROR,
    }
}

/// The status an endpoint answers when an upstream call failed, where the
/// endpoint passes every upstream status through.
pub fn status_of(err: ClientError) -> (code: u16)
    ensures
        code == passed_through(err),
{
    match err {
        ClientError::Status(code) => code,
        ClientError::Other => INTERNAL_SERVER_ERROR,
    }
}

/// The status an endpoint answers when an upstream call failed, where the
/// endpoint passes only "not found" through.
pub fn status_of_not_found(err: ClientError) -> (code: u16)
    ensures
        code == not_found_passed_through(err),
{
    match err {
        ClientError::Status(code) => if code == NOT_FOUND {
            NOT_FOUND
        } else {
            INTERNAL_SERVER_ERROR
        },
        ClientError::Other => INTERNAL_SERVER_ERROR,
    }
}

/// The status an endpoint answers when an upstream call failed, where the
/// endpoint passes only "not found" and "forbidden" through.
pub fn status_of_not_found_or_forbidden(err: ClientError) -> (code: u16)
    ensures
        code == not_found_or_forbidden_passed_through(err),
{
    match err {
        ClientError::Status(code) => if code == NOT_FOUND || code == FORBIDDEN {
            code
        } else {
            INTERNAL_SERVER_ERROR
        },
        ClientError::Other => INTERNAL_SERVER_ERROR,
    }
}

} // verus!
