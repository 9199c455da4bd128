use vstd::prelude::*;
use crate::status::{ClientError, CREATED, not_found_passed_through, status_of_not_found};

verus! {

/// A source request to open on a project.
pub struct CreateSourceRequestRequest {
    pub title: String,
    pub description: String,
    pub files: Vec<FileMap>,
}

/// A file that a source request proposes: where, and which uploaded file.
pub struct FileMap {
    pub path: String,
    pub file_id: String,
}

/// The id of an opened source request.
pub struct CreateSourceRequestResponse {
    pub id: String,
}

/// A source request for the projects service to open: by whom, its title and
/// description, and the files it proposes.
pub struct NewSourceRequest {
    pub user_id: String,
    pub title: String,
    pub description: String,
    pub files: Vec<FileMap>,
}

/// First step of opening a source request by the user `user_id`: it is opened
/// by that user with the requested title, description and files, in order.
pub fn start(user_id: String, request: CreateSourceRequestRequest) -> (call: NewSourceRequest)
    ensures
        call == (NewSourceRequest {
            user_id,
            title: request.title,
            description: request.description,
            files: request.files,
        }),
{
    NewSourceRequest {
        user_id,
        title: request.title,
        description: request.description,
        files: request.files,
    }
}

/// Answer to opening a source request, once the projects service has answered
/// with its id: "created" with that id; an upstream "not found" is passed through
/// and any other failure is a server error.
pub fn on_source_request_created(reply: Result<String, ClientError>) -> (r: Result<
    (u16, CreateSourceRequestResponse),
    u16,
>)
    ensures
        r == match reply {
            Ok(id) => Ok((CREATED, CreateSourceRequestResponse { id })),
            Err(e) => Err(not_found_passed_through(e)),
        },
{
    match reply {
        Ok(id) => Ok((CREATED, CreateSourceRequestResponse { id })),
        Err(e) => Err(status_of_not_found(e)),
    }
}

} // verus!
