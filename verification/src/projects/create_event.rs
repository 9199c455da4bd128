use vstd::prelude::*;
use std::collections::HashMap;
use crate::status::{ClientError, NO_CONTENT, passed_through, status_of};
use crate::projects::{ProjectRecord, ownership, owned_project};

verus! {

/// A change to the files of a project.
pub enum EventRequest {
    AddFiles(AddFilesRequest),
    RemoveFiles(RemoveFilesRequest),
    RenameFiles(RenameFilesRequest),
}

/// Files to add, on top of the event `previous_event_id`.
pub struct AddFilesRequest {
    pub previous_event_id: String,
    pub files: Vec<AddFileRequest>,
}

/// A file to add: where, and which uploaded file.
pub struct AddFileRequest {
    pub path: String,
    pub file_id: String,
}

/// Paths to remove, on top of the event `previous_event_id`.
pub struct RemoveFilesRequest {
    pub previous_event_id: String,
    pub paths: Vec<String>,
}

/// Paths to rename, from key to value, on top of the event `previous_event_id`.
pub struct RenameFilesRequest {
    pub previous_event_id: String,
    pub paths: HashMap<String, String>,
}

/// What a change to a project's files does once the project has been fetched.
pub enum CreateEventNext {
    /// Record `request` on the project `project_id`, then call `on_event_created`.
    CreateEvent { project_id: String, request: EventRequest },
    /// Answer with this status.
    Fail(u16),
}

/// Step of a change to the files of the project `project_id`, asked for by the
/// user `user_id`, once the project has been fetched. The change is recorded only
/// where that user owns the project; otherwise the answer is "forbidden", or the
/// upstream status where the fetch failed.
pub fn on_project(
    user_id: &String,
    project_id: String,
    request: EventRequest,
    reply: Result<ProjectRecord, ClientError>,
) -> (next: CreateEventNext)
    ensures
        match ownership(user_id@, reply) {
            Ok(_) => next == (CreateEventNext::CreateEvent { project_id, request }),
            Err(code) => next == CreateEventNext::Fail(code),
        },
{
    match owned_project(user_id, reply) {
        Ok(_) => CreateEventNext::CreateEvent { project_id, request },
        Err(code) => CreateEventNext::Fail(code),
    }
}

/// Last step of a change to the files of a project: "no content" once the change
/// is recorded, the upstream status otherwise.
pub fn on_event_created(reply: Result<(), ClientError>) -> (r: Result<u16, u16>)
    ensures
        r == match reply {
            Ok(_) => Ok(NO_CONTENT),
            Err(e) => Err(passed_through(e)),
        },
{
    match reply {
        Ok(_) => Ok(NO_CONTENT),
        Err(e) => Err(status_of(e)),
    }
}

} // verus!
