use vstd::prelude::*;
use crate::status::{ClientError, ACCEPTED, passed_through, status_of};
use crate::projects::{ProjectRecord, ownership, owned_project};

verus! {

/// A tag to put on a project.
pub struct CreateTagRequest {
    pub tag: String,
}

/// What tagging a project does once the project has been fetched.
pub enum CreateTagNext {
    /// Put `tag` on the project `project_id`, then call `on_tag_created`.
    CreateTag { project_id: String, tag: String },
    /// Answer with this status.
    Fail(u16),
}

/// Step of tagging a project, asked for by the user `user_id`, once the project
/// has been fetched. The tag is put on the project only where that user owns it;
/// otherwise the answer is "forbidden", or the upstream status where the fetch
/// failed.
pub fn on_project(
    user_id: &String,
    request: CreateTagRequest,
    reply: Result<ProjectRecord, ClientError>,
) -> (next: CreateTagNext)
    ensures
        match ownership(user_id@, reply) {
            Ok(p) => next == (CreateTagNext::CreateTag { project_id: p.id, tag: request.tag }),
            Err(code) => next == CreateTagNext::Fail(code),
        },
{
    match owned_project(user_id, reply) {
        Ok(project) => CreateTagNext::CreateTag { project_id: project.id, tag: request.tag },
        Err(code) => CreateTagNext::Fail(code),
    }
}

/// Last step of tagging a project: "accepted" once the tag is on, the upstream
/// status otherwise.
pub fn on_tag_created(reply: Result<(), ClientError>) -> (r: Result<u16, u16>)
    ensures
        r == match reply {
            Ok(_) => Ok(ACCEPTED),
            Err(e) => Err(passed_through(e)),
        },
{
    match reply {
        Ok(_) => Ok(ACCEPTED),
        Err(e) => Err(status_of(e)),
    }
}

} // verus!
