use vstd::prelude::*;
use crate::status::{ClientError, ACCEPTED, passed_through, status_of};
use crate::projects::{ProjectRecord, ownership, owned_project};

verus! {

/// What removing a tag from a project does once the project has been fetched.
pub enum DeleteTagNext {
    /// Remove `tag` from the project `project_id`, then call `on_tag_deleted`.
    DeleteTag { project_id: String, tag: String },
    /// Answer with this status.
    Fail(u16),
}

/// Step of removing `tag` from a project, asked for by the user `user_id`, once
/// the project has been fetched. The tag is removed only where that user owns the
/// project; otherwise the answer is "forbidden", or the upstream status where the
/// fetch failed.
pub fn on_project(
    user_id: &String,
    tag: String,
    reply: Result<ProjectRecord, ClientError>,
) -> (next: DeleteTagNext)
    ensures
        match ownership(user_id@, reply) {
            Ok(p) => next == (DeleteTagNext::DeleteTag { project_id: p.id, tag }),
            Err(code) => next == DeleteTagNext::Fail(code),
        },
{
    match owned_project(user_id, reply) {
        Ok(project) => DeleteTagNext::DeleteTag { project_id: project.id, tag },
        Err(code) => DeleteTagNext::Fail(code),
    }
}

/// Last step of removing a tag: "accepted" once it is gone, the upstream status
/// otherwise.
pub fn on_tag_deleted(reply: Result<(), ClientError>) -> (r: Result<u16, u16>)
    ensures
        r == match reply {
            Ok(_) => Ok(ACCEPTED),
            Err(e) => Err(passed_through(e)),
        },
{
    match reply {
        Ok(_) => Ok(ACCEPTED),
        Err(e) => Err(status_of(e)),
    }
}

} // verus!
