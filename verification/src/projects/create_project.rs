use vstd::prelude::*;
use crate::status::{ClientError, CREATED, passed_through, status_of};

verus! {

/// A project to create, by its name.
pub struct CreateProjectRequest {
    pub name: String,
}

/// The id of a created project.
pub struct CreateProjectResponse {
    pub id: String,
}

/// A project for the projects service to create: its name and its owner.
pub struct NewProject {
    pub name: String,
    pub user_id: String,
}

/// First step of the creation of a project by the user `user_id`: the project
/// is created with the requested name, for that user.
pub fn start(user_id: String, request: CreateProjectRequest) -> (call: NewProject)
    ensures
        call == (NewProject { name: request.name, user_id }),
{
    NewProject { name: request.name, user_id }
}

/// Answer to the creation of a project, once the projects service has answered
/// with the new project's id: "created" with that id, or the upstream status.
pub fn on_project_created(reply: Result<String, ClientError>) -> (r: Result<(u16, CreateProjectResponse), u16>)
    ensures
        r == match reply {
            Ok(id) => Ok((CREATED, CreateProjectResponse { id })),
            Err(e) => Err(passed_through(e)),
        },
{
    match reply {
        Ok(id) => Ok((CREATED, CreateProjectResponse { id })),
        Err(e) => Err(status_of(e)),
    }
}

} // verus!
