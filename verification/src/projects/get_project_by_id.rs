use vstd::prelude::*;
use crate::status::{ClientError, passed_through, status_of};
use crate::keyed::UserRecord;
use crate::projects::{Project, ProjectUser, ProjectRecord};
use crate::projects::message_queue::ProjectViewed;

verus! {

/// The first calls of the page of a project: fetch the project
/// `project_id` and the tags of the project `tags_project_id`, then call
/// `on_project_and_tags`.
pub struct FetchProjectAndTags {
    pub project_id: String,
    pub tags_project_id: String,
}

/// First step of the page of the project `project_id`: the project and its tags
/// are both fetched by that id.
pub fn start(project_id: &String) -> (calls: FetchProjectAndTags)
    ensures
        calls.project_id == *project_id,
        calls.tags_project_id == *project_id,
{
    FetchProjectAndTags { project_id: project_id.clone(), tags_project_id: project_id.clone() }
}

/// What a project's page does once the project and its tags have been fetched.
pub enum GetProjectNext {
    /// Fetch the user `owner_id`, the project's owner, then call `on_owner`.
    FetchOwner { project: ProjectRecord, tags: Vec<String>, owner_id: String },
    /// Answer with this status.
    Fail(u16),
}

/// Step of a project's page once the project and its tags have come back: a
/// failure of either is answered with its upstream status, the project's first;
/// otherwise the project's owner is fetched next.
pub fn on_project_and_tags(
    project: Result<ProjectRecord, ClientError>,
    tags: Result<Vec<String>, ClientError>,
) -> (next: GetProjectNext)
    ensures
        match (project, tags) {
            (Err(e), _) => next == GetProjectNext::Fail(passed_through(e)),
            (Ok(_), Err(e)) => next == GetProjectNext::Fail(passed_through(e)),
            (Ok(p), Ok(t)) => next == (GetProjectNext::FetchOwner { project: p, tags: t, owner_id: p.user_id }),
        },
{
    match (project, tags) {
        (Err(e), _) => GetProjectNext::Fail(status_of(e)),
        (Ok(_), Err(e)) => GetProjectNext::Fail(status_of(e)),
        (Ok(project), Ok(tags)) => {
            let owner_id = project.user_id.clone();
            GetProjectNext::FetchOwner { project, tags, owner_id }
        },
    }
}

/// The page of a project, from the project, its tags and its owner.
pub open spec fn project_page(project: ProjectRecord, tags: Vec<String>, owner: UserRecord) -> Project {
    Project {
        id: project.id,
        name: project.name,
        owner: ProjectUser { id: owner.id, username: owner.username },
        event_id: project.event_id,
        files: project.files,
        tags: tags,
    }
}

/// A project's page shows the project's own id, name, latest event, files and
/// the tags fetched for it, and as its owner the user that was fetched.
pub proof fn lemma_project_page(project: ProjectRecord, tags: Vec<String>, owner: UserRecord)
    ensures
        project_page(project, tags, owner).id == project.id,
        project_page(project, tags, owner).name == project.name,
        project_page(project, tags, owner).owner.id == owner.id,
        project_page(project, tags, owner).owner.username == owner.username,
        project_page(project, tags, owner).event_id == project.event_id,
        project_page(project, tags, owner).files == project.files,
        project_page(project, tags, owner).tags == tags,
{
}

/// Last step of the page of the project `project_id`, once its owner has come
/// back: the upstream status where that failed; otherwise the page, and the
/// notice that the project `project_id` was viewed, which is sent before the
/// page is answered.
pub fn on_owner(
    project_id: String,
    project: ProjectRecord,
    tags: Vec<String>,
    owner: Result<UserRecord, ClientError>,
) -> (r: Result<(ProjectViewed, Project), u16>)
    ensures
        r == match owner {
            Ok(user) => Ok((ProjectViewed { id: project_id }, project_page(project, tags, user))),
            Err(e) => Err(passed_through(e)),
        },
        owner matches Ok(user) ==> r matches Ok((viewed, page)) && {
            &&& viewed.id == project_id
            &&& page.id == project.id
            &&& page.name == project.name
            &&& page.owner.id == user.id
            &&& page.owner.username == user.username
            &&& page.event_id == project.event_id
            &&& page.files == project.files
            &&& page.tags == tags
        },
{
    match owner {
        Ok(user) => {
            let page = Project {
                id: project.id,
                name: project.name,
                owner: ProjectUser { id: user.id, username: user.username },
                event_id: project.event_id,
                files: project.files,
                tags,
            };
            Ok((ProjectViewed { id: project_id }, page))
        },
        Err(e) => Err(status_of(e)),
    }
}

} // verus!
