use vstd::prelude::*;
use crate::status::{ClientError, passed_through, status_of};
use crate::keyed::UserRecord;
use crate::users::{User, UserProject};
use crate::users::message_queue::UserViewed;

verus! {

/// The first calls of the profile of a user: fetch the user `user_id` and list
/// the projects of the user `projects_user_id`, then call `on_user_and_projects`.
pub struct FetchUserAndProjects {
    pub user_id: String,
    pub projects_user_id: String,
}

/// First step of the profile of the user `user_id`: the user and the user's
/// projects are both fetched by that id.
pub fn start(user_id: &String) -> (calls: FetchUserAndProjects)
    ensures
        calls.user_id == *user_id,
        calls.projects_user_id == *user_id,
{
    FetchUserAndProjects { user_id: user_id.clone(), projects_user_id: user_id.clone() }
}

/// Answer to the profile of the user `user_id`, once the user and the user's
/// projects have come back: a failure of either is answered with its upstream
/// status, the user's first; otherwise the profile, and the notice that the user
/// `user_id` was viewed, which is sent before the profile is answered.
pub fn on_user_and_projects(
    user_id: String,
    user: Result<UserRecord, ClientError>,
    projects: Result<Vec<UserProject>, ClientError>,
) -> (r: Result<(UserViewed, User), u16>)
    ensures
        r == match (user, projects) {
            (Err(e), _) => Err(passed_through(e)),
            (Ok(_), Err(e)) => Err(passed_through(e)),
            (Ok(u), Ok(p)) => Ok(
                (UserViewed { id: user_id }, User { id: u.id, username: u.username, projects: p }),
            ),
        },
{
    match (user, projects) {
        (Err(e), _) => Err(status_of(e)),
        (Ok(_), Err(e)) => Err(status_of(e)),
        (Ok(user), Ok(projects)) => Ok(
            (UserViewed { id: user_id }, User { id: user.id, username: user.username, projects }),
        ),
    }
}

} // verus!
