use vstd::prelude::*;
use crate::status::{ClientError, passed_through, status_of};
use crate::keyed::UserRecord;
use crate::users::{User, UserProject};
use crate::users::message_queue::UserViewed;

verus! {

/// The first call of a profile looked up by name: find the user named `username`,
/// then call `on_user`.
pub struct FetchUserByName {
    pub username: String,
}

/// First step of the profile of the user named `username`: the user is looked up
/// by that name.
pub fn start(username: String) -> (call: FetchUserByName)
    ensures
        call.username == username,
{
    FetchUserByName { username }
}

/// What a profile looked up by name does once the user has been found.
pub enum GetUserByUsernameNext {
    /// List the projects of the user `user_id`, the id of `user`, then call
    /// `on_projects`.
    ListProjects { user: UserRecord, user_id: String },
    /// Answer with this status.
    Fail(u16),
}

/// Step of a profile looked up by name, once the users service has answered: the
/// projects of the user found are listed next; a failure is answered with its
/// upstream status.
pub fn on_user(reply: Result<UserRecord, ClientError>) -> (next: GetUserByUsernameNext)
    ensures
        next == match reply {
            Ok(user) => GetUserByUsernameNext::ListProjects { user, user_id: user.id },
            Err(e) => GetUserByUsernameNext::Fail(passed_through(e)),
        },
{
    match reply {
        Ok(user) => {
            let user_id = user.id.clone();
            GetUserByUsernameNext::ListProjects { user, user_id }
        },
        Err(e) => GetUserByUsernameNext::Fail(status_of(e)),
    }
}

/// Last step of a profile looked up by name, once the user's projects have come
/// back: the upstream status where that failed; otherwise the profile, and the
/// notice that the user was viewed, under the id found, which is sent before the
/// profile is answered.
pub fn on_projects(
    user: UserRecord,
    projects: Result<Vec<UserProject>, ClientError>,
) -> (r: Result<(UserViewed, User), u16>)
    ensures
        r == match projects {
            Ok(p) => Ok(
                (UserViewed { id: user.id }, User { id: user.id, username: user.username, projects: p }),
            ),
            Err(e) => Err(passed_through(e)),
        },
{
    match projects {
        Ok(projects) => {
            let viewed = UserViewed { id: user.id.clone() };
            Ok((viewed, User { id: user.id, username: user.username, projects }))
        },
        Err(e) => Err(status_of(e)),
    }
}

} // verus!
