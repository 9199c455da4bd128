use vstd::prelude::*;
use crate::status::{ClientError, CREATED, passed_through, status_of};

verus! {

/// A thread to open: its title and its first comment.
pub struct CreateThreadRequest {
    pub title: String,
    pub comment: String,
}

/// The id of an opened thread.
pub struct CreateThreadResponse {
    pub id: String,
}

/// A thread for the projects service to create: in which project, its title, and
/// by whom.
pub struct NewThread {
    pub project_id: String,
    pub title: String,
    pub user_id: String,
}

/// What opening a thread keeps until the thread has been created: the project,
/// the user, and the first comment to post.
pub struct PendingComment {
    pub project_id: String,
    pub user_id: String,
    pub comment: String,
}

/// First step of opening a thread in the project `project_id` by the user
/// `user_id`: the thread is created there with the requested title, by that
/// user, and the requested comment is kept for it.
pub fn start(project_id: String, user_id: String, request: CreateThreadRequest) -> (r: (
    NewThread,
    PendingComment,
))
    ensures
        r.0 == (NewThread { project_id, title: request.title, user_id }),
        r.1 == (PendingComment { project_id, user_id, comment: request.comment }),
{
    let call = NewThread {
        project_id: project_id.clone(),
        title: request.title,
        user_id: user_id.clone(),
    };
    (call, PendingComment { project_id, user_id, comment: request.comment })
}

/// What opening a thread does once the thread has been created.
pub enum CreateThreadNext {
    /// Post `content` by `user_id` on the thread `thread_id` of the project
    /// `project_id`, then call `on_comment_created`.
    CreateComment { project_id: String, thread_id: String, content: String, user_id: String },
    /// Answer with this status.
    Fail(u16),
}

/// Step of opening a thread once the projects service has answered with the new
/// thread's id: the kept comment is posted on that thread, in the kept project,
/// by the kept user; a failure is answered with its upstream status.
pub fn on_thread_created(pending: PendingComment, reply: Result<String, ClientError>) -> (next: CreateThreadNext)
    ensures
        next == match reply {
            Ok(thread_id) => CreateThreadNext::CreateComment {
                project_id: pending.project_id,
                thread_id,
                content: pending.comment,
                user_id: pending.user_id,
            },
            Err(e) => CreateThreadNext::Fail(passed_through(e)),
        },
{
    match reply {
        Ok(thread_id) => CreateThreadNext::CreateComment {
            project_id: pending.project_id,
            thread_id,
            content: pending.comment,
            user_id: pending.user_id,
        },
        Err(e) => CreateThreadNext::Fail(status_of(e)),
    }
}

/// Last step of opening the thread `thread_id`: "created" with its id once the
/// first comment is posted, the upstream status otherwise.
pub fn on_comment_created(thread_id: String, reply: Result<(), ClientError>) -> (r: Result<
    (u16, CreateThreadResponse),
    u16,
>)
    ensures
        r == match reply {
            Ok(_) => Ok((CREATED, CreateThreadResponse { id: thread_id })),
            Err(e) => Err(passed_through(e)),
        },
{
    match reply {
        Ok(_) => Ok((CREATED, CreateThreadResponse { id: thread_id })),
        Err(e) => Err(status_of(e)),
    }
}

} // verus!
