use vstd::prelude::*;
use crate::status::{ClientError, CREATED, not_found_passed_through, status_of_not_found};

verus! {

/// A comment to post on a source request.
pub struct CreateCommentRequest {
    pub content: String,
}

/// The id of a posted comment.
pub struct CreateCommentResponse {
    pub id: String,
}

/// A comment for the projects service to post: by whom, and what.
pub struct NewComment {
    pub user_id: String,
    pub content: String,
}

/// First step of posting a comment by the user `user_id`: the requested content
/// is posted by that user.
pub fn start(user_id: String, request: CreateCommentRequest) -> (call: NewComment)
    ensures
        call == (NewComment { user_id, content: request.content }),
{
    NewComment { user_id, content: request.content }
}

/// Answer to posting a comment on a source request, once the projects service
/// has answered with its id: "created" with that id; an upstream "not found" is
/// passed through and any other failure is a server error.
pub fn on_comment_created(reply: Result<String, ClientError>) -> (r: Result<(u16, CreateCommentResponse), u16>)
    ensures
        r == match reply {
            Ok(id) => Ok((CREATED, CreateCommentResponse { id })),
            Err(e) => Err(not_found_passed_through(e)),
        },
{
    match reply {
        Ok(id) => Ok((CREATED, CreateCommentResponse { id })),
        Err(e) => Err(status_of_not_found(e)),
    }
}

} // verus!
