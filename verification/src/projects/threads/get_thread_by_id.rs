use vstd::prelude::*;
use crate::status::{ClientError, NOT_FOUND, INTERNAL_SERVER_ERROR, not_found_passed_through, status_of_not_found};
use crate::keyed::{UserRecord, views, username_of, find_username};
use crate::projects::{CommentRecord, comment_author_ids, author_ids};

verus! {

/// A thread as the projects service describes it.
pub struct ThreadRecord {
    pub id: String,
    pub title: String,
    pub user_id: String,
    pub comments: Vec<CommentRecord>,
}

/// A thread with its comments.
pub struct Thread {
    pub id: String,
    pub title: String,
    pub owner: Option<ThreadOwner>,
    pub comments: Vec<Comment>,
}

/// The owner of a thread.
pub struct ThreadOwner {
    pub id: String,
    pub username: String,
}

/// A comment on a thread, with its author where the author is known.
pub struct Comment {
    pub content: String,
    pub owner: Option<CommentOwner>,
}

/// The author of a comment.
pub struct CommentOwner {
    pub id: String,
    pub username: String,
}

/// What a thread's page does once the thread has been fetched.
pub enum GetThreadNext {
    /// Fetch the owner `owner_id` and the authors `user_ids`, then call
    /// `on_users`.
    FetchUsers { thread: ThreadRecord, owner_id: String, user_ids: Vec<String> },
    /// Answer with this status.
    Fail(u16),
}

/// Step of a thread's page once the projects service has answered: the thread's
/// owner and the authors of its comments, each once, are fetched next; an upstream
/// "not found" is passed through and any other failure is a server error.
pub fn on_thread(reply: Result<ThreadRecord, ClientError>) -> (next: GetThreadNext)
    ensures
        match reply {
            Ok(t) => next matches GetThreadNext::FetchUsers { thread, owner_id, user_ids } && thread == t
                && owner_id == t.user_id
                && views(user_ids@) == comment_author_ids(t.comments@),
            Err(e) => next == GetThreadNext::Fail(not_found_passed_through(e)),
        },
{
    match reply {
        Ok(thread) => {
            let user_ids = author_ids(&thread.comments);
            let owner_id = thread.user_id.clone();
            GetThreadNext::FetchUsers { thread, owner_id, user_ids }
        },
        Err(e) => GetThreadNext::Fail(status_of_not_found(e)),
    }
}

/// A comment with its author, where `users` knows the author.
pub open spec fn shown_comment(c: CommentRecord, users: Seq<UserRecord>) -> Comment {
    Comment {
        content: c.content,
        owner: match username_of(users, c.user_id@) {
            Some(username) => Some(CommentOwner { id: c.user_id, username }),
            None => None,
        },
    }
}

/// The comments of a thread, in order, each with its author where `users` knows it.
pub open spec fn shown_comments(comments: Seq<CommentRecord>, users: Seq<UserRecord>) -> Seq<Comment> {
    comments.map_values(|c: CommentRecord| shown_comment(c, users))
}

/// The comments, in order, each with its author where `users` knows it.
pub fn show_comments(comments: &Vec<CommentRecord>, users: &Vec<UserRecord>) -> (r: Vec<Comment>)
    ensures
        r@ == shown_comments(comments@, users@),
{
    let mut out: Vec<Comment> = Vec::new();
    let mut i: usize = 0;
    while i < comments.len()
        invariant
            i <= comments.len(),
            out@ == shown_comments(comments@.take(i as int), users@),
        decreases comments.len() - i,
    {
        let c = &comments[i];
        let owner = match find_username(users, &c.user_id) {
            Some(username) => Some(CommentOwner { id: c.user_id.clone(), username }),
            None => None,
        };
        out.push(Comment { content: c.content.clone(), owner });
        assert(comments@.take(i + 1) =~= comments@.take(i as int).push(comments@[i as int]));
        assert(out@ =~= shown_comments(comments@.take(i + 1), users@));
        i = i + 1;
    }
    assert(comments@.take(i as int) =~= comments@);
    out
}

/// The owner of a thread as the users service answered for it: the user where it
/// was found, nobody where it is unknown ("not found"), and a failure otherwise.
pub open spec fn thread_owner(owner: Result<UserRecord, ClientError>) -> Result<Option<ThreadOwner>, u16> {
    match owner {
        Ok(user) => Ok(Some(ThreadOwner { id: user.id, username: user.username })),
        Err(ClientError::Status(code)) => if code == NOT_FOUND {
            Ok(None)
        } else {
            Err(INTERNAL_SERVER_ERROR)
        },
        Err(ClientError::Other) => Err(INTERNAL_SERVER_ERROR),
    }
}

/// A shown comment keeps its content, and shows as its author the user who
/// wrote it, under the name `users` gives that user, exactly where `users` gives
/// one.
pub proof fn lemma_shown_comment(c: CommentRecord, users: Seq<UserRecord>)
    ensures
        shown_comment(c, users).content == c.content,
        shown_comment(c, users).owner is None <==> username_of(users, c.user_id@) is None,
        shown_comment(c, users).owner matches Some(o) ==> o.id == c.user_id && username_of(users, c.user_id@)
            == Some(o.username),
{
}

/// The owner of a thread is the user the users service found for it; an owner it
/// does not know ("not found") leaves the thread without one; any other failure
/// is a server error.
pub proof fn lemma_thread_owner(owner: Result<UserRecord, ClientError>)
    ensures
        owner matches Ok(u) ==> thread_owner(owner) matches Ok(Some(o)) && o.id == u.id && o.username
            == u.username,
        owner == Err::<UserRecord, ClientError>(ClientError::Status(NOT_FOUND)) ==> thread_owner(owner)
            == Ok::<Option<ThreadOwner>, u16>(None),
        (owner matches Err(e) && e != ClientError::Status(NOT_FOUND)) ==> thread_owner(owner)
            == Err::<Option<ThreadOwner>, u16>(INTERNAL_SERVER_ERROR),
{
}

/// Last step of a thread's page, once the owner and the authors have come back:
/// the thread with its owner (none where the owner is unknown) and its comments,
/// in order, each with its author where the author was found. Any other failure
/// is a server error.
pub fn on_users(
    thread: ThreadRecord,
    owner: Result<UserRecord, ClientError>,
    users: Result<Vec<UserRecord>, ClientError>,
) -> (r: Result<Thread, u16>)
    ensures
        match (thread_owner(owner), users) {
            (Ok(o), Ok(u)) => r matches Ok(t) && {
                &&& t.id == thread.id
                &&& t.title == thread.title
                &&& t.owner == o
                &&& t.comments@ == shown_comments(thread.comments@, u@)
                &&& (owner matches Ok(user) ==> t.owner matches Some(w) && w.id == user.id && w.username
                    == user.username)
                &&& t.comments@.len() == thread.comments@.len()
                &&& forall|i: int| 0 <= i < thread.comments@.len() ==> {
                    &&& (#[trigger] t.comments@[i]).content == thread.comments@[i].content
                    &&& (t.comments@[i].owner matches Some(w) ==> w.id == thread.comments@[i].user_id
                        && username_of(u@, thread.comments@[i].user_id@) == Some(w.username))
                    &&& (t.comments@[i].owner is None <==> username_of(u@, thread.comments@[i].user_id@) is None)
                }
            },
            _ => r == Err::<Thread, u16>(INTERNAL_SERVER_ERROR),
        },
{
    let owner = match owner {
        Ok(user) => Some(ThreadOwner { id: user.id, username: user.username }),
        Err(ClientError::Status(code)) => {
            if code == NOT_FOUND {
                None
            } else {
                return Err(INTERNAL_SERVER_ERROR);
            }
        },
        Err(ClientError::Other) => {
            return Err(INTERNAL_SERVER_ERROR);
        },
    };
    match users {
        Ok(users) => {
            let comments = show_comments(&thread.comments, &users);
            proof {
                assert forall|i: int| 0 <= i < thread.comments@.len() implies {
                    &&& (#[trigger] comments@[i]).content == thread.comments@[i].content
                    &&& (comments@[i].owner matches Some(w) ==> w.id == thread.comments@[i].user_id
                        && username_of(users@, thread.comments@[i].user_id@) == Some(w.username))
                    &&& (comments@[i].owner is None <==> username_of(users@, thread.comments@[i].user_id@) is None)
                } by {
                    lemma_shown_comment(thread.comments@[i], users@);
                }
            }
            Ok(Thread { id: thread.id, title: thread.title, owner, comments })
        },
        Err(_) => Err(INTERNAL_SERVER_ERROR),
    }
}

} // verus!
