use vstd::prelude::*;
use std::collections::{HashMap, HashSet};
use crate::status::{ClientError, INTERNAL_SERVER_ERROR, not_found_passed_through, status_of_not_found};
use crate::keyed::{UserRecord, views, username_of, find_username};
use crate::projects::{ProjectRecord, CommentRecord, comment_author_ids, author_ids};

verus! {

/// A source request with its project, its comments and the changes it proposes.
pub struct SourceRequestWrapper {
    pub source_request: SourceRequest,
    pub project: Project,
    pub comments: Vec<Comment>,
    pub diff: HashMap<String, DiffItem>,
}

/// A source request, by its state.
pub enum SourceRequest {
    New(New),
    Approved(Approved),
    Completed(Completed),
}

/// A file that a source request proposes: where, and which uploaded file.
pub struct FileMap {
    pub path: String,
    pub file_id: String,
}

/// A source request not yet approved.
pub struct New {
    pub project_id: String,
    pub user_id: String,
    pub title: String,
    pub description: String,
    pub files: Vec<FileMap>,
}

/// An approved source request, with who approved it.
pub struct Approved {
    pub project_id: String,
    pub user_id: String,
    pub title: String,
    pub description: String,
    pub approvers: HashSet<String>,
    pub files: Vec<FileMap>,
}

/// A completed source request, with who approved it.
pub struct Completed {
    pub project_id: String,
    pub user_id: String,
    pub title: String,
    pub description: String,
    pub approvers: HashSet<String>,
    pub files: Vec<FileMap>,
}

/// The project of a source request: its id and its owner's id.
pub struct Project {
    pub id: String,
    pub owner: String,
}

/// A comment on a source request, with its author where the author is known.
pub struct Comment {
    pub owner: Option<CommentOwner>,
    pub content: String,
}

/// The author of a comment.
pub struct CommentOwner {
    pub id: String,
    pub username: String,
}

/// A change that a source request proposes to a file: from what, to what.
#[derive(PartialEq)]
pub struct DiffItem {
    pub from: String,
    pub to: String,
}

/// What a source request's page does once the source request has been fetched.
pub enum GetSourceRequestNext {
    /// Fetch its comments, its changes and its project, then call `on_details`.
    FetchDetails { source_request: SourceRequest },
    /// Answer with this status.
    Fail(u16),
}

/// Step of a source request's page once the projects service has answered: its
/// comments, changes and project are fetched next; an upstream "not found" is
/// passed through and any other failure is a server error.
pub fn on_source_request(reply: Result<SourceRequest, ClientError>) -> (next: GetSourceRequestNext)
    ensures
        next == match reply {
            Ok(s) => GetSourceRequestNext::FetchDetails { source_request: s },
            Err(e) => GetSourceRequestNext::Fail(not_found_passed_through(e)),
        },
{
    match reply {
        Ok(source_request) => GetSourceRequestNext::FetchDetails { source_request },
        Err(e) => GetSourceRequestNext::Fail(status_of_not_found(e)),
    }
}

/// A source request with what was fetched about it, kept while the authors of
/// its comments are looked up.
pub struct SourceRequestDetails {
    pub source_request: SourceRequest,
    pub project: Project,
    pub comments: Vec<CommentRecord>,
    pub diff: HashMap<String, DiffItem>,
}

/// What a source request's page does once its details have been fetched.
pub enum SourceRequestDetailsNext {
    /// Look up the users `user_ids`, then call `on_users`.
    MapUsers { details: SourceRequestDetails, user_ids: Vec<String> },
    /// Answer with this status.
    Fail(u16),
}

/// Step of a source request's page once its comments, changes and project have
/// come back: any failure is a server error; otherwise the authors of the
/// comments, each once, are looked up next.
pub fn on_details(
    source_request: SourceRequest,
    comments: Result<Vec<CommentRecord>, ClientError>,
    diff: Result<HashMap<String, DiffItem>, ClientError>,
    project: Result<ProjectRecord, ClientError>,
) -> (next: SourceRequestDetailsNext)
    ensures
        match (comments, diff, project) {
            (Ok(c), Ok(d), Ok(p)) => next matches SourceRequestDetailsNext::MapUsers { details, user_ids } && {
                &&& details.source_request == source_request
                &&& details.project == (Project { id: p.id, owner: p.user_id })
                &&& details.comments == c
                &&& details.diff == d
                &&& views(user_ids@) == comment_author_ids(c@)
            },
            _ => next == SourceRequestDetailsNext::Fail(INTERNAL_SERVER_ERROR),
        },
{
    match (comments, diff, project) {
        (Ok(comments), Ok(diff), Ok(project)) => {
            let user_ids = author_ids(&comments);
            let details = SourceRequestDetails {
                source_request,
                project: Project { id: project.id, owner: project.user_id },
                comments,
                diff,
            };
            SourceRequestDetailsNext::MapUsers { details, user_ids }
        },
        _ => SourceRequestDetailsNext::Fail(INTERNAL_SERVER_ERROR),
    }
}

/// A comment with its author, where `users` knows the author.
pub open spec fn shown_comment(c: CommentRecord, users: Seq<UserRecord>) -> Comment {
    Comment {
        owner: match username_of(users, c.user_id@) {
            Some(username) => Some(CommentOwner { id: c.user_id, username }),
            None => None,
        },
        content: c.content,
    }
}

/// The comments of a source request, in order, each with its author where
/// `users` knows it.
pub open spec fn shown_comments(comments: Seq<CommentRecord>, users: Seq<UserRecord>) -> Seq<Comment> {
    comments.map_values(|c: CommentRecord| shown_comment(c, users))
}

/// A shown comment keeps its content, and shows as its author the user who
/// wrote it, under the name `users` gives that user, exactly where `users` gives
/// one.
pub proof fn lemma_shown_comment(c: CommentRecord, users: Seq<UserRecord>)
    ensures
        shown_comment(c, users).content == c.content,
        shown_comment(c, users).owner is None <==> username_of(users, c.user_id@) is None,
        shown_comment(c, users).owner matches Some(o) ==> o.id == c.user_id && username_of(users, c.user_id@)
            == Some(o.username),
{
}

fn show_comments(comments: &Vec<CommentRecord>, users: &Vec<UserRecord>) -> (r: Vec<Comment>)
    ensures
        r@ == shown_comments(comments@, users@),
{
    let mut out: Vec<Comment> = Vec::new();
    let mut i: usize = 0;
    while i < comments.len()
        invariant
            i <= comments.len(),
            out@ == shown_comments(comments@.take(i as int), users@),
        decreases comments.len() - i,
    {
        let c = &comments[i];
        let owner = match find_username(users, &c.user_id) {
            Some(username) => Some(CommentOwner { id: c.user_id.clone(), username }),
            None => None,
        };
        out.push(Comment { owner, content: c.content.clone() });
        assert(comments@.take(i + 1) =~= comments@.take(i as int).push(comments@[i as int]));
        assert(out@ =~= shown_comments(comments@.take(i + 1), users@));
        i = i + 1;
    }
    assert(comments@.take(i as int) =~= comments@);
    out
}

/// Last step of a source request's page, once the authors have been looked up: a
/// failure is a server error; otherwise the source request with its project, its
/// changes, and its comments in order, each with its author where the author was
/// found.
pub fn on_users(details: SourceRequestDetails, users: Result<Vec<UserRecord>, ClientError>) -> (r: Result<
    SourceRequestWrapper,
    u16,
>)
    ensures
        match users {
            Ok(u) => r matches Ok(w) && {
                &&& w.source_request == details.source_request
                &&& w.project == details.project
                &&& w.diff == details.diff
                &&& w.comments@ == shown_comments(details.comments@, u@)
                &&& w.comments@.len() == details.comments@.len()
                &&& forall|i: int| 0 <= i < details.comments@.len() ==> {
                    &&& (#[trigger] w.comments@[i]).content == details.comments@[i].content
                    &&& (w.comments@[i].owner matches Some(o) ==> o.id == details.comments@[i].user_id
                        && username_of(u@, details.comments@[i].user_id@) == Some(o.username))
                    &&& (w.comments@[i].owner is None <==> username_of(u@, details.comments@[i].user_id@) is None)
                }
            },
            Err(_) => r == Err::<SourceRequestWrapper, u16>(INTERNAL_SERVER_ERROR),
        },
{
    match users {
        Ok(users) => {
            let comments = show_comments(&details.comments, &users);
            proof {
                assert forall|i: int| 0 <= i < details.comments@.len() implies {
                    &&& (#[trigger] comments@[i]).content == details.comments@[i].content
                    &&& (comments@[i].owner matches Some(o) ==> o.id == details.comments@[i].user_id
                        && username_of(users@, details.comments@[i].user_id@) == Some(o.username))
                    &&& (comments@[i].owner is None <==> username_of(users@, details.comments@[i].user_id@) is None)
                } by {
                    lemma_shown_comment(details.comments@[i], users@);
                }
            }
            Ok(SourceRequestWrapper {
                source_request: details.source_request,
                project: details.project,
                comments,
                diff: details.diff,
            })
        },
        Err(_) => Err(INTERNAL_SERVER_ERROR),
    }
}

} // verus!
