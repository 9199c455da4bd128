use vstd::prelude::*;
use crate::keyed::{views, distinct, distinct_ids};
use crate::status::{ClientError, FORBIDDEN, passed_through, status_of};
use crate::routes::{Router, Method, Endpoint, RouteView, route, can_add, table_view, lemma_can_add_split};
use tags::{ProjectTagsRouter, project_tags_routes};
use threads::{ProjectThreadsRouter, project_threads_routes};
use source_requests::{ProjectSourceRequestsRouter, project_source_requests_routes};

pub mod message_queue;
pub mod get_project_by_id;
pub mod create_project;
pub mod create_event;
pub mod tags;
pub mod threads;
pub mod source_requests;

verus! {

/// A project, as its page shows it.
pub struct Project {
    pub id: String,
    pub name: String,
    pub owner: ProjectUser,
    pub event_id: String,
    pub files: Vec<ProjectFile>,
    pub tags: Vec<String>,
}

/// The owner of a project.
pub struct ProjectUser {
    pub id: String,
    pub username: String,
}

/// A file of a project.
pub struct ProjectFile {
    pub id: String,
    pub name: String,
}

/// A project as the projects service describes it.
pub struct ProjectRecord {
    pub id: String,
    pub name: String,
    pub user_id: String,
    pub event_id: String,
    pub files: Vec<ProjectFile>,
}

/// A comment as the projects service describes it: who wrote it, and what.
pub struct CommentRecord {
    pub user_id: String,
    pub content: String,
}

/// The ids of the authors of `comments`, each once, in the order of first comment.
pub open spec fn comment_author_ids(comments: Seq<CommentRecord>) -> Seq<Seq<char>> {
    distinct(comments.map_values(|c: CommentRecord| c.user_id@))
}

/// The ids of the authors of `comments`, each once, in the order of first comment.
pub fn author_ids(comments: &Vec<CommentRecord>) -> (ids: Vec<String>)
    ensures
        views(ids@) == comment_author_ids(comments@),
{
    let mut all: Vec<String> = Vec::new();
    let mut i: usize = 0;
    while i < comments.len()
        invariant
            i <= comments.len(),
            views(all@) == comments@.take(i as int).map_values(|c: CommentRecord| c.user_id@),
        decreases comments.len() - i,
    {
        let ghost before = all@;
        let id = comments[i].user_id.clone();
        all.push(id);
        assert(views(all@) =~= views(before).push(id@));
        assert(comments@.take(i + 1) =~= comments@.take(i as int).push(comments@[i as int]));
        i = i + 1;
    }
    assert(comments@.take(i as int) =~= comments@);
    distinct_ids(&all)
}

/// What answers a change to a project that the user `user_id` asked for, once the
/// project has been fetched: the project where the user owns it, "forbidden" where
/// someone else owns it, and the upstream status where the fetch failed.
pub open spec fn ownership(user_id: Seq<char>, reply: Result<ProjectRecord, ClientError>) -> Result<ProjectRecord, u16> {
    match reply {
        Ok(project) => if project.user_id@ == user_id {
            Ok(project)
        } else {
            Err(FORBIDDEN)
        },
        Err(e) => Err(passed_through(e)),
    }
}

/// Checks that the user `user_id` owns the project that the projects service
/// answered with.
pub fn owned_project(user_id: &String, reply: Result<ProjectRecord, ClientError>) -> (r: Result<ProjectRecord, u16>)
    ensures
        r == ownership(user_id@, reply),
{
    match reply {
        Ok(project) => if project.user_id == *user_id {
            Ok(project)
        } else {
            Err(FORBIDDEN)
        },
        Err(e) => Err(status_of(e)),
    }
}

/// The routes of projects themselves.
pub open spec fn project_routes() -> Seq<RouteView> {
    seq![
        route(Method::Post, "/projects", Endpoint::CreateProject),
        route(Method::Get, "/projects/:project_id", Endpoint::GetProjectById),
        route(Method::Put, "/projects/:project_id", Endpoint::CreateEvent),
    ]
}

/// The routes of projects, with those of their tags, threads and source requests.
pub open spec fn projects_routes() -> Seq<RouteView> {
    project_routes() + project_tags_routes() + project_threads_routes()
        + project_source_requests_routes()
}

pub trait ProjectsRouter: Sized {
    /// The table can take the routes of projects.
    spec fn accepts_projects_routes(&self) -> bool;

    fn register_projects_routes(self) -> Self
        requires
            self.accepts_projects_routes(),
    ;
}

impl ProjectsRouter for Router {
    open spec fn accepts_projects_routes(&self) -> bool {
        can_add(self@, projects_routes())
    }

    fn register_projects_routes(self) -> (r: Self)
        ensures
            r@ == self@ + projects_routes(),
    {
        let ghost start = self@;
        let table = vec![
            (Method::Post, "/projects", Endpoint::CreateProject),
            (Method::Get, "/projects/:project_id", Endpoint::GetProjectById),
            (Method::Put, "/projects/:project_id", Endpoint::CreateEvent),
        ];
        assert(table_view(table@) =~= project_routes());
        let ghost a = project_routes();
        let ghost b = project_tags_routes();
        let ghost c = project_threads_routes();
        let ghost d = project_source_requests_routes();
        proof {
            assert(projects_routes() =~= a + (b + (c + d)));
            lemma_can_add_split(start, a, b + (c + d));
        }
        let r = self.add_routes(&table);
        proof {
            lemma_can_add_split(r@, b, c + d);
        }
        let r = r.register_project_tags_routes();
        proof {
            lemma_can_add_split(r@, c, d);
        }
        let r = r.register_project_threads_routes();
        let r = r.register_project_source_requests_routes();
        assert(r@ =~= start + projects_routes());
        r
    }
}

} // verus!
