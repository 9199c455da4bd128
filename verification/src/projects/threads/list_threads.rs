use vstd::prelude::*;
use crate::status::{ClientError, not_found_passed_through, status_of_not_found};
use crate::keyed::{UserRecord, views, distinct, distinct_ids, username_of, find_username};

verus! {

/// A thread as the projects service lists it.
pub struct ThreadSummary {
    pub id: String,
    pub title: String,
    pub user_id: String,
}

/// The threads of a project.
pub struct ThreadList {
    pub threads: Vec<Thread>,
}

/// A thread of a project, with its owner where the owner is known.
pub struct Thread {
    pub id: String,
    pub title: String,
    pub owner: Option<ThreadOwner>,
}

/// The owner of a thread.
pub struct ThreadOwner {
    pub id: String,
    pub username: String,
}

/// The ids of the owners of `threads`, each once, in the order of first thread.
pub open spec fn thread_owner_ids(threads: Seq<ThreadSummary>) -> Seq<Seq<char>> {
    distinct(threads.map_values(|t: ThreadSummary| t.user_id@))
}

/// What listing threads does once the threads have been listed.
pub enum ListThreadsNext {
    /// List the users `user_ids`, then call `on_users`.
    ListUsers { threads: Vec<ThreadSummary>, user_ids: Vec<String> },
    /// Answer with this status.
    Fail(u16),
}

/// Step of listing a project's threads once the projects service has answered:
/// the owners of the threads are listed next, each once; an upstream "not found"
/// is passed through and any other failure is a server error.
pub fn on_threads(reply: Result<Vec<ThreadSummary>, ClientError>) -> (next: ListThreadsNext)
    ensures
        match reply {
            Ok(t) => next matches ListThreadsNext::ListUsers { threads, user_ids } && threads@ == t@
                && views(user_ids@) == thread_owner_ids(t@),
            Err(e) => next == ListThreadsNext::Fail(not_found_passed_through(e)),
        },
{
    match reply {
        Ok(threads) => {
            let mut ids: Vec<String> = Vec::new();
            let mut i: usize = 0;
            while i < threads.len()
                invariant
                    i <= threads.len(),
                    views(ids@) == threads@.take(i as int).map_values(|t: ThreadSummary| t.user_id@),
                decreases threads.len() - i,
            {
                let ghost before = ids@;
                let id = threads[i].user_id.clone();
                ids.push(id);
                assert(views(ids@) =~= views(before).push(id@));
                assert(threads@.take(i + 1) =~= threads@.take(i as int).push(threads@[i as int]));
                i = i + 1;
            }
            assert(threads@.take(i as int) =~= threads@);
            let user_ids = distinct_ids(&ids);
            ListThreadsNext::ListUsers { threads, user_ids }
        },
        Err(e) => ListThreadsNext::Fail(status_of_not_found(e)),
    }
}

/// A thread with its owner, where `users` knows the owner.
pub open spec fn listed_thread(t: ThreadSummary, users: Seq<UserRecord>) -> Thread {
    Thread {
        id: t.id,
        title: t.title,
        owner: match username_of(users, t.user_id@) {
            Some(username) => Some(ThreadOwner { id: t.user_id, username }),
            None => None,
        },
    }
}

/// A listed thread keeps the id and title it was listed with, and shows as its
/// owner the thread's user, under the name `users` gives that user, exactly
/// where `users` gives one.
pub proof fn lemma_listed_thread(t: ThreadSummary, users: Seq<UserRecord>)
    ensures
        listed_thread(t, users).id == t.id,
        listed_thread(t, users).title == t.title,
        listed_thread(t, users).owner is None <==> username_of(users, t.user_id@) is None,
        listed_thread(t, users).owner matches Some(o) ==> o.id == t.user_id && username_of(users, t.user_id@)
            == Some(o.username),
{
}

/// Last step of listing a project's threads, once the owners have been listed:
/// each thread, in order, with its owner where the owner was listed (a later
/// entry for the same id wins); an upstream "not found" is passed through and any
/// other failure is a server error.
pub fn on_users(threads: Vec<ThreadSummary>, reply: Result<Vec<UserRecord>, ClientError>) -> (r: Result<ThreadList, u16>)
    ensures
        match reply {
            Ok(users) => r matches Ok(list) && {
                &&& list.threads@ == threads@.map_values(|t: ThreadSummary| listed_thread(t, users@))
                &&& list.threads@.len() == threads@.len()
                &&& forall|i: int| 0 <= i < threads@.len() ==> {
                    &&& (#[trigger] list.threads@[i]).id == threads@[i].id
                    &&& list.threads@[i].title == threads@[i].title
                    &&& (list.threads@[i].owner is None <==> username_of(users@, threads@[i].user_id@) is None)
                    &&& (list.threads@[i].owner matches Some(o) ==> o.id == threads@[i].user_id
                        && username_of(users@, threads@[i].user_id@) == Some(o.username))
                }
            },
            Err(e) => r == Err::<ThreadList, u16>(not_found_passed_through(e)),
        },
{
    match reply {
        Ok(users) => {
            let mut out: Vec<Thread> = Vec::new();
            let mut i: usize = 0;
            while i < threads.len()
                invariant
                    i <= threads.len(),
                    out@ == threads@.take(i as int).map_values(|t: ThreadSummary| listed_thread(t, users@)),
                decreases threads.len() - i,
            {
                let t = &threads[i];
                let owner = match find_username(&users, &t.user_id) {
                    Some(username) => Some(ThreadOwner { id: t.user_id.clone(), username }),
                    None => None,
                };
                out.push(Thread { id: t.id.clone(), title: t.title.clone(), owner });
                assert(threads@.take(i + 1) =~= threads@.take(i as int).push(threads@[i as int]));
                assert(out@ =~= threads@.take(i + 1).map_values(|t: ThreadSummary| listed_thread(t, users@)));
                i = i + 1;
            }
            assert(threads@.take(i as int) =~= threads@);
            proof {
                assert forall|k: int| 0 <= k < threads@.len() implies {
                    &&& (#[trigger] out@[k]).id == threads@[k].id
                    &&& out@[k].title == threads@[k].title
                    &&& (out@[k].owner is None <==> username_of(users@, threads@[k].user_id@) is None)
                    &&& (out@[k].owner matches Some(o) ==> o.id == threads@[k].user_id
                        && username_of(users@, threads@[k].user_id@) == Some(o.username))
                } by {
                    lemma_listed_thread(threads@[k], users@);
                }
            }
            Ok(ThreadList { threads: out })
        },
        Err(e) => Err(status_of_not_found(e)),
    }
}

} // verus!
