use web_bff::keyed::{distinct_ids, find_username, UserRecord};
use web_bff::projects::CommentRecord;
use web_bff::projects::threads::create_thread::{
    on_comment_created, on_thread_created, start as start_thread, CreateThreadNext, CreateThreadRequest,
};
use web_bff::projects::threads::get_thread_by_id::{on_thread, on_users as on_thread_users, GetThreadNext, ThreadRecord};
use web_bff::projects::threads::list_threads::{on_threads, on_users as on_list_users, ListThreadsNext, ThreadSummary};
use web_bff::status::ClientError;

fn user(id: &str, name: &str) -> UserRecord {
    UserRecord { id: id.to_string(), username: name.to_string() }
}

fn comment(by: &str, text: &str) -> CommentRecord {
    CommentRecord { user_id: by.to_string(), content: text.to_string() }
}

fn summary(id: &str, by: &str) -> ThreadSummary {
    ThreadSummary { id: id.to_string(), title: format!("title {}", id), user_id: by.to_string() }
}

#[test]
fn ids_keep_first_occurrence_order() {
    let ids: Vec<String> = ["b", "a", "b", "c", "a"].iter().map(|s| s.to_string()).collect();
    assert_eq!(distinct_ids(&ids), vec!["b".to_string(), "a".to_string(), "c".to_string()]);
    assert!(distinct_ids(&vec![]).is_empty());
}

#[test]
fn later_user_entry_wins() {
    let users = vec![user("1", "old"), user("2", "two"), user("1", "new")];
    assert_eq!(find_username(&users, &"1".to_string()), Some("new".to_string()));
    assert_eq!(find_username(&users, &"2".to_string()), Some("two".to_string()));
    assert_eq!(find_username(&users, &"3".to_string()), None);
}

#[test]
fn thread_list_shows_known_owners() {
    let next = on_threads(Ok(vec![summary("t1", "u1"), summary("t2", "u2"), summary("t3", "u1")]));
    let (threads, user_ids) = match next {
        ListThreadsNext::ListUsers { threads, user_ids } => (threads, user_ids),
        ListThreadsNext::Fail(_) => panic!("expected the owners to be listed"),
    };
    assert_eq!(user_ids, vec!["u1".to_string(), "u2".to_string()]);
    let list = match on_list_users(threads, Ok(vec![user("u1", "amy")])) {
        Ok(list) => list,
        Err(_) => panic!("expected the list"),
    };
    assert_eq!(list.threads.len(), 3);
    assert_eq!(list.threads[0].id, "t1");
    let owner = list.threads[0].owner.as_ref().unwrap();
    assert_eq!((owner.id.as_str(), owner.username.as_str()), ("u1", "amy"));
    assert!(list.threads[1].owner.is_none());
    assert_eq!(list.threads[2].owner.as_ref().unwrap().username, "amy");
}

#[test]
fn thread_list_failures() {
    assert!(matches!(on_threads(Err(ClientError::Status(404))), ListThreadsNext::Fail(404)));
    assert!(matches!(on_threads(Err(ClientError::Status(401))), ListThreadsNext::Fail(500)));
    assert!(matches!(on_list_users(vec![], Err(ClientError::Status(404))), Err(404)));
    assert!(matches!(on_list_users(vec![], Err(ClientError::Other)), Err(500)));
}

fn thread() -> ThreadRecord {
    ThreadRecord {
        id: "t1".to_string(),
        title: "hello".to_string(),
        user_id: "u1".to_string(),
        comments: vec![comment("u2", "first"), comment("u3", "second"), comment("u2", "third")],
    }
}

#[test]
fn thread_page_shows_owner_and_authors() {
    let (thread, user_ids) = match on_thread(Ok(thread())) {
        GetThreadNext::FetchUsers { thread, owner_id, user_ids } => {
            assert_eq!(owner_id, "u1");
            (thread, user_ids)
        },
        GetThreadNext::Fail(_) => panic!("expected the users to be fetched"),
    };
    assert_eq!(user_ids, vec!["u2".to_string(), "u3".to_string()]);
    let page = match on_thread_users(thread, Ok(user("u1", "owner")), Ok(vec![user("u2", "bob")])) {
        Ok(page) => page,
        Err(_) => panic!("expected the page"),
    };
    assert_eq!(page.owner.as_ref().unwrap().username, "owner");
    let shown: Vec<(String, Option<String>)> = page
        .comments
        .iter()
        .map(|c| (c.content.clone(), c.owner.as_ref().map(|o| o.username.clone())))
        .collect();
    assert_eq!(shown, vec![
        ("first".to_string(), Some("bob".to_string())),
        ("second".to_string(), None),
        ("third".to_string(), Some("bob".to_string())),
    ]);
}

#[test]
fn unknown_thread_owner_is_left_out() {
    let page = on_thread_users(thread(), Err(ClientError::Status(404)), Ok(vec![]));
    assert!(page.unwrap_or_else(|_| panic!("expected the page")).owner.is_none());
    assert!(matches!(on_thread_users(thread(), Err(ClientError::Status(503)), Ok(vec![])), Err(500)));
    assert!(matches!(on_thread_users(thread(), Ok(user("u1", "o")), Err(ClientError::Status(404))), Err(500)));
    assert!(matches!(on_thread(Err(ClientError::Status(404))), GetThreadNext::Fail(404)));
    assert!(matches!(on_thread(Err(ClientError::Other)), GetThreadNext::Fail(500)));
}

#[test]
fn new_thread_gets_its_first_comment() {
    let request = CreateThreadRequest { title: "Hello".to_string(), comment: "hi".to_string() };
    let (call, pending) = start_thread("p1".to_string(), "u1".to_string(), request);
    assert_eq!((call.project_id.as_str(), call.title.as_str(), call.user_id.as_str()), ("p1", "Hello", "u1"));
    match on_thread_created(pending, Ok("t7".to_string())) {
        CreateThreadNext::CreateComment { project_id, thread_id, content, user_id } => {
            assert_eq!(
                (project_id.as_str(), thread_id.as_str(), content.as_str(), user_id.as_str()),
                ("p1", "t7", "hi", "u1")
            );
        },
        CreateThreadNext::Fail(_) => panic!("expected the comment to be posted"),
    }
    let request = CreateThreadRequest { title: "t".to_string(), comment: "c".to_string() };
    let (_, pending) = start_thread("p1".to_string(), "u".to_string(), request);
    assert!(matches!(on_thread_created(pending, Err(ClientError::Status(404))), CreateThreadNext::Fail(404)));
    let done = on_comment_created("t7".to_string(), Ok(())).unwrap_or_else(|_| panic!("expected success"));
    assert_eq!(done.0, 201);
    assert_eq!(done.1.id, "t7");
    assert!(matches!(on_comment_created("t7".to_string(), Err(ClientError::Status(400))), Err(400)));
}
