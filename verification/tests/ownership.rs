use web_bff::projects::{owned_project, ProjectRecord};
use web_bff::projects::create_event::{
    on_event_created, on_project as on_event_project, AddFilesRequest, CreateEventNext, EventRequest,
};
use web_bff::projects::tags::create_tag::{on_project as on_tag_project, on_tag_created, CreateTagNext, CreateTagRequest};
use web_bff::projects::tags::delete_tag::{on_project as on_untag_project, on_tag_deleted, DeleteTagNext};
use web_bff::status::ClientError;

fn record(id: &str, owner: &str) -> ProjectRecord {
    ProjectRecord {
        id: id.to_string(),
        name: "demo".to_string(),
        user_id: owner.to_string(),
        event_id: "e1".to_string(),
        files: vec![],
    }
}

fn add_files() -> EventRequest {
    EventRequest::AddFiles(AddFilesRequest { previous_event_id: "e1".to_string(), files: vec![] })
}

#[test]
fn only_the_owner_changes_a_project() {
    assert!(owned_project(&"alice".to_string(), Ok(record("p1", "alice"))).is_ok());
    assert!(matches!(owned_project(&"bob".to_string(), Ok(record("p1", "alice"))), Err(403)));
    assert!(matches!(owned_project(&"bob".to_string(), Err(ClientError::Status(404))), Err(404)));
    assert!(matches!(owned_project(&"bob".to_string(), Err(ClientError::Other)), Err(500)));
}

#[test]
fn event_is_recorded_under_the_requested_project() {
    match on_event_project(&"alice".to_string(), "path-id".to_string(), add_files(), Ok(record("p1", "alice"))) {
        CreateEventNext::CreateEvent { project_id, request } => {
            assert_eq!(project_id, "path-id");
            assert!(matches!(request, EventRequest::AddFiles(_)));
        },
        CreateEventNext::Fail(_) => panic!("the owner may change the project"),
    }
    assert!(matches!(
        on_event_project(&"bob".to_string(), "p1".to_string(), add_files(), Ok(record("p1", "alice"))),
        CreateEventNext::Fail(403)
    ));
    assert_eq!(on_event_created(Ok(())), Ok(204));
    assert_eq!(on_event_created(Err(ClientError::Status(409))), Err(409));
}

#[test]
fn tag_is_put_on_the_fetched_project() {
    match on_tag_project(&"alice".to_string(), CreateTagRequest { tag: "rust".to_string() }, Ok(record("p9", "alice"))) {
        CreateTagNext::CreateTag { project_id, tag } => {
            assert_eq!(project_id, "p9");
            assert_eq!(tag, "rust");
        },
        CreateTagNext::Fail(_) => panic!("the owner may tag the project"),
    }
    assert!(matches!(
        on_tag_project(&"eve".to_string(), CreateTagRequest { tag: "x".to_string() }, Ok(record("p9", "alice"))),
        CreateTagNext::Fail(403)
    ));
    assert_eq!(on_tag_created(Ok(())), Ok(202));
    assert_eq!(on_tag_created(Err(ClientError::Other)), Err(500));
}

#[test]
fn tag_is_removed_only_by_the_owner() {
    match on_untag_project(&"alice".to_string(), "old".to_string(), Ok(record("p2", "alice"))) {
        DeleteTagNext::DeleteTag { project_id, tag } => {
            assert_eq!(project_id, "p2");
            assert_eq!(tag, "old");
        },
        DeleteTagNext::Fail(_) => panic!("the owner may remove a tag"),
    }
    assert!(matches!(
        on_untag_project(&"eve".to_string(), "old".to_string(), Ok(record("p2", "alice"))),
        DeleteTagNext::Fail(403)
    ));
    assert!(matches!(
        on_untag_project(&"eve".to_string(), "old".to_string(), Err(ClientError::Status(404))),
        DeleteTagNext::Fail(404)
    ));
    assert_eq!(on_tag_deleted(Ok(())), Ok(202));
}
