use std::collections::{HashMap, HashSet};
use web_bff::keyed::UserRecord;
use web_bff::projects::{CommentRecord, ProjectRecord};
use web_bff::projects::create_project::{on_project_created, start as start_project, CreateProjectRequest};
use web_bff::projects::get_project_by_id::{on_owner, on_project_and_tags, start as start_project_page, GetProjectNext};
use web_bff::projects::message_queue::{Message, ProjectViewed};
use web_bff::projects::source_requests::approve::{on_approved, start as start_approval};
use web_bff::projects::source_requests::complete::{on_completed, start as start_completion};
use web_bff::projects::source_requests::create::{
    on_source_request_created, start as start_source_request, CreateSourceRequestRequest, FileMap as NewFile,
};
use web_bff::projects::source_requests::create_comment::{on_comment_created, start as start_comment, CreateCommentRequest};
use web_bff::projects::source_requests::get_by_id::{
    on_details, on_source_request, on_users, Approved, DiffItem, GetSourceRequestNext, SourceRequest,
    SourceRequestDetailsNext,
};
use web_bff::projects::source_requests::list_source_requests::{
    on_listed, NewSourceRequestSummary, SourceRequest as Listed, SourceRequestSummary,
};
use web_bff::status::ClientError;

fn record() -> ProjectRecord {
    ProjectRecord {
        id: "p1".to_string(),
        name: "demo".to_string(),
        user_id: "owner".to_string(),
        event_id: "e3".to_string(),
        files: vec![],
    }
}

#[test]
fn approval_passes_not_found_and_forbidden() {
    assert_eq!(on_approved(Ok(())), Ok(()));
    assert_eq!(on_approved(Err(ClientError::Status(403))), Err(403));
    assert_eq!(on_approved(Err(ClientError::Status(404))), Err(404));
    assert_eq!(on_approved(Err(ClientError::Status(400))), Err(500));
    assert_eq!(on_completed(Err(ClientError::Status(403))), Err(403));
    assert_eq!(on_completed(Err(ClientError::Other)), Err(500));
}

#[test]
fn creations_answer_created_with_the_id() {
    let (code, body) = on_source_request_created(Ok("sr1".to_string())).unwrap_or_else(|_| panic!("expected success"));
    assert_eq!((code, body.id.as_str()), (201, "sr1"));
    assert!(matches!(on_source_request_created(Err(ClientError::Status(404))), Err(404)));
    assert!(matches!(on_source_request_created(Err(ClientError::Status(403))), Err(500)));
    let (code, body) = on_comment_created(Ok("c1".to_string())).unwrap_or_else(|_| panic!("expected success"));
    assert_eq!((code, body.id.as_str()), (201, "c1"));
    let (code, body) = on_project_created(Ok("p5".to_string())).unwrap_or_else(|_| panic!("expected success"));
    assert_eq!((code, body.id.as_str()), (201, "p5"));
    assert!(matches!(on_project_created(Err(ClientError::Status(422))), Err(422)));
}

#[test]
fn listing_keeps_the_source_requests() {
    let listed = vec![Listed {
        id: "sr1".to_string(),
        source_request: SourceRequestSummary::New(NewSourceRequestSummary {
            project_id: "p1".to_string(),
            user_id: "u1".to_string(),
            title: "fix".to_string(),
        }),
    }];
    let resp = on_listed(Ok(listed)).unwrap_or_else(|_| panic!("expected the list"));
    assert_eq!(resp.source_requests.len(), 1);
    assert_eq!(resp.source_requests[0].id, "sr1");
    assert!(matches!(on_listed(Err(ClientError::Status(404))), Err(404)));
    assert!(matches!(on_listed(Err(ClientError::Status(401))), Err(500)));
}

#[test]
fn source_request_page_shows_authors() {
    let approved = SourceRequest::Approved(Approved {
        project_id: "p1".to_string(),
        user_id: "u1".to_string(),
        title: "t".to_string(),
        description: "d".to_string(),
        approvers: HashSet::from(["owner".to_string()]),
        files: vec![],
    });
    let source_request = match on_source_request(Ok(approved)) {
        GetSourceRequestNext::FetchDetails { source_request } => source_request,
        GetSourceRequestNext::Fail(_) => panic!("expected the details to be fetched"),
    };
    let comments = vec![
        CommentRecord { user_id: "u1".to_string(), content: "a".to_string() },
        CommentRecord { user_id: "u2".to_string(), content: "b".to_string() },
    ];
    let mut diff = HashMap::new();
    diff.insert("x.rs".to_string(), DiffItem { from: "f1".to_string(), to: "f2".to_string() });
    let (details, user_ids) = match on_details(source_request, Ok(comments), Ok(diff), Ok(record())) {
        SourceRequestDetailsNext::MapUsers { details, user_ids } => (details, user_ids),
        SourceRequestDetailsNext::Fail(_) => panic!("expected the users to be looked up"),
    };
    assert_eq!(user_ids, vec!["u1".to_string(), "u2".to_string()]);
    assert_eq!((details.project.id.as_str(), details.project.owner.as_str()), ("p1", "owner"));
    let users = vec![UserRecord { id: "u2".to_string(), username: "bob".to_string() }];
    let page = on_users(details, Ok(users)).unwrap_or_else(|_| panic!("expected the page"));
    assert!(page.comments[0].owner.is_none());
    assert_eq!(page.comments[1].owner.as_ref().unwrap().username, "bob");
    assert_eq!(page.comments[1].content, "b");
    assert!(page.diff.get("x.rs") == Some(&DiffItem { from: "f1".to_string(), to: "f2".to_string() }));
    assert!(matches!(page.source_request, SourceRequest::Approved(_)));
}

#[test]
fn source_request_page_failures() {
    assert!(matches!(on_source_request(Err(ClientError::Status(404))), GetSourceRequestNext::Fail(404)));
    assert!(matches!(on_source_request(Err(ClientError::Status(403))), GetSourceRequestNext::Fail(500)));
    let sr = SourceRequest::Approved(Approved {
        project_id: String::new(),
        user_id: String::new(),
        title: String::new(),
        description: String::new(),
        approvers: HashSet::new(),
        files: vec![],
    });
    assert!(matches!(
        on_details(sr, Ok(vec![]), Err(ClientError::Status(404)), Ok(record())),
        SourceRequestDetailsNext::Fail(500)
    ));
}

#[test]
fn project_page_notes_the_view() {
    let (project, tags) = match on_project_and_tags(Ok(record()), Ok(vec!["rust".to_string()])) {
        GetProjectNext::FetchOwner { project, tags, owner_id } => {
            assert_eq!(owner_id, "owner");
            (project, tags)
        },
        GetProjectNext::Fail(_) => panic!("expected the owner to be fetched"),
    };
    let owner = UserRecord { id: "owner".to_string(), username: "olga".to_string() };
    let (viewed, page) = on_owner("p1".to_string(), project, tags, Ok(owner)).unwrap_or_else(|_| panic!("expected the page"));
    assert_eq!(viewed.id, "p1");
    assert_eq!(page.owner.username, "olga");
    assert_eq!(page.event_id, "e3");
    assert_eq!(page.tags, vec!["rust".to_string()]);
    assert!(matches!(on_project_and_tags(Err(ClientError::Status(404)), Err(ClientError::Other)), GetProjectNext::Fail(404)));
    assert!(matches!(on_project_and_tags(Ok(record()), Err(ClientError::Other)), GetProjectNext::Fail(500)));
    let message: Message = ProjectViewed { id: "p1".to_string() }.into();
    assert!(matches!(message, Message::ProjectViewed(_)));
}

#[test]
fn requests_carry_the_user_and_the_body() {
    let calls = start_project_page(&"p1".to_string());
    assert_eq!((calls.project_id.as_str(), calls.tags_project_id.as_str()), ("p1", "p1"));
    let project = start_project("u1".to_string(), CreateProjectRequest { name: "demo".to_string() });
    assert_eq!((project.name.as_str(), project.user_id.as_str()), ("demo", "u1"));
    let request = CreateSourceRequestRequest {
        title: "fix".to_string(),
        description: "typo".to_string(),
        files: vec![
            NewFile { path: "a.rs".to_string(), file_id: "f1".to_string() },
            NewFile { path: "b.rs".to_string(), file_id: "f2".to_string() },
        ],
    };
    let new = start_source_request("u2".to_string(), request);
    assert_eq!((new.user_id.as_str(), new.title.as_str(), new.description.as_str()), ("u2", "fix", "typo"));
    let files: Vec<(String, String)> = new.files.iter().map(|f| (f.path.clone(), f.file_id.clone())).collect();
    assert_eq!(files, vec![
        ("a.rs".to_string(), "f1".to_string()),
        ("b.rs".to_string(), "f2".to_string()),
    ]);
    let comment = start_comment("u3".to_string(), CreateCommentRequest { content: "looks good".to_string() });
    assert_eq!((comment.user_id.as_str(), comment.content.as_str()), ("u3", "looks good"));
    assert_eq!(start_approval("u4".to_string()).user_id, "u4");
    assert_eq!(start_completion("u5".to_string()).user_id, "u5");
}
