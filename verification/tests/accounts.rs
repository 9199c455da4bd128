use web_bff::auth::login::{on_login, start as start_login, LoginRequest};
use web_bff::auth::sign_up::{on_signed_up, on_token, start as start_sign_up, SignUpNext, SignUpRequest};
use web_bff::keyed::UserRecord;
use web_bff::users::get_user_by_id::{on_user_and_projects, start as start_profile};
use web_bff::users::get_user_by_username::{on_projects, on_user, start as start_by_name, GetUserByUsernameNext};
use web_bff::users::message_queue::{Message, UserViewed};
use web_bff::users::UserProject;
use web_bff::status::ClientError;

#[test]
fn login_answers_the_token() {
    assert_eq!(on_login(Ok("tok".to_string())).map(|r| r.token), Ok("tok".to_string()));
    assert!(matches!(on_login(Err(ClientError::Status(401))), Err(401)));
    assert!(matches!(on_login(Err(ClientError::Other)), Err(500)));
}

#[test]
fn sign_up_asks_a_token_for_the_new_user() {
    match on_signed_up(Ok("u42".to_string())) {
        SignUpNext::CreateToken { user_id } => assert_eq!(user_id, "u42"),
        SignUpNext::Fail(_) => panic!("expected a token to be asked for"),
    }
    assert!(matches!(on_signed_up(Err(ClientError::Status(409))), SignUpNext::Fail(409)));
    assert_eq!(on_token(Ok("t".to_string())).map(|r| r.token), Ok("t".to_string()));
    assert!(matches!(on_token(Err(ClientError::Other)), Err(500)));
}

fn projects() -> Vec<UserProject> {
    vec![UserProject { id: "p1".to_string(), name: "one".to_string() }]
}

#[test]
fn profile_by_id_notes_the_view() {
    let user = UserRecord { id: "u1".to_string(), username: "amy".to_string() };
    let (viewed, profile) = on_user_and_projects("u1".to_string(), Ok(user), Ok(projects()))
        .unwrap_or_else(|_| panic!("expected the profile"));
    assert_eq!(viewed.id, "u1");
    assert_eq!(profile.username, "amy");
    assert_eq!(profile.projects[0].name, "one");
    let user = UserRecord { id: "u1".to_string(), username: "amy".to_string() };
    assert!(matches!(on_user_and_projects("u1".to_string(), Err(ClientError::Status(404)), Err(ClientError::Other)), Err(404)));
    assert!(matches!(on_user_and_projects("u1".to_string(), Ok(user), Err(ClientError::Other)), Err(500)));
}

#[test]
fn profile_by_name_notes_the_view_under_the_id() {
    let user = UserRecord { id: "u9".to_string(), username: "zed".to_string() };
    let user = match on_user(Ok(user)) {
        GetUserByUsernameNext::ListProjects { user, user_id } => {
            assert_eq!(user_id, "u9");
            user
        },
        GetUserByUsernameNext::Fail(_) => panic!("expected the projects to be listed"),
    };
    let (viewed, profile) = on_projects(user, Ok(projects())).unwrap_or_else(|_| panic!("expected the profile"));
    assert_eq!(viewed.id, "u9");
    assert_eq!(profile.id, "u9");
    assert!(matches!(on_user(Err(ClientError::Status(404))), GetUserByUsernameNext::Fail(404)));
}

#[test]
fn view_notice_becomes_a_message() {
    let message: Message = UserViewed { id: "u1".to_string() }.into();
    match message {
        Message::UserViewed(v) => assert_eq!(v.id, "u1"),
    }
}

#[test]
fn first_calls_carry_the_request() {
    let login = start_login(LoginRequest { username: "amy".to_string(), password: "pw".to_string() });
    assert_eq!((login.username.as_str(), login.password.as_str()), ("amy", "pw"));
    let account = start_sign_up(SignUpRequest { username: "bob".to_string(), password: "secret".to_string() });
    assert_eq!((account.username.as_str(), account.password.as_str()), ("bob", "secret"));
    let calls = start_profile(&"u7".to_string());
    assert_eq!((calls.user_id.as_str(), calls.projects_user_id.as_str()), ("u7", "u7"));
    assert_eq!(start_by_name("zed".to_string()).username, "zed");
}
