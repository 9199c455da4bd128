use web_bff::index::popular::{
    find_score, ids_of, on_details, on_scores, sort_by_score, PopularNext, Project, ProjectDetails,
    ScoreRecord, UserDetails,
};
use web_bff::status::ClientError;

fn score(id: &str, s: u32) -> ScoreRecord {
    ScoreRecord { id: id.to_string(), score: s }
}

fn project(id: &str) -> ProjectDetails {
    ProjectDetails { id: id.to_string(), name: format!("name of {}", id) }
}

#[test]
fn later_score_report_wins_and_missing_scores_zero() {
    let scores = vec![score("a", 5), score("b", 9), score("a", 7)];
    assert_eq!(find_score(&scores, &"a".to_string()), 7);
    assert_eq!(find_score(&scores, &"b".to_string()), 9);
    assert_eq!(find_score(&scores, &"z".to_string()), 0);
}

#[test]
fn scored_ids_are_asked_for_once() {
    let scores = vec![score("a", 5), score("b", 9), score("a", 7), score("c", 1)];
    assert_eq!(ids_of(&scores), vec!["a".to_string(), "b".to_string(), "c".to_string()]);
}

#[test]
fn failed_scores_are_a_server_error() {
    match on_scores(Err(ClientError::Status(404)), Ok(vec![])) {
        PopularNext::Fail(code) => assert_eq!(code, 500),
        _ => panic!("expected a failure"),
    }
    match on_scores(Ok(vec![]), Err(ClientError::Other)) {
        PopularNext::Fail(code) => assert_eq!(code, 500),
        _ => panic!("expected a failure"),
    }
}

#[test]
fn popular_lists_are_ranked_by_score() {
    let next = on_scores(
        Ok(vec![score("a", 5), score("b", 9), score("a", 7)]),
        Ok(vec![score("u1", 3), score("u2", 3), score("u3", 4)]),
    );
    let (scores, project_ids, user_ids) = match next {
        PopularNext::FetchDetails { scores, project_ids, user_ids } => (scores, project_ids, user_ids),
        PopularNext::Fail(_) => panic!("expected details to be fetched"),
    };
    assert_eq!(project_ids, vec!["a".to_string(), "b".to_string()]);
    assert_eq!(user_ids, vec!["u1".to_string(), "u2".to_string(), "u3".to_string()]);
    let users = vec![
        UserDetails { id: "u2".to_string(), username: "bob".to_string() },
        UserDetails { id: "u1".to_string(), username: "amy".to_string() },
        UserDetails { id: "u3".to_string(), username: "cid".to_string() },
    ];
    let resp = match on_details(scores, Ok(vec![project("a"), project("c"), project("b"), project("d")]), Ok(users)) {
        Ok(resp) => resp,
        Err(_) => panic!("expected an answer"),
    };
    let ranked: Vec<(String, u32)> = resp.projects.iter().map(|p| (p.id.clone(), p.score)).collect();
    assert_eq!(ranked, vec![
        ("b".to_string(), 9),
        ("a".to_string(), 7),
        ("c".to_string(), 0),
        ("d".to_string(), 0),
    ]);
    assert_eq!(resp.projects[0].name, "name of b");
    let users: Vec<(String, String, u32)> =
        resp.users.iter().map(|u| (u.id.clone(), u.username.clone(), u.score)).collect();
    assert_eq!(users, vec![
        ("u3".to_string(), "cid".to_string(), 4),
        ("u2".to_string(), "bob".to_string(), 3),
        ("u1".to_string(), "amy".to_string(), 3),
    ]);
}

#[test]
fn failed_details_are_a_server_error() {
    let next = on_scores(Ok(vec![]), Ok(vec![]));
    let scores = match next {
        PopularNext::FetchDetails { scores, .. } => scores,
        PopularNext::Fail(_) => panic!("expected details to be fetched"),
    };
    assert!(matches!(on_details(scores, Ok(vec![]), Err(ClientError::Status(403))), Err(500)));
}

#[test]
fn sorting_keeps_order_among_equal_scores() {
    let items: Vec<Project> = [3u32, 1, 3, 2, 1, 3]
        .iter()
        .enumerate()
        .map(|(i, s)| Project { id: i.to_string(), name: String::new(), score: *s })
        .collect();
    let sorted = sort_by_score(items);
    let ids: Vec<String> = sorted.iter().map(|p| p.id.clone()).collect();
    assert_eq!(ids, vec!["0", "2", "5", "3", "1", "4"]);
}

#[test]
fn sorting_nothing_gives_nothing() {
    assert!(sort_by_score(Vec::<Project>::new()).is_empty());
}
