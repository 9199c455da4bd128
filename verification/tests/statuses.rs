use web_bff::status::{
    status_of, status_of_not_found, status_of_not_found_or_forbidden, ClientError,
};

#[test]
fn every_upstream_status_passes_through() {
    assert_eq!(status_of(ClientError::Status(418)), 418);
    assert_eq!(status_of(ClientError::Status(404)), 404);
    assert_eq!(status_of(ClientError::Other), 500);
}

#[test]
fn only_not_found_passes_through() {
    assert_eq!(status_of_not_found(ClientError::Status(404)), 404);
    assert_eq!(status_of_not_found(ClientError::Status(403)), 500);
    assert_eq!(status_of_not_found(ClientError::Other), 500);
}

#[test]
fn not_found_and_forbidden_pass_through() {
    assert_eq!(status_of_not_found_or_forbidden(ClientError::Status(404)), 404);
    assert_eq!(status_of_not_found_or_forbidden(ClientError::Status(403)), 403);
    assert_eq!(status_of_not_found_or_forbidden(ClientError::Status(409)), 500);
    assert_eq!(status_of_not_found_or_forbidden(ClientError::Other), 500);
}
