use z2p::routes::{check_health, HttpOutcome};

#[test]
fn health_check_works() {
    let response = check_health();
    assert_eq!(response, HttpOutcome::Success);
    assert_eq!(response.status_code(), 200);
}

#[test]
fn every_outcome_has_its_status() {
    assert_eq!(HttpOutcome::Success.status_code(), 200);
    assert_eq!(HttpOutcome::BadRequest.status_code(), 400);
    assert_eq!(HttpOutcome::Unauthorized.status_code(), 401);
    assert_eq!(HttpOutcome::InternalError.status_code(), 500);
}
