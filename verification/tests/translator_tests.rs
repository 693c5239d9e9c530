use activity_gateway::data::{
    ActivitiesResponse, ActivityResponse, ErrorListResponse, SignInResponse,
};
use activity_gateway::external::{
    create_activity, delete_activity, edit_activity, find_activity_in, get_activities,
    get_activity, get_jwt, ExternalCallFailure,
};
use activity_gateway::handlers::AnalyzerError;

fn act(id: &str, name: &str) -> ActivityResponse {
    ActivityResponse {
        id: id.to_string(),
        name: name.to_string(),
        color: "#a1b2c3".to_string(),
        integration: "zei".to_string(),
        device_side: None,
    }
}

fn listing(ids: &[&str]) -> ActivitiesResponse {
    ActivitiesResponse { activities: ids.iter().map(|id| act(id, "some activity")).collect() }
}

fn failure() -> ExternalCallFailure {
    ExternalCallFailure { status: Some(503), cause: "request error".to_string() }
}

#[test]
fn get_activities_passes_the_listing_through() {
    let r = get_activities(Ok(Some(listing(&["a", "b"])))).unwrap();
    assert_eq!(r.activities.len(), 2);
    assert_eq!(r.activities[0].id, "a");
    assert_eq!(r.activities[1].id, "b");
}

#[test]
fn get_activities_folds_call_failure() {
    let r = get_activities(Err(failure()));
    assert_eq!(r.unwrap_err(), AnalyzerError::ExternalServiceError);
}

#[test]
fn get_activities_folds_unparsable_body() {
    let r = get_activities(Ok(None));
    assert_eq!(r.unwrap_err(), AnalyzerError::ExternalServiceError);
}

#[test]
fn get_activity_misses_an_absent_id() {
    let r = get_activity("c", Ok(Some(listing(&["a", "b"]))));
    assert_eq!(r.unwrap_err(), AnalyzerError::ActivityNotFoundError);
}

#[test]
fn get_activity_finds_a_listed_id() {
    let r = get_activity("b", Ok(Some(listing(&["a", "b"])))).unwrap();
    assert_eq!(r.id, "b");
    assert_eq!(r.name, "some activity");
    assert_eq!(r.color, "#a1b2c3");
    assert_eq!(r.integration, "zei");
}

#[test]
fn get_activity_on_empty_listing_is_not_found() {
    let r = get_activity("a", Ok(Some(listing(&[]))));
    assert_eq!(r.unwrap_err(), AnalyzerError::ActivityNotFoundError);
}

#[test]
fn get_activity_folds_call_failure() {
    let r = get_activity("a", Err(failure()));
    assert_eq!(r.unwrap_err(), AnalyzerError::ExternalServiceError);
}

#[test]
fn get_activity_folds_unparsable_body() {
    let r = get_activity("a", Ok(None));
    assert_eq!(r.unwrap_err(), AnalyzerError::ExternalServiceError);
}

#[test]
fn find_takes_the_first_matching_entry() {
    let mut a = act("dup", "first");
    a.color = "#111111".to_string();
    let mut b = act("dup", "second");
    b.color = "#222222".to_string();
    let found = find_activity_in(&vec![a, b], "dup").unwrap();
    assert_eq!(found.name, "first");
    assert_eq!(found.color, "#111111");
}

#[test]
fn lookup_is_idempotent_on_unchanged_listing() {
    let first = get_activity("b", Ok(Some(listing(&["a", "b"])))).unwrap();
    let second = get_activity("b", Ok(Some(listing(&["a", "b"])))).unwrap();
    assert_eq!(first.id, second.id);
    assert_eq!(first.name, second.name);
    assert_eq!(first.color, second.color);
    assert_eq!(first.integration, second.integration);
    assert_eq!(first.device_side, second.device_side);
}

#[test]
fn created_activity_is_found_again_by_its_id() {
    let echoed = ActivityResponse {
        id: "fresh9".to_string(),
        name: "reading".to_string(),
        color: "#a1b2c3".to_string(),
        integration: "zei".to_string(),
        device_side: Some("2".to_string()),
    };
    let created = create_activity(Ok(Some(echoed))).unwrap();
    let upstream_after = ActivitiesResponse {
        activities: vec![act("other", "noise"), created.duplicate()],
    };
    let fetched = get_activity(&created.id, Ok(Some(upstream_after))).unwrap();
    assert_eq!(fetched.name, "reading");
    assert_eq!(fetched.color, "#a1b2c3");
    assert_eq!(fetched.integration, "zei");
    assert_eq!(fetched.device_side, Some("2".to_string()));
}

#[test]
fn create_folds_call_failure() {
    let r = create_activity(Err(failure()));
    assert_eq!(r.unwrap_err(), AnalyzerError::ExternalServiceError);
}

#[test]
fn edit_passes_the_updated_activity_through() {
    let r = edit_activity(Ok(Some(act("a77", "renamed")))).unwrap();
    assert_eq!(r.id, "a77");
    assert_eq!(r.name, "renamed");
}

#[test]
fn edit_folds_call_failure() {
    let r = edit_activity(Err(failure()));
    assert_eq!(r.unwrap_err(), AnalyzerError::ExternalServiceError);
}

#[test]
fn delete_with_empty_error_list_is_a_success() {
    let r = delete_activity(Ok(Some(ErrorListResponse { errors: vec![] }))).unwrap();
    assert!(r.errors.is_empty());
}

#[test]
fn delete_passes_upstream_errors_through() {
    let r = delete_activity(Ok(Some(ErrorListResponse {
        errors: vec!["still tracking".to_string()],
    })))
    .unwrap();
    assert_eq!(r.errors, vec!["still tracking".to_string()]);
}

#[test]
fn delete_folds_call_failure() {
    let r = delete_activity(Err(failure()));
    assert_eq!(r.unwrap_err(), AnalyzerError::ExternalServiceError);
}

#[test]
fn sign_in_success_yields_the_token() {
    let r = get_jwt(Ok(Some(SignInResponse { token: "jwt-value".to_string() })));
    assert_eq!(r.unwrap(), "jwt-value");
}

#[test]
fn sign_in_failure_yields_no_token() {
    let r = get_jwt(Err(ExternalCallFailure {
        status: Some(401),
        cause: "request error".to_string(),
    }));
    assert_eq!(r.unwrap_err().cause, "request error");
}

#[test]
fn sign_in_garbled_body_yields_no_token() {
    let r = get_jwt(Ok(None));
    assert_eq!(r.unwrap_err().cause, "could not parse json");
}
