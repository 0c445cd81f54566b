use repo_zipper::config::{
    default_compression_level, default_config, default_server_url, default_true,
};
use repo_zipper::eligibility::{
    check_url, elapsed_hours_minutes, interpret_check_response, EligibilityDecision,
};
use repo_zipper::errors::SubmitError;
use repo_zipper::upload::{interpret_upload_response, submit_url};

#[test]
fn defaults_match_the_documented_values() {
    assert!(default_true());
    assert_eq!(default_server_url(), "http://localhost:3000");
    assert_eq!(default_compression_level(), 6);
}

#[test]
fn fresh_config_holds_the_conventional_values() {
    let c = default_config(None, Some(String::from("c-7")));
    assert_eq!(c.api_key, "your-api-key-here");
    assert_eq!(c.competition_id, Some(String::from("c-7")));
    assert_eq!(c.format, None);
    assert_eq!(c.server_url, "http://localhost:3000");
    assert_eq!(c.compression_level, 6);
    assert_eq!(
        c.exclude,
        vec![
            String::from(".git"),
            String::from(".DS_Store"),
            String::from("node_modules"),
            String::from("target"),
            String::from(".env"),
            String::from("venv"),
        ]
    );
    assert!(!c.auto_confirm);
    assert!(c.save_history);
}

#[test]
fn fresh_config_keeps_a_given_api_key() {
    let c = default_config(Some(String::from("k-123")), None);
    assert_eq!(c.api_key, "k-123");
    assert_eq!(c.competition_id, None);
}

#[test]
fn check_url_carries_the_competition_query() {
    assert_eq!(
        check_url("http://localhost:3000", &Some(String::from("spring-cup"))),
        "http://localhost:3000/check?competition=spring-cup"
    );
    assert_eq!(check_url("http://localhost:3000", &None), "http://localhost:3000/check");
}

#[test]
fn submit_url_is_the_fixed_path() {
    assert_eq!(submit_url("http://localhost:3000"), "http://localhost:3000/submit");
}

fn decision() -> EligibilityDecision {
    EligibilityDecision {
        approved: true,
        required_format: String::from("repo"),
        remaining_attempts: 4,
        last_submission: Some(1000),
        competition_name: Some(String::from("Spring Cup")),
    }
}

#[test]
fn check_success_yields_the_decision() {
    let r = interpret_check_response(200, String::from("{}"), Some(decision()));
    let d = r.expect("decision");
    assert!(d.approved);
    assert_eq!(d.required_format, "repo");
    assert_eq!(d.remaining_attempts, 4);
    assert_eq!(d.last_submission, Some(1000));
    assert_eq!(d.competition_name, Some(String::from("Spring Cup")));
}

#[test]
fn check_rejection_carries_status_and_body() {
    let r = interpret_check_response(503, String::from("maintenance"), Some(decision()));
    assert_eq!(
        r.map(|_| ()),
        Err(SubmitError::ServerRejected { status: 503, body: String::from("maintenance") })
    );
}

#[test]
fn check_unreadable_body_is_a_protocol_error() {
    let r = interpret_check_response(204, String::new(), None);
    assert!(matches!(r.map(|_| ()), Err(SubmitError::ProtocolError(_))));
}

#[test]
fn upload_success_surfaces_the_body() {
    assert_eq!(
        interpret_upload_response(200, String::from("thanks")),
        Ok(String::from("thanks"))
    );
    assert_eq!(interpret_upload_response(299, String::from("ok")), Ok(String::from("ok")));
}

#[test]
fn upload_rejection_carries_status_and_body() {
    assert_eq!(
        interpret_upload_response(413, String::from("too large")),
        Err(SubmitError::ServerRejected { status: 413, body: String::from("too large") })
    );
    assert_eq!(
        interpret_upload_response(301, String::from("moved")),
        Err(SubmitError::ServerRejected { status: 301, body: String::from("moved") })
    );
}

#[test]
fn elapsed_time_splits_into_hours_and_minutes() {
    // 7384 seconds are 2 hours, 3 minutes and 4 seconds.
    assert_eq!(elapsed_hours_minutes(10_000, 2_616), (2, 3));
    assert_eq!(elapsed_hours_minutes(3_600, 0), (1, 0));
    assert_eq!(elapsed_hours_minutes(59, 0), (0, 0));
    assert_eq!(elapsed_hours_minutes(0, 0), (0, 0));
}

#[test]
fn elapsed_time_is_zero_for_a_future_timestamp() {
    assert_eq!(elapsed_hours_minutes(100, 200), (0, 0));
}
