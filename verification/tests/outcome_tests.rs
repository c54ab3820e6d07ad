use fcgi_bridge::outcome::{plan_request, rejection_outcome, success_outcome, RequestOutcome, RequestPlan, Role};
use fcgi_bridge::translate::CgiVars;

fn responder_vars() -> CgiVars {
    let mut vars = CgiVars::new();
    vars.push(b"REQUEST_METHOD".to_vec(), b"GET".to_vec());
    vars.push(b"REQUEST_URI".to_vec(), b"/hi".to_vec());
    vars.push(b"HTTP_X_TOKEN".to_vec(), b"abc".to_vec());
    vars
}

#[test]
fn non_responder_role_is_rejected_with_nonzero_outcome() {
    let plan = plan_request(Role::Authorizer, &responder_vars());
    let code = match plan {
        RequestPlan::Reject(code) => code,
        RequestPlan::Proceed(_) => panic!("a non-responder request must not proceed"),
    };
    assert_eq!(code, 1);
    // The rejection is a completion, not a transport failure: the
    // connection stays open for the next request.
    let outcome = rejection_outcome(code);
    assert!(matches!(outcome, RequestOutcome::Complete(1)));
}

#[test]
fn filter_role_is_rejected_too() {
    assert!(matches!(plan_request(Role::Filter, &responder_vars()), RequestPlan::Reject(1)));
}

#[test]
fn responder_role_with_sound_variables_proceeds() {
    let plan = plan_request(Role::Responder, &responder_vars());
    let head = match plan {
        RequestPlan::Proceed(head) => head,
        RequestPlan::Reject(_) => panic!("a sound responder request must proceed"),
    };
    assert_eq!(head.method, b"GET".to_vec());
    assert_eq!(head.uri, b"/hi".to_vec());
    assert_eq!(head.headers, vec![(b"x-token".to_vec(), b"abc".to_vec())]);
}

#[test]
fn responder_role_with_malformed_variables_is_rejected() {
    let mut vars = CgiVars::new();
    vars.push(b"REQUEST_URI".to_vec(), b"/a b".to_vec());
    assert!(matches!(plan_request(Role::Responder, &vars), RequestPlan::Reject(1)));
}

#[test]
fn success_is_completion_zero() {
    assert!(matches!(success_outcome(), RequestOutcome::Complete(0)));
}
