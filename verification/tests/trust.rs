use eguard_core::trust::next_step;
use eguard_core::{
    Decision, Score, TrustError, TrustEvent, TrustRequest, TrustResponse, TrustStep,
};

fn step(event: TrustEvent) -> TrustStep {
    next_step("https://trust.example/api", "test-key", "s-1", event)
}

#[test]
fn exchange_begins_with_the_request() {
    assert_eq!(
        step(TrustEvent::Begin),
        TrustStep::Send(TrustRequest {
            url: "https://trust.example/api/eguard/trust".to_string(),
            session_id: "s-1".to_string(),
            bearer: "test-key".to_string(),
        })
    );
    assert_eq!(
        TrustRequest::new("", "", ""),
        TrustRequest { url: "/eguard/trust".to_string(), session_id: String::new(), bearer: String::new() }
    );
}

#[test]
fn session_travels_in_the_sid_parameter() {
    assert_eq!(TrustRequest::session_parameter(), "sid");
}

#[test]
fn success_status_has_the_body_read() {
    for code in [200u16, 201, 204, 250, 299] {
        assert_eq!(step(TrustEvent::Status { code }), TrustStep::ReadScore, "{code}");
    }
}

#[test]
fn unknown_session_gets_zero_trust() {
    let got = next_step("http://t", "k", "ghost", TrustEvent::Status { code: 404 });
    assert_eq!(
        got,
        TrustStep::Done(Ok(TrustResponse {
            session_id: "ghost".to_string(),
            trust_score: Score::from_bits(0.0f32.to_bits()),
            reason: Some("unknown_session".to_string()),
        }))
    );
    assert_eq!(TrustResponse::unknown("ghost").trust_score, Score::zero());
}

#[test]
fn unknown_session_is_denied_under_a_positive_threshold() {
    let trust = match next_step("http://t", "k", "ghost", TrustEvent::Status { code: 404 }) {
        TrustStep::Done(Ok(trust)) => trust,
        other => panic!("{other:?}"),
    };
    for min in [0.5f32, 1.0e-45, 1.0, f32::INFINITY] {
        let d = Decision::for_score(&trust.trust_score, &Score::from_bits(min.to_bits()), "0");
        assert_eq!(d, Decision::Deny { status: 403, message: "Low trust score: 0".to_string() });
    }
    let d = Decision::for_score(&trust.trust_score, &Score::from_bits(0.0f32.to_bits()), "0");
    assert_eq!(d, Decision::Allow);
}

#[test]
fn other_statuses_have_the_failure_read() {
    for code in [0u16, 100, 199, 300, 301, 400, 401, 403, 405, 500, 503, 999, u16::MAX] {
        assert_eq!(step(TrustEvent::Status { code }), TrustStep::ReadFailure, "{code}");
    }
}

#[test]
fn timeout_fails_without_a_verdict() {
    let cause = "error sending request: operation timed out".to_string();
    assert_eq!(
        step(TrustEvent::Unreachable { cause: cause.clone() }),
        TrustStep::Done(Err(TrustError::Unreachable { cause }))
    );
}

#[test]
fn trust_response_read_is_the_result() {
    let trust = TrustResponse {
        session_id: "s-1".to_string(),
        trust_score: Score::from_bits(0.75f32.to_bits()),
        reason: None,
    };
    assert_eq!(step(TrustEvent::Scored { trust: trust.clone() }), TrustStep::Done(Ok(trust)));
}

#[test]
fn malformed_body_is_an_error() {
    let cause = "error decoding response body".to_string();
    assert_eq!(
        step(TrustEvent::Malformed { cause: cause.clone() }),
        TrustStep::Done(Err(TrustError::Malformed { cause }))
    );
}

#[test]
fn failed_status_carries_code_and_body() {
    let got = step(TrustEvent::Failed {
        code: 500,
        status: "500 Internal Server Error".to_string(),
        body: "boom".to_string(),
    });
    let error = match got {
        TrustStep::Done(Err(error)) => error,
        other => panic!("{other:?}"),
    };
    assert_eq!(
        error,
        TrustError::Status {
            code: 500,
            status: "500 Internal Server Error".to_string(),
            body: "boom".to_string(),
        }
    );
    assert_eq!(error.message(), "Trust API error 500 Internal Server Error: boom");
}

#[test]
fn failed_status_with_unreadable_body_has_empty_text() {
    let error = TrustError::Status {
        code: 502,
        status: "502 Bad Gateway".to_string(),
        body: String::new(),
    };
    assert_eq!(error.message(), "Trust API error 502 Bad Gateway: ");
}

#[test]
fn transport_and_body_errors_say_their_cause() {
    assert_eq!(TrustError::Unreachable { cause: "no route".to_string() }.message(), "no route");
    assert_eq!(TrustError::Malformed { cause: "not json".to_string() }.message(), "not json");
}
