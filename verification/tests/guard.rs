use eguard_core::{
    ConfigError, Decision, EGuard, EGuardConfig, Score, SecureRoute, SessionExtraction, TrustError,
    TrustEvent, TrustRequest, TrustResponse, TrustStep,
};

fn route(pattern: &str, methods: Option<&[&str]>) -> SecureRoute {
    SecureRoute {
        path_pattern: pattern.to_string(),
        methods: methods.map(|ms| ms.iter().map(|m| m.to_string()).collect()),
    }
}

fn config(routes: Vec<SecureRoute>) -> EGuardConfig {
    EGuardConfig {
        api_base_url: "http://127.0.0.1:9".to_string(),
        api_key: "test-key".to_string(),
        secure_routes: routes,
        session_extraction: SessionExtraction {
            cookie_name: Some("sid".to_string()),
            header_name: Some("Authorization".to_string()),
            header_bearer: true,
        },
        min_trust_score: Score::from_bits(0.5f32.to_bits()),
        timeout_ms: 1500,
    }
}

fn guard(routes: Vec<SecureRoute>) -> EGuard {
    match EGuard::new(config(routes)) {
        Ok(guard) => guard,
        Err(error) => panic!("{}", error.message()),
    }
}

/// The rule for one request, written out with the `regex` crate and the
/// standard library.
fn secure_by_hand(routes: &[SecureRoute], path: &str, method: &str) -> bool {
    let m = method.to_uppercase();
    routes.iter().any(|r| {
        regex::Regex::new(&r.path_pattern).unwrap().is_match(path)
            && match &r.methods {
                None => true,
                Some(ms) => ms.iter().any(|x| x.to_uppercase() == m),
            }
    })
}

#[test]
fn secure_iff_some_route_covers_the_request() {
    let routes = vec![
        route("^/admin", Some(&["GET", "POST"])),
        route("^/api/v[0-9]+/private$", None),
        route("/billing/", Some(&["delete"])),
        route("^/never$", Some(&[])),
    ];
    let g = guard(routes.clone());
    let paths = [
        "/admin",
        "/admin/users",
        "/x/admin",
        "/api/v1/private",
        "/api/v12/private",
        "/api/v1/private/",
        "/shop/billing/1",
        "/billing",
        "/never",
        "/",
        "",
    ];
    let methods = ["GET", "get", "Post", "PUT", "DELETE", "delete", "OPTIONS", ""];
    for p in paths {
        for m in methods {
            assert_eq!(g.is_secure(p, m), secure_by_hand(&routes, p, m), "{p:?} {m:?}");
        }
    }
    assert!(g.is_secure("/admin", "GET"));
    assert!(!g.is_secure("/admin", "PUT"));
    assert!(g.is_secure("/api/v1/private", "PATCH"));
    assert!(!g.is_secure("/public", "GET"));
}

#[test]
fn method_case_does_not_matter() {
    let g = guard(vec![route("/admin", Some(&["GET"]))]);
    assert_eq!(g.is_secure("/admin", "get"), g.is_secure("/admin", "GET"));
    assert!(g.is_secure("/admin", "get"));
    assert!(g.is_secure("/admin", "Get"));
    assert!(!g.is_secure("/admin", "post"));
}

#[test]
fn configured_methods_are_taken_to_upper_case() {
    let g = guard(vec![route("^/a$", Some(&["get", "Post"]))]);
    assert!(g.is_secure("/a", "GET"));
    assert!(g.is_secure("/a", "post"));
    assert!(!g.is_secure("/a", "PUT"));
}

#[test]
fn route_without_methods_covers_every_method() {
    let g = guard(vec![route("^/all", None)]);
    for m in ["GET", "post", "TRACE", "", "anything at all"] {
        assert!(g.is_secure("/all/x", m), "{m:?}");
        assert!(!g.is_secure("/other", m), "{m:?}");
    }
}

#[test]
fn route_with_an_empty_method_list_covers_nothing() {
    let g = guard(vec![route(".*", Some(&[]))]);
    assert!(!g.is_secure("/x", "GET"));
    assert!(!g.is_secure("/x", ""));
}

#[test]
fn pattern_matches_anywhere_unless_anchored() {
    let g = guard(vec![route("admin", None)]);
    assert!(g.is_secure("/x/admin/y", "GET"));
    let g = guard(vec![route("^/admin$", None)]);
    assert!(g.is_secure("/admin", "GET"));
    assert!(!g.is_secure("/x/admin", "GET"));
    assert!(!g.is_secure("/admin/", "GET"));
}

#[test]
fn path_is_taken_as_it_stands() {
    let g = guard(vec![route("^/a b$", None)]);
    assert!(g.is_secure("/a b", "GET"));
    assert!(!g.is_secure("/a%20b", "GET"));
    assert!(!g.is_secure("/A B", "GET"));
}

#[test]
fn no_routes_means_nothing_is_secure() {
    let g = guard(vec![]);
    assert!(!g.is_secure("/admin", "GET"));
    assert!(!g.is_secure("", ""));
}

#[test]
fn later_route_still_counts() {
    let g = guard(vec![route("^/a$", Some(&["POST"])), route("^/a$", Some(&["GET"]))]);
    assert!(g.is_secure("/a", "GET"));
    assert!(g.is_secure("/a", "POST"));
    assert!(!g.is_secure("/a", "PUT"));
}

#[test]
fn invalid_pattern_fails_construction_and_is_named() {
    let error = match EGuard::new(config(vec![route("(", None)])) {
        Ok(_) => panic!("a guard was built"),
        Err(error) => error,
    };
    let by_regex = regex::Regex::new("(").unwrap_err().to_string();
    assert_eq!(
        error,
        ConfigError::InvalidRoute { pattern: "(".to_string(), cause: by_regex.clone() }
    );
    assert_eq!(error.message(), format!("Invalid route regex (: {by_regex}"));
}

#[test]
fn first_invalid_pattern_is_the_one_reported() {
    let routes = vec![route("^/ok$", None), route("[a-", Some(&["GET"])), route("(", None)];
    match EGuard::new(config(routes)) {
        Err(ConfigError::InvalidRoute { pattern, cause }) => {
            assert_eq!(pattern, "[a-");
            assert_eq!(cause, regex::Regex::new("[a-").unwrap_err().to_string());
        }
        Err(other) => panic!("{other:?}"),
        Ok(_) => panic!("a guard was built"),
    }
}

#[test]
fn pattern_too_large_fails_construction() {
    let pattern = r"\w{1000}{1000}";
    match EGuard::new(config(vec![route(pattern, None)])) {
        Err(ConfigError::InvalidRoute { pattern: named, cause }) => {
            assert_eq!(named, pattern);
            assert_eq!(cause, regex::Regex::new(pattern).unwrap_err().to_string());
        }
        Err(other) => panic!("{other:?}"),
        Ok(_) => panic!("a guard was built"),
    }
}

#[test]
fn client_that_could_not_be_set_up_is_the_error() {
    let failure = reqwest::Client::builder().user_agent("\n").build().unwrap_err();
    let text = failure.to_string();
    match EGuard::with_client(config(vec![route("(", None)]), Err(failure)) {
        Err(error) => {
            assert_eq!(error, ConfigError::ClientSetup { cause: text.clone() });
            assert_eq!(error.message(), text);
        }
        Ok(_) => panic!("a guard was built"),
    }
}

#[test]
fn guard_is_built_around_a_client_at_hand() {
    let client = reqwest::Client::builder().build();
    assert!(client.is_ok());
    let g = match EGuard::with_client(config(vec![route("^/a", None)]), client) {
        Ok(g) => g,
        Err(error) => panic!("{error:?}"),
    };
    assert!(g.is_secure("/a", "GET"));
    let client = reqwest::Client::builder().build();
    assert!(matches!(
        EGuard::with_client(config(vec![route("(", None)]), client),
        Err(ConfigError::InvalidRoute { .. })
    ));
}

#[test]
fn client_is_built_with_the_configured_time_limit() {
    for ms in [1500u64, 250, 1, 60_000] {
        let mut cfg = config(vec![]);
        cfg.timeout_ms = ms;
        let g = match EGuard::new(cfg) {
            Ok(g) => g,
            Err(error) => panic!("{error:?}"),
        };
        let shown = format!("{:?}", g.client());
        let limit = format!("TotalTimeout: {:?}", std::time::Duration::from_millis(ms));
        assert!(shown.contains(&limit), "{shown} lacks {limit}");
    }
}

#[test]
fn guard_keeps_its_configuration() {
    let cfg = config(vec![route("^/a", Some(&["get"]))]);
    let g = guard(cfg.secure_routes.clone());
    assert_eq!(g.configuration(), &cfg);
    let copy = g.clone();
    assert_eq!(copy.configuration(), &cfg);
    assert_eq!(copy.is_secure("/a", "GET"), g.is_secure("/a", "GET"));
    let _client: &reqwest::Client = g.client();
}

#[test]
fn guard_extracts_by_its_configuration() {
    let g = guard(vec![]);
    assert_eq!(
        g.extract_session_id(Some("a=1; sid=xyz; b=2"), Some(("Authorization", "Bearer t")))
            .as_deref(),
        Some("xyz")
    );
    assert_eq!(
        g.extract_session_id(Some("a=1"), Some(("authorization", "Bearer t"))).as_deref(),
        Some("t")
    );
    assert_eq!(g.extract_session_id(None, Some(("authorization", "t"))).as_deref(), Some("t"));
    assert_eq!(g.extract_session_id(Some("a=1"), Some(("X-Other", "t"))), None);
    assert_eq!(g.extract_session_id(None, None), None);
}

#[test]
fn guard_decides_against_its_threshold() {
    let g = guard(vec![]);
    let trust = |score: f32| {
        Ok(TrustResponse {
            session_id: "s".to_string(),
            trust_score: Score::from_bits(score.to_bits()),
            reason: None,
        })
    };
    assert_eq!(g.decide(trust(0.5), "0.5"), Ok(Decision::Allow));
    assert_eq!(g.decide(trust(0.9), "0.9"), Ok(Decision::Allow));
    assert_eq!(
        g.decide(trust(0.4999), "0.4999"),
        Ok(Decision::Deny { status: 403, message: "Low trust score: 0.4999".to_string() })
    );
    assert_eq!(
        g.decide(Ok(TrustResponse::unknown("ghost")), "0"),
        Ok(Decision::Deny { status: 403, message: "Low trust score: 0".to_string() })
    );
}

#[test]
fn guard_hands_a_failure_on_without_a_verdict() {
    let g = guard(vec![]);
    let timed_out = TrustError::Unreachable { cause: "operation timed out".to_string() };
    let fetched = match g.fetch_trust("s", TrustEvent::Unreachable { cause: "operation timed out".to_string() }) {
        TrustStep::Done(fetched) => fetched,
        other => panic!("{other:?}"),
    };
    assert_eq!(fetched, Err(timed_out.clone()));
    assert_eq!(g.decide(fetched, ""), Err(timed_out));

    let malformed = TrustError::Malformed { cause: "not json".to_string() };
    assert_eq!(g.decide(Err(malformed.clone()), "0.9"), Err(malformed));
    let status = TrustError::Status {
        code: 503,
        status: "503 Service Unavailable".to_string(),
        body: "later".to_string(),
    };
    assert_eq!(g.decide(Err(status.clone()), "1"), Err(status));
}

#[test]
fn guard_asks_its_own_service() {
    let g = guard(vec![]);
    assert_eq!(
        g.fetch_trust("abc", TrustEvent::Begin),
        TrustStep::Send(TrustRequest {
            url: "http://127.0.0.1:9/eguard/trust".to_string(),
            session_id: "abc".to_string(),
            bearer: "test-key".to_string(),
        })
    );
    assert_eq!(g.fetch_trust("abc", TrustEvent::Status { code: 200 }), TrustStep::ReadScore);
    assert_eq!(g.fetch_trust("abc", TrustEvent::Status { code: 500 }), TrustStep::ReadFailure);
    assert_eq!(
        g.fetch_trust("ghost", TrustEvent::Status { code: 404 }),
        TrustStep::Done(Ok(TrustResponse::unknown("ghost")))
    );
}
