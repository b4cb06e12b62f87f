//! The configuration of a guard.

use crate::score::Score;
use vstd::prelude::*;

verus! {

/// One rule that puts requests under access control: a regular expression
/// for the path and, where `methods` is set, the HTTP methods that the rule
/// is limited to. A rule without `methods` covers every method.
#[derive(Clone, Debug, PartialEq, Eq)]
pub struct SecureRoute {
    pub path_pattern: String,
    pub methods: Option<Vec<String>>,
}

/// A `SecureRoute` as a plain value.
pub struct SecureRouteView {
    pub path_pattern: Seq<char>,
    pub methods: Option<Seq<Seq<char>>>,
}

impl View for SecureRoute {
    type V = SecureRouteView;

    open spec fn view(&self) -> SecureRouteView {
        SecureRouteView {
            path_pattern: self.path_pattern@,
            methods: self.methods.deep_view(),
        }
    }
}

/// Where the session identifier of a request is looked for: in the cookie
/// named `cookie_name`, then in the header named `header_name`, whose value
/// is freed of a `Bearer ` prefix where `header_bearer` is set.
#[derive(Clone, Debug, PartialEq, Eq)]
pub struct SessionExtraction {
    pub cookie_name: Option<String>,
    pub header_name: Option<String>,
    pub header_bearer: bool,
}

/// A `SessionExtraction` as a plain value.
pub struct SessionExtractionView {
    pub cookie_name: Option<Seq<char>>,
    pub header_name: Option<Seq<char>>,
    pub header_bearer: bool,
}

impl View for SessionExtraction {
    type V = SessionExtractionView;

    open spec fn view(&self) -> SessionExtractionView {
        SessionExtractionView {
            cookie_name: self.cookie_name.deep_view(),
            header_name: self.header_name.deep_view(),
            header_bearer: self.header_bearer,
        }
    }
}

/// All that a guard is built from. It does not change once the guard stands.
#[derive(Clone, Debug, PartialEq, Eq)]
pub struct EGuardConfig {
    pub api_base_url: String,
    pub api_key: String,
    pub secure_routes: Vec<SecureRoute>,
    pub session_extraction: SessionExtraction,
    pub min_trust_score: Score,
    pub timeout_ms: u64,
}

/// An `EGuardConfig` as a plain value.
pub struct EGuardConfigView {
    pub api_base_url: Seq<char>,
    pub api_key: Seq<char>,
    pub secure_routes: Seq<SecureRouteView>,
    pub session_extraction: SessionExtractionView,
    pub min_trust_score: Score,
    pub timeout_ms: u64,
}

impl View for EGuardConfig {
    type V = EGuardConfigView;

    open spec fn view(&self) -> EGuardConfigView {
        EGuardConfigView {
            api_base_url: self.api_base_url@,
            api_key: self.api_key@,
            secure_routes: self.secure_routes@.map_values(|route: SecureRoute| route@),
            session_extraction: self.session_extraction@,
            min_trust_score: self.min_trust_score,
            timeout_ms: self.timeout_ms,
        }
    }
}

/// The time limit of a call to the trust service where none is configured,
/// in milliseconds.
pub fn default_timeout_ms() -> (ms: u64)
    ensures
        ms == 1500,
{
    1500
}

impl EGuardConfig {
    /// A configuration from the options of a host that may leave two of them
    /// out: `header_bearer` is then false, and `timeout_ms` is
    /// `default_timeout_ms()`.
    pub fn from_options(
        api_base_url: String,
        api_key: String,
        secure_routes: Vec<SecureRoute>,
        cookie_name: Option<String>,
        header_name: Option<String>,
        header_bearer: Option<bool>,
        min_trust_score: Score,
        timeout_ms: Option<u32>,
    ) -> (cfg: EGuardConfig)
        ensures
            cfg == (EGuardConfig {
                api_base_url,
                api_key,
                secure_routes,
                session_extraction: SessionExtraction {
                    cookie_name,
                    header_name,
                    header_bearer: header_bearer == Some(true),
                },
                min_trust_score,
                timeout_ms: match timeout_ms {
                    Some(ms) => ms as u64,
                    None => 1500,
                },
            }),
    {
        EGuardConfig {
            api_base_url,
            api_key,
            secure_routes,
            session_extraction: SessionExtraction {
                cookie_name,
                header_name,
                header_bearer: match header_bearer {
                    Some(flag) => flag,
                    None => false,
                },
            },
            min_trust_score,
            timeout_ms: match timeout_ms {
                Some(ms) => ms as u64,
                None => default_timeout_ms(),
            },
        }
    }
}

} // verus!
