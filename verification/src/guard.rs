//! The guard: one configuration, compiled once, answering for every
//! request.
//!
//! A guard never changes after it is built, so any number of callers may
//! share it.

use crate::config::EGuardConfig;
use crate::decision::Decision;
use crate::error::{ConfigError, ConfigErrorView};
use crate::pattern::to_uppercase;
use crate::routes::{
    all_compile, compile_routes, is_route_error, route_applies, routes_compiled, secure,
    CompiledRoute,
};
use crate::session::session_id;
use crate::transport::{build_client, client_error_text, client_timeout, error_text};
use crate::trust::{
    failure, next_step, outcome, status_outcome, trust_path, unknown_session, StatusOutcome,
    TrustError, TrustEvent, TrustResponse, TrustStep,
};
use reqwest::Client;
use std::sync::Arc;
use vstd::prelude::*;

verus! {

/// What a guard holds: the configuration it was built from, the HTTP client
/// for the trust service, and the configured routes in compiled form.
struct Parts {
    cfg: EGuardConfig,
    client: Client,
    routes: Vec<CompiledRoute>,
}

impl Parts {
    /// The compiled routes are, one for one, what the configured routes
    /// compile to.
    #[verifier::type_invariant]
    spec fn routes_in_step(&self) -> bool {
        routes_compiled(self.routes@, self.cfg@.secure_routes)
    }
}

/// A guard. Its copies share what it holds, so a copy is cheap.
#[derive(Clone)]
pub struct EGuard {
    parts: Arc<Parts>,
}

impl EGuard {
    /// The configuration that the guard was built from.
    pub closed spec fn config(&self) -> EGuardConfig {
        self.parts.cfg
    }

    /// The HTTP client that the guard owns.
    pub closed spec fn transport(&self) -> Client {
        self.parts.client
    }

    /// Builds a guard from `cfg`. The HTTP client is set up first, with the
    /// configured time limit, and whether that succeeds is for the machine
    /// to say; where it does not, the error gives what the client said as
    /// the cause. Then every route is compiled. With a client at hand, the
    /// guard is built exactly when every pattern compiles, and the error
    /// otherwise names the first pattern that does not.
    pub fn new(cfg: EGuardConfig) -> (built: Result<EGuard, ConfigError>)
        ensures
            match built {
                Ok(guard) => guard.config() == cfg && all_compile(cfg@.secure_routes)
                    && client_timeout(guard.transport()) == cfg.timeout_ms,
                Err(error) => is_route_error(cfg@.secure_routes, error@) || exists|
                    failure: reqwest::Error,
                |
                    error@ == (ConfigErrorView::ClientSetup {
                        cause: #[trigger] client_error_text(failure),
                    }),
            },
    {
        let client = build_client(cfg.timeout_ms);
        EGuard::with_client(cfg, client)
    }

    /// Builds a guard from `cfg` and from what setting up the HTTP client
    /// gave. A client that could not be set up is the error; else the
    /// guard is built exactly when every pattern compiles, and the error
    /// names the first pattern that does not.
    pub fn with_client(cfg: EGuardConfig, client: Result<Client, reqwest::Error>) -> (built: Result<
        EGuard,
        ConfigError,
    >)
        ensures
            match built {
                Ok(guard) => client == Ok::<Client, reqwest::Error>(guard.transport())
                    && guard.config() == cfg && all_compile(cfg@.secure_routes),
                Err(error) => match client {
                    Err(failure) => error@ == (ConfigErrorView::ClientSetup {
                        cause: client_error_text(failure),
                    }),
                    Ok(_) => is_route_error(cfg@.secure_routes, error@),
                },
            },
    {
        let client = match client {
            Ok(client) => client,
            Err(failure) => {
                return Err(ConfigError::ClientSetup { cause: error_text(&failure) });
            },
        };
        let routes = match compile_routes(&cfg.secure_routes) {
            Ok(routes) => routes,
            Err(error) => {
                return Err(error);
            },
        };
        proof {
            assert forall|i: int| 0 <= i < cfg@.secure_routes.len() implies crate::routes::compiles(
                #[trigger] cfg@.secure_routes[i].path_pattern,
            ) by {
                assert(routes@[i].compiled_from(cfg@.secure_routes[i]));
            }
        }
        Ok(EGuard { parts: Arc::new(Parts { cfg, client, routes }) })
    }

    /// The configuration that the guard was built from.
    pub fn configuration(&self) -> (cfg: &EGuardConfig)
        ensures
            *cfg == self.config(),
    {
        &self.parts.cfg
    }

    /// The HTTP client that the guard owns.
    pub fn client(&self) -> (client: &Client)
        ensures
            *client == self.transport(),
    {
        &self.parts.client
    }

    /// Whether a request for `path` with the method `method` is under
    /// access control: whether at least one configured route covers it.
    pub fn is_secure(&self, path: &str, method: &str) -> (yes: bool)
        ensures
            yes == secure(self.config()@.secure_routes, path@, method@),
    {
        let parts: &Parts = &self.parts;
        proof {
            use_type_invariant(parts);
        }
        let upper = to_uppercase(method);
        let mut i: usize = 0;
        while i < parts.routes.len()
            invariant
                *parts == *self.parts,
                i <= parts.routes.len(),
                routes_compiled(parts.routes@, parts.cfg@.secure_routes),
                upper@ == crate::pattern::uppercase(method@),
                forall|k: int|
                    0 <= k < i ==> !route_applies(
                        #[trigger] parts.cfg@.secure_routes[k],
                        path@,
                        method@,
                    ),
            decreases parts.routes.len() - i,
        {
            assert(parts.routes@[i as int].compiled_from(parts.cfg@.secure_routes[i as int]));
            if parts.routes[i].applies(path, upper.as_str()) {
                assert(route_applies(parts.cfg@.secure_routes[i as int], path@, method@));
                return true;
            }
            i = i + 1;
        }
        false
    }

    /// The session identifier of a request, from its cookie header and from
    /// the one header that the host picked, either of which may be missing.
    /// The cookie is tried first. `None` says that the request carries no
    /// session identifier.
    pub fn extract_session_id(
        &self,
        cookies: Option<&str>,
        header_name_val: Option<(&str, &str)>,
    ) -> (id: Option<String>)
        ensures
            id.deep_view() == session_id(
                self.config()@.session_extraction,
                cookies.deep_view(),
                header_name_val.deep_view(),
            ),
    {
        self.parts.cfg.session_extraction.extract(cookies, header_name_val)
    }

    /// One step of asking the trust service about `session_id`: what to do
    /// after `event`. The caller begins with `TrustEvent::Begin`, does what
    /// each step says, and reports what came of it, until a step is `Done`.
    pub fn fetch_trust(&self, session_id: &str, event: TrustEvent) -> (step: TrustStep)
        ensures
            match event {
                TrustEvent::Begin => step matches TrustStep::Send(request) && request.url@
                    == self.config()@.api_base_url + trust_path() && request.session_id@
                    == session_id@ && request.bearer@ == self.config()@.api_key,
                TrustEvent::Status { code } => match status_outcome(code) {
                    StatusOutcome::ReadScore => step is ReadScore,
                    StatusOutcome::Unknown => step matches TrustStep::Done(Ok(trust)) && trust@
                        == unknown_session(session_id@),
                    StatusOutcome::ReadFailure => step is ReadFailure,
                },
                TrustEvent::Scored { trust } => step == TrustStep::Done(Ok(trust)),
                _ => failure(event) matches Some(error) && step == TrustStep::Done(Err(error)),
            },
    {
        next_step(
            self.parts.cfg.api_base_url.as_str(),
            self.parts.cfg.api_key.as_str(),
            session_id,
            event,
        )
    }

    /// The decision on a request, given in `fetched` what asking the trust
    /// service came to. An error is handed on as it is, and no decision is
    /// made of it. A response is weighed: the decision is `Allow` when its
    /// score is at least the configured minimum, else `Deny` with status
    /// 403 and the message `Low trust score: ` followed by `rendered`, the
    /// score as the caller writes it out.
    pub fn decide(&self, fetched: Result<TrustResponse, TrustError>, rendered: &str) -> (decision:
        Result<Decision, TrustError>)
        ensures
            match outcome(fetched, self.config().min_trust_score, rendered@) {
                Ok(verdict) => decision matches Ok(given) && given@ == verdict,
                Err(error) => decision == Err::<Decision, TrustError>(error),
            },
    {
        match fetched {
            Ok(trust) => Ok(
                Decision::for_score(&trust.trust_score, &self.parts.cfg.min_trust_score, rendered),
            ),
            Err(error) => Err(error),
        }
    }
}

} // verus!
