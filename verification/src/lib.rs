//! A guard that decides, request by request, whether a session is trusted
//! enough to pass.
//!
//! The guard tells which requests are under access control, finds the
//! session identifier of a request, steers the exchange with the trust
//! service, and weighs the score that comes back against a threshold. It
//! does no input or output of its own.

pub mod config;
pub mod decision;
pub mod error;
pub mod guard;
pub mod pattern;
pub mod routes;
pub mod score;
pub mod session;
pub mod text;
pub mod transport;
pub mod trust;

pub use config::{default_timeout_ms, EGuardConfig, SecureRoute, SessionExtraction};
pub use decision::Decision;
pub use error::ConfigError;
pub use guard::EGuard;
pub use score::Score;
pub use trust::{TrustError, TrustEvent, TrustRequest, TrustResponse, TrustStep};
