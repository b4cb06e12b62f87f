//! Asking the trust service about a session.
//!
//! The library does not talk to the network. It says which request to send,
//! and for each thing that can come back what to do next or what the answer
//! is; the caller sends, reads and reports.

use crate::decision::{verdict, DecisionView};
use crate::score::Score;
use vstd::prelude::*;
use vstd::string::*;

verus! {

/// What the trust service says of a session.
#[derive(Clone, Debug, PartialEq, Eq)]
pub struct TrustResponse {
    pub session_id: String,
    pub trust_score: Score,
    pub reason: Option<String>,
}

/// A `TrustResponse` as a plain value.
pub struct TrustResponseView {
    pub session_id: Seq<char>,
    pub trust_score: Score,
    pub reason: Option<Seq<char>>,
}

impl View for TrustResponse {
    type V = TrustResponseView;

    open spec fn view(&self) -> TrustResponseView {
        TrustResponseView {
            session_id: self.session_id@,
            trust_score: self.trust_score,
            reason: self.reason.deep_view(),
        }
    }
}

/// The request that asks for the trust in one session: a `GET` of `url`
/// with the query parameter `TrustRequest::session_parameter()` set to
/// `session_id`, authorised by the bearer token `bearer`.
#[derive(Clone, Debug, PartialEq, Eq)]
pub struct TrustRequest {
    pub url: String,
    pub session_id: String,
    pub bearer: String,
}

/// Why no trust response was had.
#[derive(Clone, Debug, PartialEq, Eq)]
pub enum TrustError {
    /// The request was not answered: no connection, or the time limit
    /// passed.
    Unreachable { cause: String },
    /// The service answered with success, and its body was no trust
    /// response.
    Malformed { cause: String },
    /// The service answered with a status that is neither a success nor 404.
    /// `status` is the status written out, `body` the text of the reply's
    /// body, empty where it could not be read.
    Status { code: u16, status: String, body: String },
}

/// What the caller reports of the exchange with the trust service.
#[derive(Clone, Debug, PartialEq, Eq)]
pub enum TrustEvent {
    /// Nothing has been sent yet.
    Begin,
    /// The request was not answered.
    Unreachable { cause: String },
    /// The reply's status has arrived.
    Status { code: u16 },
    /// The body of a successful reply was read as a trust response.
    Scored { trust: TrustResponse },
    /// The body of a successful reply could not be read as a trust response.
    Malformed { cause: String },
    /// The body text of a failed reply was read, or found unreadable and
    /// taken as empty.
    Failed { code: u16, status: String, body: String },
}

/// What the caller does next.
#[derive(Debug, PartialEq, Eq)]
pub enum TrustStep {
    /// Send this request, and report `Unreachable` or `Status`.
    Send(TrustRequest),
    /// Read the body as a trust response, and report `Scored` or
    /// `Malformed`.
    ReadScore,
    /// Read the body as text, and report `Failed`.
    ReadFailure,
    /// The exchange is over, with this result.
    Done(Result<TrustResponse, TrustError>),
}

/// Whether a status is a success: 200 to 299.
pub open spec fn is_success(code: u16) -> bool {
    200 <= code <= 299
}

/// The status by which the service says that it does not know a session.
pub const NOT_FOUND: u16 = 404;

/// The path of the trust endpoint below the base URL.
pub open spec fn trust_path() -> Seq<char> {
    "/eguard/trust"@
}

/// The name of the query parameter that carries the session identifier.
pub open spec fn session_parameter() -> Seq<char> {
    "sid"@
}

/// The reason that is given for a session unknown to the service.
pub open spec fn unknown_reason() -> Seq<char> {
    "unknown_session"@
}

/// The response that stands for a session unknown to the service: no trust
/// at all.
pub open spec fn unknown_session(session_id: Seq<char>) -> TrustResponseView {
    TrustResponseView {
        session_id,
        trust_score: Score { bits: 0 },
        reason: Some(unknown_reason()),
    }
}

/// What a status calls for.
pub enum StatusOutcome {
    ReadScore,
    Unknown,
    ReadFailure,
}

/// What a status calls for: a success has its body read as a trust
/// response, 404 means an unknown session, and every other status is a
/// failure whose body is read for the record.
pub open spec fn status_outcome(code: u16) -> StatusOutcome {
    if is_success(code) {
        StatusOutcome::ReadScore
    } else if code == NOT_FOUND {
        StatusOutcome::Unknown
    } else {
        StatusOutcome::ReadFailure
    }
}

/// The error that an event reports, where it reports one.
pub open spec fn failure(event: TrustEvent) -> Option<TrustError> {
    match event {
        TrustEvent::Unreachable { cause } => Some(TrustError::Unreachable { cause }),
        TrustEvent::Malformed { cause } => Some(TrustError::Malformed { cause }),
        TrustEvent::Failed { code, status, body } => Some(TrustError::Status { code, status, body }),
        _ => None,
    }
}

/// How the check of a request ends: with the verdict on the response that
/// was fetched, or with the error that kept a response from being fetched,
/// as it is. `min` is the least score that passes, `rendered` the score
/// written out.
pub open spec fn outcome(
    fetched: Result<TrustResponse, TrustError>,
    min: Score,
    rendered: Seq<char>,
) -> Result<DecisionView, TrustError> {
    match fetched {
        Ok(trust) => Ok(verdict(trust.trust_score, min, rendered)),
        Err(error) => Err(error),
    }
}

impl TrustResponse {
    /// The response that stands for a session unknown to the service.
    pub fn unknown(session_id: &str) -> (trust: TrustResponse)
        ensures
            trust@ == unknown_session(session_id@),
    {
        TrustResponse {
            session_id: String::from_str(session_id),
            trust_score: Score::zero(),
            reason: Some(String::from_str("unknown_session")),
        }
    }
}

impl TrustRequest {
    /// The name of the query parameter that carries the session identifier.
    pub fn session_parameter() -> (name: &'static str)
        ensures
            name@ == session_parameter(),
    {
        "sid"
    }

    /// The request for the trust in `session_id`, to the service at
    /// `api_base_url`, authorised by `api_key`.
    pub fn new(api_base_url: &str, api_key: &str, session_id: &str) -> (request: TrustRequest)
        ensures
            request.url@ == api_base_url@ + trust_path(),
            request.session_id@ == session_id@,
            request.bearer@ == api_key@,
    {
        TrustRequest {
            url: String::from_str(api_base_url).concat("/eguard/trust"),
            session_id: String::from_str(session_id),
            bearer: String::from_str(api_key),
        }
    }
}

impl TrustError {
    /// The error in words, as a plain value.
    pub open spec fn message_text(self) -> Seq<char> {
        match self {
            TrustError::Unreachable { cause } => cause@,
            TrustError::Malformed { cause } => cause@,
            TrustError::Status { code, status, body } => "Trust API error "@ + status@ + ": "@
                + body@,
        }
    }

    /// The error in words.
    pub fn message(&self) -> (text: String)
        ensures
            text@ == self.message_text(),
    {
        match self {
            TrustError::Unreachable { cause } => cause.clone(),
            TrustError::Malformed { cause } => cause.clone(),
            TrustError::Status { code, status, body } => String::from_str(
                "Trust API error ",
            ).concat(status.as_str()).concat(": ").concat(body.as_str()),
        }
    }
}

/// What to do after `event`, in the exchange about `session_id` with the
/// service at `api_base_url`. At the beginning the request is to be sent.
/// An event that ends the exchange gives `Done`: a 404 with the response
/// for an unknown session, a trust response read with that response, and
/// every failure with its error. No failure is turned into a response.
pub fn next_step(api_base_url: &str, api_key: &str, session_id: &str, event: TrustEvent) -> (step:
    TrustStep)
    ensures
        match event {
            TrustEvent::Begin => step matches TrustStep::Send(request) && request.url@
                == api_base_url@ + trust_path() && request.session_id@ == session_id@
                && request.bearer@ == api_key@,
            TrustEvent::Status { code } => match status_outcome(code) {
                StatusOutcome::ReadScore => step is ReadScore,
                StatusOutcome::Unknown => step matches TrustStep::Done(Ok(trust)) && trust@
                    == unknown_session(session_id@),
                StatusOutcome::ReadFailure => step is ReadFailure,
            },
            TrustEvent::Scored { trust } => step == TrustStep::Done(Ok(trust)),
            _ => failure(event) matches Some(error) && step == TrustStep::Done(Err(error)),
        },
{
    match event {
        TrustEvent::Begin => TrustStep::Send(TrustRequest::new(api_base_url, api_key, session_id)),
        TrustEvent::Unreachable { cause } => TrustStep::Done(Err(TrustError::Unreachable { cause })),
        TrustEvent::Status { code } => {
            if 200 <= code && code <= 299 {
                TrustStep::ReadScore
            } else if code == NOT_FOUND {
                TrustStep::Done(Ok(TrustResponse::unknown(session_id)))
            } else {
                TrustStep::ReadFailure
            }
        },
        TrustEvent::Scored { trust } => TrustStep::Done(Ok(trust)),
        TrustEvent::Malformed { cause } => TrustStep::Done(Err(TrustError::Malformed { cause })),
        TrustEvent::Failed { code, status, body } => TrustStep::Done(
            Err(TrustError::Status { code, status, body }),
        ),
    }
}

/// A session unknown to the service is refused under every threshold above
/// zero: its response goes through the comparison like any other, with a
/// score of zero.
pub proof fn lemma_unknown_session_refused(session_id: Seq<char>, min: Score, rendered: Seq<char>)
    requires
        min.rank() > 0,
    ensures
        verdict(unknown_session(session_id).trust_score, min, rendered) is Deny,
{
}

/// A request that fails gives no verdict. Whatever an event reports as
/// failed, be it that no answer came within the time limit, that the body
/// was no trust response or that the status was a failure, is the outcome
/// of the check, unchanged; neither `Allow` nor `Deny` is made of it.
pub proof fn lemma_failure_gives_no_verdict(event: TrustEvent, min: Score, rendered: Seq<char>)
    requires
        failure(event) is Some,
    ensures
        outcome(Err(failure(event)->0), min, rendered) == Err::<DecisionView, TrustError>(
            failure(event)->0,
        ),
        event is Unreachable ==> failure(event)->0 is Unreachable,
{
}

/// A status is a success, the sign of an unknown session, or a failure, and
/// only one of the three: 404 is no success.
pub proof fn lemma_not_found_is_no_success()
    ensures
        status_outcome(NOT_FOUND) is Unknown,
        forall|code: u16| status_outcome(code) is Unknown <==> code == NOT_FOUND,
        forall|code: u16| status_outcome(code) is ReadScore <==> 200 <= code <= 299,
{
}

} // verus!
