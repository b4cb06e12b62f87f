//! The verdict on a request.

use crate::score::Score;
use vstd::prelude::*;
use vstd::string::*;

verus! {

/// The verdict on one request: let it pass, or refuse it with a status and a
/// message for the client.
#[derive(Clone, Debug, PartialEq, Eq)]
pub enum Decision {
    Allow,
    Deny { status: u16, message: String },
}

/// A verdict as a plain value.
pub enum DecisionView {
    Allow,
    Deny { status: u16, message: Seq<char> },
}

impl View for Decision {
    type V = DecisionView;

    open spec fn view(&self) -> DecisionView {
        match self {
            Decision::Allow => DecisionView::Allow,
            Decision::Deny { status, message } => DecisionView::Deny {
                status: *status,
                message: message@,
            },
        }
    }
}

/// A verdict spread over three fields, for hosts that have no tagged values:
/// `status` and `message` are there exactly when `allow` is false.
#[derive(Clone, Debug, PartialEq, Eq)]
pub struct DecisionFields {
    pub allow: bool,
    pub status: Option<u16>,
    pub message: Option<String>,
}

/// The status that every refusal carries.
pub const DENY_STATUS: u16 = 403;

/// The text that a refusal's message begins with; the score follows it.
pub open spec fn deny_prefix() -> Seq<char> {
    "Low trust score: "@
}

/// The verdict for a score against the least score that passes. `rendered`
/// is the score written out for the message.
pub open spec fn verdict(score: Score, min: Score, rendered: Seq<char>) -> DecisionView {
    if score.reaches(min) {
        DecisionView::Allow
    } else {
        DecisionView::Deny { status: DENY_STATUS, message: deny_prefix() + rendered }
    }
}

impl Decision {
    /// The verdict for `score` where `min` is the least score that passes:
    /// `Allow` when `score >= min`, else `Deny` with status 403 and the
    /// message `Low trust score: ` followed by `rendered`, the score as the
    /// caller writes it out.
    pub fn for_score(score: &Score, min: &Score, rendered: &str) -> (decision: Decision)
        ensures
            decision@ == verdict(*score, *min, rendered@),
    {
        if score.at_least(min) {
            Decision::Allow
        } else {
            let message = String::from_str("Low trust score: ").concat(rendered);
            Decision::Deny { status: DENY_STATUS, message }
        }
    }

    /// The verdict as three fields.
    pub fn into_fields(self) -> (fields: DecisionFields)
        ensures
            fields.allow == (self is Allow),
            fields.status == (match self {
                Decision::Allow => None::<u16>,
                Decision::Deny { status, .. } => Some(status),
            }),
            fields.message == (match self {
                Decision::Allow => None::<String>,
                Decision::Deny { message, .. } => Some(message),
            }),
    {
        match self {
            Decision::Allow => DecisionFields { allow: true, status: None, message: None },
            Decision::Deny { status, message } => DecisionFields {
                allow: false,
                status: Some(status),
                message: Some(message),
            },
        }
    }
}

/// The boundary passes: a score that is a number is allowed against itself.
pub proof fn lemma_boundary_allowed(score: Score, rendered: Seq<char>)
    requires
        !score.is_nan(),
    ensures
        verdict(score, score, rendered) == DecisionView::Allow,
{
}

/// Every refusal carries status 403 and a message that ends with the score
/// as it was written out.
pub proof fn lemma_refusal_shape(score: Score, min: Score, rendered: Seq<char>)
    requires
        !score.reaches(min),
    ensures
        verdict(score, min, rendered) == (DecisionView::Deny {
            status: 403,
            message: deny_prefix() + rendered,
        }),
{
}

} // verus!
