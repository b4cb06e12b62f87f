//! Why a guard could not be built.

use vstd::prelude::*;
use vstd::string::*;

verus! {

/// A configuration from which no guard can be built.
#[derive(Clone, Debug, PartialEq, Eq)]
pub enum ConfigError {
    /// The pattern of a route is no regular expression; `cause` says why.
    InvalidRoute { pattern: String, cause: String },
    /// The HTTP client could not be set up; `cause` says why.
    ClientSetup { cause: String },
}

/// A `ConfigError` as a plain value.
pub enum ConfigErrorView {
    InvalidRoute { pattern: Seq<char>, cause: Seq<char> },
    ClientSetup { cause: Seq<char> },
}

impl View for ConfigError {
    type V = ConfigErrorView;

    open spec fn view(&self) -> ConfigErrorView {
        match self {
            ConfigError::InvalidRoute { pattern, cause } => ConfigErrorView::InvalidRoute {
                pattern: pattern@,
                cause: cause@,
            },
            ConfigError::ClientSetup { cause } => ConfigErrorView::ClientSetup { cause: cause@ },
        }
    }
}

impl ConfigErrorView {
    /// The error in words. An invalid route is named by its pattern, as it
    /// stands in the configuration, and by the cause.
    pub open spec fn message(self) -> Seq<char> {
        match self {
            ConfigErrorView::InvalidRoute { pattern, cause } => "Invalid route regex "@ + pattern
                + ": "@ + cause,
            ConfigErrorView::ClientSetup { cause } => cause,
        }
    }
}

impl ConfigError {
    /// The error for a route whose pattern did not compile.
    pub fn invalid_route(pattern: &str, cause: String) -> (error: ConfigError)
        ensures
            error@ == (ConfigErrorView::InvalidRoute { pattern: pattern@, cause: cause@ }),
    {
        ConfigError::InvalidRoute { pattern: String::from_str(pattern), cause }
    }

    /// The error in words.
    pub fn message(&self) -> (text: String)
        ensures
            text@ == self@.message(),
    {
        match self {
            ConfigError::InvalidRoute { pattern, cause } => String::from_str(
                "Invalid route regex ",
            ).concat(pattern.as_str()).concat(": ").concat(cause.as_str()),
            ConfigError::ClientSetup { cause } => cause.clone(),
        }
    }
}

/// The message of an invalid route holds the pattern, letter for letter.
pub proof fn lemma_message_names_pattern(pattern: Seq<char>, cause: Seq<char>)
    ensures
        ({
            let message = (ConfigErrorView::InvalidRoute { pattern, cause }).message();
            let at = "Invalid route regex "@.len() as int;
            &&& at + pattern.len() <= message.len()
            &&& message.subrange(at, at + pattern.len()) == pattern
        }),
{
    let message = (ConfigErrorView::InvalidRoute { pattern, cause }).message();
    let at = "Invalid route regex "@.len() as int;
    assert(message.subrange(at, at + pattern.len()) =~= pattern);
}

} // verus!
