//! The HTTP client, as the `reqwest` crate provides it.
//!
//! Nothing in this file is proved. Whether a client can be built depends on
//! the machine, so no success is promised; the time limit of a client and
//! the text of an error are given names.

use reqwest::Client;
use std::time::Duration;
use vstd::prelude::*;

verus! {

/// `reqwest::Client`, the HTTP client. Nothing inside it is visible to
/// proofs.
#[verifier::external_type_specification]
#[verifier::external_body]
pub struct ExClient(reqwest::Client);

/// `reqwest::Error`, the reason why a client could not be built. Nothing
/// inside it is visible to proofs.
#[verifier::external_type_specification]
#[verifier::external_body]
pub struct ExClientError(reqwest::Error);

/// The time limit, in milliseconds, that a client was built with: what
/// `ClientBuilder::timeout` was given before `ClientBuilder::build` made the
/// client. The builder stores the limit, and `build` moves it into the
/// client as the deadline of each of its requests.
pub uninterp spec fn client_timeout(client: Client) -> u64;

/// What the `Display` of a `reqwest::Error` writes.
pub uninterp spec fn client_error_text(error: reqwest::Error) -> Seq<char>;

/// Builds a client whose requests are given up after `timeout_ms`
/// milliseconds, by `Client::builder`, `ClientBuilder::timeout` and
/// `ClientBuilder::build`. Building fails where the TLS backend or the
/// resolver cannot be set up, and nothing is claimed of when that is. Of a
/// client that was built the contract says that it holds the time limit
/// handed in.
#[verifier::external_body]
pub(crate) fn build_client(timeout_ms: u64) -> (outcome: Result<Client, reqwest::Error>)
    ensures
        outcome matches Ok(client) ==> client_timeout(client) == timeout_ms,
{
    Client::builder().timeout(Duration::from_millis(timeout_ms)).build()
}

/// Writes a `reqwest::Error` out through its `Display`. The contract only
/// names the result.
#[verifier::external_body]
pub(crate) fn error_text(error: &reqwest::Error) -> (text: String)
    ensures
        text@ == client_error_text(*error),
{
    error.to_string()
}

} // verus!
