//! The trusted boundary to the HTTP client: one attempt of each request
//! shape, and the reading of a response body. Everything here hands the
//! network's answer back untouched, with a failure rendered to its message
//! text; the fallback policy, the request construction — URL, header
//! value, body — and the body parsing around it are verified elsewhere
//! and passed in ready-made.

use vstd::prelude::*;

verus! {

/// One delivered HTTP response of the blocking client, declared so that it
/// can pass through signatures; a value of it is opaque here.
#[verifier::external_type_specification]
#[verifier::external_body]
pub struct ExBlockingResponse(reqwest::blocking::Response);

/// Why a call failed. The transport and read variants carry the failure's
/// message text; the malformed variant carries the body that failed to
/// read as the operation's result type.
pub enum LifxError {
    /// The request never completed at the transport level — connection
    /// refused, name resolution failure, timeout — at the last endpoint
    /// attempted. Only this class of failure triggers the one-shot
    /// fallback; a delivered response never does.
    Transport(String),
    /// A response was delivered but its body could not be read.
    Read(String),
    /// The response body was read but does not have the shape the
    /// operation's result type expects; the body text is carried here.
    Malformed(String),
}

/// Relies on reqwest::blocking: builds a client, issues one GET request to
/// the given URL with the given text as the value of the `Authorization`
/// header, and returns whatever the network yields, a failure — of
/// building the client or of the request — rendered to its message text.
/// The outcome depends on the network, so nothing is promised of it.
#[verifier::external_body]
pub(crate) fn send_get(url: &String, auth: &String) -> (r: Result<
    reqwest::blocking::Response,
    String,
>) {
    match reqwest::blocking::Client::builder().build() {
        Ok(client) => client.get(url.as_str()).header(
            "Authorization",
            auth.as_str(),
        ).send().map_err(|e| e.to_string()),
        Err(e) => Err(e.to_string()),
    }
}

/// Relies on reqwest::blocking: one POST request with a form-encoded body
/// made of the given key/value pairs, and the given `Authorization` value;
/// otherwise as [`send_get`].
#[verifier::external_body]
pub(crate) fn send_post_form(url: &String, auth: &String, pairs: &Vec<(String, String)>) -> (r:
    Result<reqwest::blocking::Response, String>) {
    match reqwest::blocking::Client::builder().build() {
        Ok(client) => client.post(url.as_str()).header(
            "Authorization",
            auth.as_str(),
        ).form(pairs).send().map_err(|e| e.to_string()),
        Err(e) => Err(e.to_string()),
    }
}

/// Relies on reqwest::blocking: one PUT request with a form-encoded body
/// made of the given key/value pairs, and the given `Authorization` value;
/// otherwise as [`send_get`].
#[verifier::external_body]
pub(crate) fn send_put_form(url: &String, auth: &String, pairs: &Vec<(String, String)>) -> (r:
    Result<reqwest::blocking::Response, String>) {
    match reqwest::blocking::Client::builder().build() {
        Ok(client) => client.put(url.as_str()).header(
            "Authorization",
            auth.as_str(),
        ).form(pairs).send().map_err(|e| e.to_string()),
        Err(e) => Err(e.to_string()),
    }
}

/// Relies on reqwest::blocking: one PUT request whose body is the given
/// text, sent as JSON, with the given `Authorization` value; otherwise as
/// [`send_get`].
#[verifier::external_body]
pub(crate) fn send_put_json(url: &String, auth: &String, body: &String) -> (r: Result<
    reqwest::blocking::Response,
    String,
>) {
    match reqwest::blocking::Client::builder().build() {
        Ok(client) => client.put(url.as_str()).header(
            "Authorization",
            auth.as_str(),
        ).header("Content-Type", "application/json").body(body.clone()).send().map_err(
            |e| e.to_string(),
        ),
        Err(e) => Err(e.to_string()),
    }
}

/// Relies on reqwest::blocking::Response::text: reads the whole response
/// body as text, a failure rendered to its message text. A failure here is
/// a hard error of the call, never a trigger for the fallback.
#[verifier::external_body]
pub(crate) fn read_body(resp: reqwest::blocking::Response) -> (r: Result<String, String>) {
    resp.text().map_err(|e| e.to_string())
}

} // verus!
