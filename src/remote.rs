//! What goes to the GitHub API and what comes back, as plain values: the
//! caller performs the request and hands the reply back.

use vstd::prelude::*;

use crate::error::{ErrorResponse, FreshEyesError};
use crate::text::{decimal, decimal_of};

verus! {

/// The HTTP method of a request, with the JSON body that a `POST` carries.
#[allow(non_camel_case_types)]
#[derive(Debug)]
pub enum RequestMethod {
    GET,
    POST(String),
}

/// One request to the GitHub API, ready to be sent.
#[derive(Debug)]
pub struct ApiRequest {
    pub method: RequestMethod,
    pub url: String,
    /// Header names and values, in order.
    pub headers: Vec<(String, String)>,
}

/// One side (base or head) of a pull request, as GitHub describes it.
#[derive(Debug)]
pub struct PullRequestSide {
    pub sha: Option<String>,
    pub ref_name: Option<String>,
    /// `user.login`: the account that owns this side's repository.
    pub login: Option<String>,
}

/// The fields of a GitHub JSON reply that this library reads; a field that
/// the reply lacks, or that has another JSON type, is `None`.
#[derive(Debug)]
pub struct ResponseData {
    pub html_url: Option<String>,
    /// `owner.login`
    pub owner_login: Option<String>,
    pub number: Option<u64>,
    pub title: Option<String>,
    pub body: Option<String>,
    pub base: PullRequestSide,
    pub head: PullRequestSide,
}

/// A reply that GitHub sent: its status code and its decoded body.
#[derive(Debug)]
pub struct Response {
    pub status: u16,
    pub data: ResponseData,
}

/// What came of sending a request: the reply, or the transport failure that
/// kept it from arriving, described.
pub type Reply = Result<Response, String>;

/// The address under which the API serves a repository.
pub open spec fn repo_url(owner: Seq<char>, repo: Seq<char>) -> Seq<char> {
    "https://api.github.com/repos/"@ + owner + "/"@ + repo
}

/// The headers of every request: a user agent, the API version, and the
/// bearer credential.
pub open spec fn has_api_headers(headers: Seq<(String, String)>, token: Seq<char>) -> bool {
    &&& headers.len() == 3
    &&& headers[0].0@ == "User-Agent"@
    &&& headers[0].1@ == "Fresh Eyes"@
    &&& headers[1].0@ == "Authorization"@
    &&& headers[1].1@ == "Bearer "@ + token
    &&& headers[2].0@ == "Accept"@
    &&& headers[2].1@ == "application/vnd.github.v3+json"@
}

/// A status code in the 2xx range.
pub open spec fn is_success(status: u16) -> bool {
    200 <= status && status <= 299
}

/// The message that a status outside the 2xx range is reported with.
pub open spec fn status_message(status: u16) -> Seq<char> {
    "status code is not a OK response: "@ + decimal_of(status as nat)
}

/// `e` reports the status `status` with the message `message`.
pub open spec fn is_status_error(e: FreshEyesError, status: u16, message: Seq<char>) -> bool {
    &&& e is StatusCodeError
    &&& e->StatusCodeError_0.status == status
    &&& e->StatusCodeError_0.message@ == message
}

/// The reply arrived with a 2xx status.
pub open spec fn reply_succeeded(reply: Reply) -> bool {
    reply is Ok && is_success(reply->Ok_0.status)
}

/// The reply arrived with exactly this status.
pub open spec fn reply_has_status(reply: Reply, status: u16) -> bool {
    reply is Ok && reply->Ok_0.status == status
}

/// `e` is how a reply that did not succeed is reported: a transport failure
/// as it is, a status with the generic status message.
pub open spec fn reply_failure(reply: Reply, e: FreshEyesError) -> bool {
    match reply {
        Ok(resp) => is_status_error(e, resp.status, status_message(resp.status)),
        Err(t) => e == FreshEyesError::RequestError(t),
    }
}

/// The headers for a request made with the credential `token`.
pub fn request_headers(token: &str) -> (r: Vec<(String, String)>)
    ensures
        has_api_headers(r@, token@),
{
    let mut auth = String::from_str("Bearer ");
    auth.append(token);
    let mut r: Vec<(String, String)> = Vec::new();
    r.push((String::from_str("User-Agent"), String::from_str("Fresh Eyes")));
    r.push((String::from_str("Authorization"), auth));
    r.push((String::from_str("Accept"), String::from_str("application/vnd.github.v3+json")));
    r
}

/// `repo_url(owner, repo)` followed by `tail`.
pub(crate) fn repo_endpoint(owner: &str, repo: &str, tail: &str) -> (r: String)
    ensures
        r@ == repo_url(owner@, repo@) + tail@,
{
    let mut r = String::from_str("https://api.github.com/repos/");
    r.append(owner);
    r.append("/");
    r.append(repo);
    r.append(tail);
    r
}

/// Reads a reply: its body where the status is in the 2xx range, else the
/// failure, classified.
pub fn read_reply(reply: Reply) -> (r: Result<ResponseData, FreshEyesError>)
    ensures
        reply_succeeded(reply) ==> r == Ok::<ResponseData, FreshEyesError>(reply->Ok_0.data),
        !reply_succeeded(reply) ==> r is Err && reply_failure(reply, r->Err_0),
{
    match reply {
        Err(t) => Err(FreshEyesError::RequestError(t)),
        Ok(resp) => {
            if 200 <= resp.status && resp.status <= 299 {
                Ok(resp.data)
            } else {
                let mut message = String::from_str("status code is not a OK response: ");
                let code = decimal(resp.status as u64);
                message.append(code.as_str());
                Err(FreshEyesError::StatusCodeError(ErrorResponse { message, status: resp.status }))
            }
        },
    }
}

} // verus!
