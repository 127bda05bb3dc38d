//! The requests of one mirror run, each with the reading of its reply:
//! forking, creating a branch, fetching and opening a pull request.

use vstd::prelude::*;

use crate::error::{ErrorResponse, FreshEyesError};
use crate::extract::text_or_empty;
use crate::remote::{
    has_api_headers, read_reply, status_message, reply_failure, reply_has_status, reply_succeeded, repo_endpoint,
    repo_url, request_headers, ApiRequest, Reply, RequestMethod, ResponseData,
};
use crate::text::{decimal, decimal_of, json_string, json_string_of};

verus! {

/// A pull request, either to be fetched by its number or to be opened.
#[derive(Debug)]
pub struct PullRequest<'a> {
    /// repository owner
    pub owner: &'a str,
    /// name of repository
    pub repo: &'a str,
    pub title: Option<&'a str>,
    pub body: Option<&'a str>,
    /// The name of the branch where the changes are implemented.
    pub head: Option<&'a str>,
    /// The name of the branch the changes are pulled into.
    pub base: Option<&'a str>,
    pub pull_number: Option<u32>,
}

/// A branch to be created at a commit.
#[derive(Debug)]
pub struct Branch<'a> {
    pub owner: &'a str,
    pub repo: &'a str,
    pub branch_ref: &'a str,
    pub sha: &'a str,
}

/// A repository to be forked.
#[derive(Debug)]
pub struct ForkRequest<'a> {
    pub owner: &'a str,
    pub repo: &'a str,
}

/// The fork that a fork request made (or found).
#[derive(Debug)]
pub struct ForkResult {
    pub owner: String,
    pub repo: String,
    /// Web address of the fork.
    pub forked_repo: String,
}

/// How a creating request went where it did not fail: the thing was made,
/// or it was there already, which counts as success.
#[derive(Debug)]
pub enum OperationOutcome {
    Success(ResponseData),
    AlreadyExists(String),
}

/// Status with which GitHub refuses to create what exists already.
pub const UNPROCESSABLE_ENTITY: u16 = 422;

/// Status with which GitHub answers for what does not exist.
pub const NOT_FOUND: u16 = 404;

/// An optional text, as JSON: its string literal, or `null`.
pub open spec fn json_or_null(o: Option<Seq<char>>) -> Seq<char> {
    match o {
        Some(s) => json_string_of(s),
        None => "null"@,
    }
}

/// The characters of an optional text.
pub open spec fn opt_view(o: Option<&str>) -> Option<Seq<char>> {
    match o {
        Some(s) => Some(s@),
        None => None,
    }
}

/// An optional text, empty where it is missing.
pub open spec fn str_or_empty(o: Option<&str>) -> Seq<char> {
    match o {
        Some(s) => s@,
        None => Seq::empty(),
    }
}

/// `req` is a request with the API headers for `token`.
pub open spec fn is_api_request(req: ApiRequest, token: Seq<char>, url: Seq<char>) -> bool {
    &&& req.url@ == url
    &&& has_api_headers(req.headers@, token)
}

/// `req` is a `POST` of `body` to `url`.
pub open spec fn is_post(req: ApiRequest, token: Seq<char>, url: Seq<char>, body: Seq<char>) -> bool {
    &&& is_api_request(req, token, url)
    &&& req.method is POST
    &&& req.method->POST_0@ == body
}

/// `req` is a `GET` of `url`.
pub open spec fn is_get(req: ApiRequest, token: Seq<char>, url: Seq<char>) -> bool {
    is_api_request(req, token, url) && req.method is GET
}

/// Body of a fork request: all branches are copied, not only the default one,
/// since the sides of a pull request may lie on any branch.
pub open spec fn fork_body() -> Seq<char> {
    "{\"default_branch_only\":false}"@
}

/// Body that creates the branch `branch_ref` at `sha`.
pub open spec fn branch_body(branch_ref: Seq<char>, sha: Seq<char>) -> Seq<char> {
    "{\"ref\":"@ + json_string_of("refs/heads/"@ + branch_ref) + ",\"sha\":"@
        + json_string_of(sha) + "}"@
}

/// Body that opens a pull request of `head` into `base`.
pub open spec fn pull_request_body(
    title: Option<Seq<char>>,
    body: Option<Seq<char>>,
    base: Seq<char>,
    head: Seq<char>,
) -> Seq<char> {
    "{\"title\":"@ + json_or_null(title) + ",\"body\":"@ + json_or_null(body) + ",\"base\":"@
        + json_string_of(base) + ",\"head\":"@ + json_string_of(head) + "}"@
}

/// The address of pull request `number`.
pub open spec fn pull_request_url(owner: Seq<char>, repo: Seq<char>, number: nat) -> Seq<char> {
    repo_url(owner, repo) + "/pulls/"@ + decimal_of(number)
}

/// Message of a branch creation that found the branch there already.
pub open spec fn branch_exists_message() -> Seq<char> {
    "Branch already exists!"@
}

/// Message of a pull request creation that found one open already.
pub open spec fn pull_request_exists_message(base: Seq<char>, head: Seq<char>) -> Seq<char> {
    "A pull request already exists for \""@ + base + "\"<-->\""@ + head + "\""@
}

/// Message of a fetch of a pull request that does not exist.
pub open spec fn not_found_message() -> Seq<char> {
    "pull request not found!"@
}

/// `r` is how a creating request reads `reply`: a 2xx reply is `Success`
/// with its body, a 422 is `AlreadyExists` with `message`, anything else
/// fails.
pub open spec fn creation_outcome(
    reply: Reply,
    message: Seq<char>,
    r: Result<OperationOutcome, FreshEyesError>,
) -> bool {
    if reply_succeeded(reply) {
        r == Ok::<OperationOutcome, FreshEyesError>(OperationOutcome::Success(reply->Ok_0.data))
    } else if reply_has_status(reply, UNPROCESSABLE_ENTITY) {
        &&& r is Ok
        &&& r->Ok_0 is AlreadyExists
        &&& r->Ok_0->AlreadyExists_0@ == message
    } else {
        r is Err && reply_failure(reply, r->Err_0)
    }
}

/// `r` is how a fork request for `repo` reads `reply`.
pub open spec fn fork_outcome(repo: Seq<char>, reply: Reply, r: Result<ForkResult, FreshEyesError>) -> bool {
    if reply_succeeded(reply) {
        &&& r is Ok
        &&& r->Ok_0.owner@ == text_or_empty(reply->Ok_0.data.owner_login)
        &&& r->Ok_0.repo@ == repo
        &&& r->Ok_0.forked_repo@ == text_or_empty(reply->Ok_0.data.html_url)
    } else {
        &&& r is Err
        &&& r->Err_0 is ForkError
        &&& reply_failure(reply, *r->Err_0->ForkError_0)
    }
}

/// `r` is how a fetch of a pull request reads `reply`: a 404 is reported
/// with its own message.
pub open spec fn fetch_outcome(reply: Reply, r: Result<ResponseData, FreshEyesError>) -> bool {
    if reply_succeeded(reply) {
        r == Ok::<ResponseData, FreshEyesError>(reply->Ok_0.data)
    } else if reply_has_status(reply, NOT_FOUND) {
        &&& r is Err
        &&& r->Err_0 is StatusCodeError
        &&& r->Err_0->StatusCodeError_0.status == NOT_FOUND
        &&& r->Err_0->StatusCodeError_0.message@ == not_found_message()
    } else {
        r is Err && reply_failure(reply, r->Err_0)
    }
}

fn json_or_null_of(o: Option<&str>) -> (r: String)
    ensures
        r@ == json_or_null(opt_view(o)),
{
    match o {
        Some(s) => json_string(s),
        None => String::from_str("null"),
    }
}

fn creation_result(reply: Reply, message: String) -> (r: Result<OperationOutcome, FreshEyesError>)
    ensures
        creation_outcome(reply, message@, r),
{
    let refused = match &reply {
        Ok(resp) => resp.status == UNPROCESSABLE_ENTITY,
        Err(_) => false,
    };
    match read_reply(reply) {
        Ok(data) => Ok(OperationOutcome::Success(data)),
        Err(e) => {
            if refused {
                Ok(OperationOutcome::AlreadyExists(message))
            } else {
                Err(e)
            }
        },
    }
}

/// The request that fetches pull request `number`.
pub(crate) fn pull_request_get(owner: &str, repo: &str, number: u32, token: &str) -> (r: ApiRequest)
    ensures
        is_get(r, token@, pull_request_url(owner@, repo@, number as nat)),
{
    let mut url = repo_endpoint(owner, repo, "/pulls/");
    let digits = decimal(number as u64);
    url.append(digits.as_str());
    ApiRequest { method: RequestMethod::GET, url, headers: request_headers(token) }
}

impl ForkResult {
    pub fn new(owner: String, repo: String, forked_repo: String) -> (r: Self)
        ensures
            r.owner == owner,
            r.repo == repo,
            r.forked_repo == forked_repo,
    {
        Self { owner, repo, forked_repo }
    }
}

impl<'a> ForkRequest<'a> {
    pub fn new(owner: &'a str, repo: &'a str) -> (r: Self)
        ensures
            r.owner == owner,
            r.repo == repo,
    {
        Self { owner, repo }
    }

    /// The request that forks the repository, every branch included.
    pub fn fork_request(&self, token: &str) -> (r: ApiRequest)
        ensures
            is_post(r, token@, repo_url(self.owner@, self.repo@) + "/forks"@, fork_body()),
    {
        ApiRequest {
            method: RequestMethod::POST(String::from_str("{\"default_branch_only\":false}")),
            url: repo_endpoint(self.owner, self.repo, "/forks"),
            headers: request_headers(token),
        }
    }

    /// Reads the reply to the fork request: the fork's owner and address,
    /// or the failure wrapped as a fork error.
    pub fn fork_result(&self, reply: Reply) -> (r: Result<ForkResult, FreshEyesError>)
        ensures
            fork_outcome(self.repo@, reply, r),
    {
        match read_reply(reply) {
            Ok(data) => {
                let owner = match data.owner_login {
                    Some(s) => s,
                    None => String::new(),
                };
                let forked_repo = match data.html_url {
                    Some(s) => s,
                    None => String::new(),
                };
                Ok(ForkResult { owner, repo: String::from_str(self.repo), forked_repo })
            },
            Err(e) => Err(FreshEyesError::ForkError(Box::new(e))),
        }
    }
}

impl<'a> Branch<'a> {
    pub fn new(owner: &'a str, repo: &'a str, branch_ref: &'a str, sha: &'a str) -> (r: Self)
        ensures
            r.owner == owner,
            r.repo == repo,
            r.branch_ref == branch_ref,
            r.sha == sha,
    {
        Self { owner, repo, branch_ref, sha }
    }

    /// The request that creates the branch at its commit.
    pub fn create_request(&self, token: &str) -> (r: ApiRequest)
        ensures
            is_post(
                r,
                token@,
                repo_url(self.owner@, self.repo@) + "/git/refs"@,
                branch_body(self.branch_ref@, self.sha@),
            ),
    {
        let mut full_ref = String::from_str("refs/heads/");
        full_ref.append(self.branch_ref);
        let mut body = String::from_str("{\"ref\":");
        let quoted_ref = json_string(full_ref.as_str());
        body.append(quoted_ref.as_str());
        body.append(",\"sha\":");
        let quoted_sha = json_string(self.sha);
        body.append(quoted_sha.as_str());
        body.append("}");
        ApiRequest {
            method: RequestMethod::POST(body),
            url: repo_endpoint(self.owner, self.repo, "/git/refs"),
            headers: request_headers(token),
        }
    }

    /// Reads the reply to the creation of the branch; a branch that exists
    /// already counts as created.
    pub fn create_outcome(&self, reply: Reply) -> (r: Result<OperationOutcome, FreshEyesError>)
        ensures
            creation_outcome(reply, branch_exists_message(), r),
    {
        creation_result(reply, String::from_str("Branch already exists!"))
    }
}

impl<'a> PullRequest<'a> {
    /// A pull request to be opened from `head` into `base`.
    pub fn new(
        owner: &'a str,
        repo: &'a str,
        title: Option<&'a str>,
        body: Option<&'a str>,
        base: &'a str,
        head: &'a str,
    ) -> (r: Self)
        ensures
            r.owner == owner,
            r.repo == repo,
            r.title == title,
            r.body == body,
            r.base == Some(base),
            r.head == Some(head),
            r.pull_number is None,
    {
        Self { owner, repo, title, body, base: Some(base), head: Some(head), pull_number: None }
    }

    /// A pull request to be fetched by its number.
    pub fn from_pull_number(owner: &'a str, repo: &'a str, pull_number: u32) -> (r: Self)
        ensures
            r.owner == owner,
            r.repo == repo,
            r.title is None,
            r.body is None,
            r.base is None,
            r.head is None,
            r.pull_number == Some(pull_number),
    {
        Self { owner, repo, title: None, body: None, base: None, head: None, pull_number: Some(pull_number) }
    }

    /// The request that opens this pull request; both sides must be named.
    pub fn create_request(&self, token: &str) -> (r: Result<ApiRequest, FreshEyesError>)
        ensures
            (self.base is None || self.head is None) <==> r is Err,
            r is Err ==> r->Err_0 is ValueUndefinedError
                && r->Err_0->ValueUndefinedError_0@ == "base and head"@,
            r is Ok ==> is_post(
                r->Ok_0,
                token@,
                repo_url(self.owner@, self.repo@) + "/pulls"@,
                pull_request_body(opt_view(self.title), opt_view(self.body), self.base->Some_0@, self.head->Some_0@),
            ),
    {
        match (self.base, self.head) {
            (Some(base), Some(head)) => {
                let mut body = String::from_str("{\"title\":");
                let title = json_or_null_of(self.title);
                body.append(title.as_str());
                body.append(",\"body\":");
                let text = json_or_null_of(self.body);
                body.append(text.as_str());
                body.append(",\"base\":");
                let quoted_base = json_string(base);
                body.append(quoted_base.as_str());
                body.append(",\"head\":");
                let quoted_head = json_string(head);
                body.append(quoted_head.as_str());
                body.append("}");
                Ok(ApiRequest {
                    method: RequestMethod::POST(body),
                    url: repo_endpoint(self.owner, self.repo, "/pulls"),
                    headers: request_headers(token),
                })
            },
            _ => Err(FreshEyesError::ValueUndefinedError(String::from_str("base and head"))),
        }
    }

    /// Reads the reply to the opening of this pull request; one that is open
    /// already for the same sides counts as opened.
    pub fn create_outcome(&self, reply: Reply) -> (r: Result<OperationOutcome, FreshEyesError>)
        ensures
            creation_outcome(
                reply,
                pull_request_exists_message(str_or_empty(self.base), str_or_empty(self.head)),
                r,
            ),
    {
        let base = match self.base {
            Some(s) => s,
            None => "",
        };
        let head = match self.head {
            Some(s) => s,
            None => "",
        };
        proof {
            reveal_strlit("");
        }
        let mut message = String::from_str("A pull request already exists for \"");
        message.append(base);
        message.append("\"<-->\"");
        message.append(head);
        message.append("\"");
        creation_result(reply, message)
    }

    /// The request that fetches this pull request; its number must be known.
    pub fn get_request(&self, token: &str) -> (r: Result<ApiRequest, FreshEyesError>)
        ensures
            self.pull_number is None <==> r is Err,
            r is Err ==> r->Err_0 is ValueUndefinedError
                && r->Err_0->ValueUndefinedError_0@ == "pull_number"@,
            r is Ok ==> is_get(
                r->Ok_0,
                token@,
                pull_request_url(self.owner@, self.repo@, self.pull_number->Some_0 as nat),
            ),
    {
        match self.pull_number {
            Some(n) => Ok(pull_request_get(self.owner, self.repo, n, token)),
            None => Err(FreshEyesError::ValueUndefinedError(String::from_str("pull_number"))),
        }
    }

    /// Reads the reply to the fetch: the pull request's payload, or the
    /// failure, a missing pull request reported with a message of its own.
    pub fn get_outcome(&self, reply: Reply) -> (r: Result<ResponseData, FreshEyesError>)
        ensures
            fetch_outcome(reply, r),
    {
        let missing = match &reply {
            Ok(resp) => resp.status == NOT_FOUND,
            Err(_) => false,
        };
        match read_reply(reply) {
            Ok(data) => Ok(data),
            Err(e) => {
                if missing {
                    Err(FreshEyesError::StatusCodeError(ErrorResponse {
                        message: String::from_str("pull request not found!"),
                        status: NOT_FOUND,
                    }))
                } else {
                    Err(e)
                }
            },
        }
    }
}

/// Creating the same branch twice, where the first request makes it and the
/// second is refused because it exists (status 422), reads as `Success` and
/// then `AlreadyExists`: neither is a failure.
pub proof fn lemma_branch_creation_idempotent(first: Reply, second: Reply)
    requires
        reply_succeeded(first),
        reply_has_status(second, UNPROCESSABLE_ENTITY),
    ensures
        forall|r: Result<OperationOutcome, FreshEyesError>|
            creation_outcome(first, branch_exists_message(), r) ==> r is Ok && r->Ok_0 is Success,
        forall|r: Result<OperationOutcome, FreshEyesError>|
            creation_outcome(second, branch_exists_message(), r) ==> {
                &&& r is Ok
                &&& r->Ok_0 is AlreadyExists
                &&& r->Ok_0->AlreadyExists_0@ == branch_exists_message()
            },
{
}

/// Opening a pull request of `head` into `base` a second time, when it is
/// refused as existing (status 422), reads as `AlreadyExists`, with a message
/// that names both sides.
pub proof fn lemma_pull_request_creation_idempotent(base: Seq<char>, head: Seq<char>, second: Reply)
    requires
        reply_has_status(second, UNPROCESSABLE_ENTITY),
    ensures
        forall|r: Result<OperationOutcome, FreshEyesError>|
            creation_outcome(second, pull_request_exists_message(base, head), r) ==> {
                &&& r is Ok
                &&& r->Ok_0 is AlreadyExists
                &&& r->Ok_0->AlreadyExists_0@ == pull_request_exists_message(base, head)
            },
{
}

/// Fetching a pull request that does not exist (status 404) fails with the
/// not-found message, which differs from the message of every other status.
pub proof fn lemma_missing_pull_request(reply: Reply)
    requires
        reply_has_status(reply, NOT_FOUND),
    ensures
        forall|r: Result<ResponseData, FreshEyesError>| fetch_outcome(reply, r) ==> {
            &&& r is Err
            &&& r->Err_0 is StatusCodeError
            &&& r->Err_0->StatusCodeError_0.status == NOT_FOUND
            &&& r->Err_0->StatusCodeError_0.message@ == not_found_message()
        },
        forall|status: u16| #[trigger] status_message(status) != not_found_message(),
{
    assert forall|status: u16| #[trigger] status_message(status) != not_found_message() by {
        reveal_strlit("status code is not a OK response: ");
        reveal_strlit("pull request not found!");
        assert(status_message(status)[0] == 's');
        assert(not_found_message()[0] == 'p');
    }
}

} // verus!
