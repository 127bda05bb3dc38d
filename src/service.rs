//! What the front-ends share: the credential check of the HTTP server, the
//! per-request and per-service state, the command-line arguments, and the
//! report of a finished run.

use vstd::prelude::*;

use crate::error::FreshEyesError;
use crate::extract::text_or_empty;
use crate::operations::{fork_body, is_post, OperationOutcome};
use crate::remote::{repo_url, ApiRequest};
use crate::text::{decimal, decimal_of};
use crate::workflow::MirrorWorkflow;

verus! {

/// The credential that one request to the HTTP server carries.
#[derive(Debug)]
pub struct AppData {
    pub token: String,
}

impl AppData {
    pub fn new(token: String) -> (r: Self)
        ensures
            r.token == token,
    {
        AppData { token }
    }
}

/// Admission control of the HTTP server: it lets through only requests with a bearer
/// credential.
#[derive(Debug)]
pub struct Authentication;

/// Admission control in front of `service`.
#[derive(Debug)]
pub struct AuthenticationMiddleware<S> {
    pub service: S,
}

/// The index at which the word that starts at `i` ends: the first space at
/// or after `i`, or the end of `s`.
pub open spec fn word_end(s: Seq<char>, i: int) -> int
    decreases s.len() - i,
{
    if i >= s.len() {
        s.len() as int
    } else if s[i] == ' ' {
        i
    } else {
        word_end(s, i + 1)
    }
}

/// The credential of an `Authorization` header: the header is split at each
/// space, the first part must be `Bearer`, and the second part is the
/// credential; without a second part there is none.
pub open spec fn bearer_token_of(header: Seq<char>) -> Option<Seq<char>> {
    if header.len() >= 7 && header.subrange(0, 7) == "Bearer "@ {
        Some(header.subrange(7, word_end(header, 7)))
    } else {
        None
    }
}

proof fn lemma_word_end_bounds(s: Seq<char>, i: int)
    requires
        0 <= i <= s.len(),
    ensures
        i <= word_end(s, i) <= s.len(),
    decreases s.len() - i,
{
    if i < s.len() && s[i] != ' ' {
        lemma_word_end_bounds(s, i + 1);
    }
}

impl Authentication {
    pub fn new_transform<S>(&self, service: S) -> (r: AuthenticationMiddleware<S>)
        ensures
            r.service == service,
    {
        AuthenticationMiddleware { service }
    }
}

impl<S> AuthenticationMiddleware<S> {
    /// The credential of a request, read from its `Authorization` header;
    /// `None` means the request is refused as unauthorized.
    pub fn authorize(&self, authorization: Option<&str>) -> (r: Option<AppData>)
        ensures
            r is Some <==> authorization is Some && bearer_token_of(authorization->Some_0@) is Some,
            r is Some ==> r->Some_0.token@ == bearer_token_of(authorization->Some_0@)->Some_0,
    {
        match authorization {
            None => None,
            Some(header) => match bearer_token(header) {
                None => None,
                Some(token) => Some(AppData::new(token)),
            },
        }
    }
}

/// The bearer credential of an `Authorization` header.
pub fn bearer_token(header: &str) -> (r: Option<String>)
    ensures
        r is Some <==> bearer_token_of(header@) is Some,
        r is Some ==> r->Some_0@ == bearer_token_of(header@)->Some_0,
{
    let n = header.unicode_len();
    if n < 7 {
        return None;
    }
    let scheme = String::from_str(header.substring_char(0, 7));
    if !(scheme == String::from_str("Bearer ")) {
        return None;
    }
    let mut j: usize = 7;
    while j < n && header.get_char(j) != ' '
        invariant
            n == header@.len(),
            7 <= j <= n,
            word_end(header@, 7) == word_end(header@, j as int),
        decreases n - j,
    {
        j = j + 1;
    }
    Some(String::from_str(header.substring_char(7, j)))
}

/// The arguments of the command-line front-end.
#[derive(Debug)]
pub struct CliArgs {
    /// The owner of the repository
    pub owner: String,
    /// The name of the repository
    pub repo: String,
    /// The pull request number to review
    pub pr_number: u32,
}

/// The state of the gRPC front-end: the credential of its requests.
#[derive(Debug)]
pub struct GitHubServiceImpl {
    pub github_token: String,
}

impl GitHubServiceImpl {
    pub fn new(github_token: String) -> (r: Self)
        ensures
            r.github_token == github_token,
    {
        Self { github_token }
    }

    /// Starts the mirror of pull request `pull_number` of `owner/repo` with
    /// this service's credential: the run, and its first request, the fork.
    pub fn process_pull_request(&self, owner: &str, repo: &str, pull_number: u32) -> (r: (MirrorWorkflow, ApiRequest))
        ensures
            r.0.owner@ == owner@,
            r.0.repo@ == repo@,
            r.0.pull_number == pull_number,
            r.0.token@ == self.github_token@,
            r.0.stage is Forking,
            is_post(r.1, self.github_token@, repo_url(owner@, repo@) + "/forks"@, fork_body()),
    {
        MirrorWorkflow::start_with(owner, repo, pull_number, self.github_token.as_str())
    }
}

/// The report of a mirror run to the front-ends.
#[derive(Debug)]
pub struct PrResponse {
    pub pr_url: String,
}

/// The web address of the opened pull request where GitHub gave one, else
/// empty.
pub open spec fn outcome_url(outcome: OperationOutcome) -> Seq<char> {
    match outcome {
        OperationOutcome::Success(data) => text_or_empty(data.html_url),
        OperationOutcome::AlreadyExists(_) => Seq::empty(),
    }
}

/// The web page of pull request `number` of `owner/repo`.
pub open spec fn web_pull_url(owner: Seq<char>, repo: Seq<char>, number: nat) -> Seq<char> {
    "https://github.com/"@ + owner + "/"@ + repo + "/pull/"@ + decimal_of(number)
}

impl PrResponse {
    /// The report of a run whose last step ended in `outcome`.
    pub fn from_outcome(outcome: &OperationOutcome) -> (r: Self)
        ensures
            r.pr_url@ == outcome_url(*outcome),
    {
        let pr_url = match outcome {
            OperationOutcome::Success(data) => match &data.html_url {
                Some(url) => url.clone(),
                None => String::new(),
            },
            OperationOutcome::AlreadyExists(_) => String::new(),
        };
        PrResponse { pr_url }
    }
}

/// The address that the command line reports after a run that ended in
/// `outcome`: the opened pull request's, where GitHub gave one; else, where
/// the source pull request `owner/repo#pr_number` has review comments, the
/// source's own page; else none.
pub fn report_url(outcome: &OperationOutcome, review_count: usize, owner: &str, repo: &str, pr_number: u32) -> (r: Option<String>)
    ensures
        outcome is Success && outcome->Success_0.html_url is Some ==> r is Some
            && r->Some_0@ == outcome->Success_0.html_url->Some_0@,
        !(outcome is Success && outcome->Success_0.html_url is Some) ==> {
            &&& r is Some <==> review_count > 0
            &&& r is Some ==> r->Some_0@ == web_pull_url(owner@, repo@, pr_number as nat)
        },
{
    if let OperationOutcome::Success(data) = outcome {
        if let Some(url) = &data.html_url {
            return Some(url.clone());
        }
    }
    if review_count > 0 {
        let mut url = String::from_str("https://github.com/");
        url.append(owner);
        url.append("/");
        url.append(repo);
        url.append("/pull/");
        let digits = decimal(pr_number as u64);
        url.append(digits.as_str());
        Some(url)
    } else {
        None
    }
}

} // verus!
