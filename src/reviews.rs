//! Review comments of a pull request, fetched for reporting only.

use vstd::prelude::*;

use crate::operations::{is_get, pull_request_url};
use crate::remote::{repo_endpoint, request_headers, ApiRequest, RequestMethod};
use crate::text::decimal;

verus! {

/// The account that wrote a comment.
#[derive(Debug)]
pub struct UserFields {
    pub login: String,
}

/// One review comment on a pull request, as GitHub describes it.
#[derive(Debug)]
pub struct ReviewComment {
    pub id: u64,
    pub body: String,
    pub commit_id: String,
    pub path: String,
    pub line: Option<u64>,
    pub start_line: Option<u64>,
    pub original_line: Option<u64>,
    pub position: Option<u64>,
    pub original_position: Option<u64>,
    pub side: String,
    pub start_side: Option<String>,
    pub url: String,
    pub html_url: String,
    pub subject_type: Option<String>,
    pub created_at: String,
    pub updated_at: String,
    pub user: UserFields,
}

/// The request that fetches the review comments of pull request
/// `pull_number` of `owner/repo`.
pub fn pull_request_reviews_request(owner: &str, repo: &str, pull_number: u64, token: &str) -> (r: ApiRequest)
    ensures
        is_get(r, token@, pull_request_url(owner@, repo@, pull_number as nat) + "/comments"@),
{
    let mut url = repo_endpoint(owner, repo, "/pulls/");
    let digits = decimal(pull_number);
    url.append(digits.as_str());
    url.append("/comments");
    ApiRequest { method: RequestMethod::GET, url, headers: request_headers(token) }
}

} // verus!
