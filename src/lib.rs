//! Mirrors a GitHub pull request into a fork of its repository: fork the
//! source, fetch the pull request, recreate its two sides as branches in the
//! fork, and open the same pull request there.
//!
//! The library builds every request and reads every reply; sending them is
//! left to the caller, which hands each reply back to the run in `workflow`.

pub mod error;
pub mod extract;
pub mod operations;
pub mod remote;
pub mod reviews;
pub mod service;
pub mod text;
pub mod workflow;

pub use error::{ErrorResponse, FreshEyesError};
pub use extract::{extract_pr_details, PullRequestDetails};
pub use operations::{Branch, ForkRequest, ForkResult, OperationOutcome, PullRequest};
pub use remote::{
    read_reply, request_headers, ApiRequest, PullRequestSide, Reply, RequestMethod, Response,
    ResponseData,
};
pub use reviews::{pull_request_reviews_request, ReviewComment, UserFields};
pub use service::{
    bearer_token, report_url, AppData, Authentication, AuthenticationMiddleware, CliArgs,
    GitHubServiceImpl, PrResponse,
};
pub use text::decimal;
pub use workflow::{MirrorError, MirrorStep, MirrorWorkflow, Stage, Step};
