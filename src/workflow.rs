//! The mirror of a pull request as a state machine: each state knows the one
//! request that is in flight, and each reply either moves it on with the next
//! request or ends the run. The caller sends the requests and hands back the
//! replies, one at a time.

use vstd::prelude::*;

use crate::error::{error_text, FreshEyesError};
use crate::extract::{details_of, extract_pr_details, PullRequestDetails};
use crate::operations::{
    branch_body, branch_exists_message, creation_outcome, fetch_outcome, fork_body, fork_outcome,
    is_get, is_post, pull_request_body, pull_request_exists_message, pull_request_get,
    pull_request_url, Branch, ForkRequest, ForkResult, OperationOutcome, PullRequest,
    UNPROCESSABLE_ENTITY,
};
use crate::remote::{reply_failure, reply_has_status, reply_succeeded, repo_url, ApiRequest, Reply};

verus! {

/// The steps of a mirror run, in the order in which they happen.
#[derive(PartialEq, Eq, Structural, Clone, Copy, Debug)]
pub enum MirrorStep {
    Fork,
    FetchPullRequest,
    CreateBaseBranch,
    CreateHeadBranch,
    CreatePullRequest,
}

/// The first failure of a run, and the step at which it came.
#[derive(Debug)]
pub struct MirrorError {
    pub step: MirrorStep,
    pub error: FreshEyesError,
}

/// Where a run stands: which request is in flight, with what the steps
/// before it produced.
#[derive(Debug)]
pub enum Stage {
    /// The fork of the source repository was requested.
    Forking,
    /// The source pull request was requested.
    Fetching { fork: ForkResult },
    /// The base branch was requested in the fork.
    CreatingBase { fork: ForkResult, details: PullRequestDetails },
    /// The head branch was requested in the fork.
    CreatingHead { fork: ForkResult, details: PullRequestDetails },
    /// The new pull request was requested in the fork.
    CreatingPullRequest { fork: ForkResult, details: PullRequestDetails },
}

/// What a failure at `step` is reported as having failed to do.
pub open spec fn step_context(step: MirrorStep) -> Seq<char> {
    match step {
        MirrorStep::Fork => "Failed to fork repository"@,
        MirrorStep::FetchPullRequest => "Failed to fetch pull request"@,
        MirrorStep::CreateBaseBranch => "Failed to create base branch"@,
        MirrorStep::CreateHeadBranch => "Failed to create head branch"@,
        MirrorStep::CreatePullRequest => "Failed to create pull request"@,
    }
}

impl MirrorError {
    /// The report of the failure: the step that failed, then why.
    pub fn message(&self) -> (r: String)
        ensures
            r@ == step_context(self.step) + ": "@ + error_text(self.error),
    {
        let mut r = match self.step {
            MirrorStep::Fork => String::from_str("Failed to fork repository"),
            MirrorStep::FetchPullRequest => String::from_str("Failed to fetch pull request"),
            MirrorStep::CreateBaseBranch => String::from_str("Failed to create base branch"),
            MirrorStep::CreateHeadBranch => String::from_str("Failed to create head branch"),
            MirrorStep::CreatePullRequest => String::from_str("Failed to create pull request"),
        };
        r.append(": ");
        let detail = self.error.message();
        r.append(detail.as_str());
        r
    }
}

/// One run that mirrors pull request `pull_number` of `owner/repo` into a fork.
#[derive(Debug)]
pub struct MirrorWorkflow {
    pub owner: String,
    pub repo: String,
    pub pull_number: u32,
    /// The bearer credential that every request carries.
    pub token: String,
    pub stage: Stage,
}

/// What a reply leads to: the next request to send, with the run that waits
/// for its reply, or the end of the run.
#[derive(Debug)]
pub enum Step {
    Send(MirrorWorkflow, ApiRequest),
    /// The outcome of opening the pull request, or the first failure.
    Done(Result<OperationOutcome, MirrorError>),
}

/// `w` is the same run as `wf`, in another stage.
pub open spec fn same_run(wf: MirrorWorkflow, w: MirrorWorkflow) -> bool {
    &&& w.owner == wf.owner
    &&& w.repo == wf.repo
    &&& w.pull_number == wf.pull_number
    &&& w.token == wf.token
}

/// `r` ends the run with a failure at `step`.
pub open spec fn fails_at(r: Step, step: MirrorStep) -> bool {
    &&& r is Done
    &&& r->Done_0 is Err
    &&& r->Done_0->Err_0.step == step
}

/// `r` sends a further request, and the run that waits for its reply is
/// still `wf`'s.
pub open spec fn sends_next(wf: MirrorWorkflow, r: Step) -> bool {
    r is Send && same_run(wf, r->Send_0)
}

/// A creating request does not succeed and is not refused as existing.
pub open spec fn creation_fails(reply: Reply) -> bool {
    !reply_succeeded(reply) && !reply_has_status(reply, UNPROCESSABLE_ENTITY)
}

/// The request that creates the branch `name` at `sha` in the fork.
pub open spec fn is_branch_request(req: ApiRequest, token: Seq<char>, fork: ForkResult, name: Seq<char>, sha: Seq<char>) -> bool {
    is_post(req, token, repo_url(fork.owner@, fork.repo@) + "/git/refs"@, branch_body(name, sha))
}

/// The request that opens, in the fork, the pull request of the two
/// generated branches, with the source's title and body.
pub open spec fn is_open_request(req: ApiRequest, token: Seq<char>, fork: ForkResult, details: PullRequestDetails) -> bool {
    is_post(
        req,
        token,
        repo_url(fork.owner@, fork.repo@) + "/pulls"@,
        pull_request_body(Some(details.title@), Some(details.body@), details.base_ref@, details.head_ref@),
    )
}

/// `r` is what the reply `reply` leads to from the run `wf`.
pub open spec fn advances(wf: MirrorWorkflow, reply: Reply, r: Step) -> bool {
    match wf.stage {
        Stage::Forking => if reply_succeeded(reply) {
            &&& sends_next(wf, r)
            &&& r->Send_0.stage is Fetching
            &&& fork_outcome(wf.repo@, reply, Ok(r->Send_0.stage->Fetching_fork))
            &&& is_get(r->Send_1, wf.token@, pull_request_url(wf.owner@, wf.repo@, wf.pull_number as nat))
        } else {
            &&& fails_at(r, MirrorStep::Fork)
            &&& fork_outcome(wf.repo@, reply, Err(r->Done_0->Err_0.error))
        },
        Stage::Fetching { fork } => if reply_succeeded(reply) {
            &&& sends_next(wf, r)
            &&& r->Send_0.stage is CreatingBase
            &&& r->Send_0.stage->CreatingBase_fork == fork
            &&& details_of(reply->Ok_0.data, r->Send_0.stage->CreatingBase_details)
            &&& is_branch_request(
                r->Send_1,
                wf.token@,
                fork,
                r->Send_0.stage->CreatingBase_details.base_ref@,
                r->Send_0.stage->CreatingBase_details.base_sha@,
            )
        } else {
            &&& fails_at(r, MirrorStep::FetchPullRequest)
            &&& fetch_outcome(reply, Err(r->Done_0->Err_0.error))
        },
        Stage::CreatingBase { fork, details } => if creation_fails(reply) {
            &&& fails_at(r, MirrorStep::CreateBaseBranch)
            &&& reply_failure(reply, r->Done_0->Err_0.error)
        } else {
            &&& sends_next(wf, r)
            &&& r->Send_0.stage == (Stage::CreatingHead { fork, details })
            &&& is_branch_request(r->Send_1, wf.token@, fork, details.head_ref@, details.head_sha@)
        },
        Stage::CreatingHead { fork, details } => if creation_fails(reply) {
            &&& fails_at(r, MirrorStep::CreateHeadBranch)
            &&& reply_failure(reply, r->Done_0->Err_0.error)
        } else {
            &&& sends_next(wf, r)
            &&& r->Send_0.stage == (Stage::CreatingPullRequest { fork, details })
            &&& is_open_request(r->Send_1, wf.token@, fork, details)
        },
        Stage::CreatingPullRequest { fork, details } => if creation_fails(reply) {
            &&& fails_at(r, MirrorStep::CreatePullRequest)
            &&& reply_failure(reply, r->Done_0->Err_0.error)
        } else {
            &&& r is Done
            &&& r->Done_0 is Ok
            &&& creation_outcome(
                reply,
                pull_request_exists_message(details.base_ref@, details.head_ref@),
                Ok(r->Done_0->Ok_0),
            )
        },
    }
}

impl MirrorWorkflow {
    /// Starts a run: without a credential nothing is sent; with one, the
    /// first request forks the source repository.
    pub fn start(owner: &str, repo: &str, pull_number: u32, token: Option<&str>) -> (r: Result<(MirrorWorkflow, ApiRequest), FreshEyesError>)
        ensures
            token is None <==> r is Err,
            r is Err ==> r->Err_0 is MissingTokenError,
            r is Ok ==> {
                let (wf, req) = r->Ok_0;
                &&& wf.owner@ == owner@
                &&& wf.repo@ == repo@
                &&& wf.pull_number == pull_number
                &&& wf.token@ == token->Some_0@
                &&& wf.stage is Forking
                &&& is_post(req, token->Some_0@, repo_url(owner@, repo@) + "/forks"@, fork_body())
            },
    {
        match token {
            None => Err(FreshEyesError::MissingTokenError),
            Some(token) => Ok(MirrorWorkflow::start_with(owner, repo, pull_number, token)),
        }
    }

    /// Starts a run with the credential `token`.
    pub(crate) fn start_with(owner: &str, repo: &str, pull_number: u32, token: &str) -> (r: (MirrorWorkflow, ApiRequest))
        ensures
            r.0.owner@ == owner@,
            r.0.repo@ == repo@,
            r.0.pull_number == pull_number,
            r.0.token@ == token@,
            r.0.stage is Forking,
            is_post(r.1, token@, repo_url(owner@, repo@) + "/forks"@, fork_body()),
    {
        let request = ForkRequest::new(owner, repo).fork_request(token);
        let wf = MirrorWorkflow {
            owner: String::from_str(owner),
            repo: String::from_str(repo),
            pull_number,
            token: String::from_str(token),
            stage: Stage::Forking,
        };
        (wf, request)
    }

    /// Takes the reply to the request in flight and moves the run on: to the
    /// next request where this step succeeded (a branch or pull request that
    /// exists already counts as success), else to its end with this failure.
    pub fn advance(self, reply: Reply) -> (r: Step)
        ensures
            advances(self, reply, r),
    {
        let MirrorWorkflow { owner, repo, pull_number, token, stage } = self;
        match stage {
            Stage::Forking => {
                let outcome = ForkRequest::new(owner.as_str(), repo.as_str()).fork_result(reply);
                match outcome {
                    Err(error) => Step::Done(Err(MirrorError { step: MirrorStep::Fork, error })),
                    Ok(fork) => {
                        let request = pull_request_get(owner.as_str(), repo.as_str(), pull_number, token.as_str());
                        let wf = MirrorWorkflow { owner, repo, pull_number, token, stage: Stage::Fetching { fork } };
                        Step::Send(wf, request)
                    },
                }
            },
            Stage::Fetching { fork } => {
                let outcome = PullRequest::from_pull_number(owner.as_str(), repo.as_str(), pull_number).get_outcome(reply);
                match outcome {
                    Err(error) => Step::Done(Err(MirrorError { step: MirrorStep::FetchPullRequest, error })),
                    Ok(data) => {
                        let details = extract_pr_details(&data);
                        let request = Branch::new(
                            fork.owner.as_str(),
                            fork.repo.as_str(),
                            details.base_ref.as_str(),
                            details.base_sha.as_str(),
                        ).create_request(token.as_str());
                        let wf = MirrorWorkflow { owner, repo, pull_number, token, stage: Stage::CreatingBase { fork, details } };
                        Step::Send(wf, request)
                    },
                }
            },
            Stage::CreatingBase { fork, details } => {
                let outcome = Branch::new(
                    fork.owner.as_str(),
                    fork.repo.as_str(),
                    details.base_ref.as_str(),
                    details.base_sha.as_str(),
                ).create_outcome(reply);
                match outcome {
                    Err(error) => Step::Done(Err(MirrorError { step: MirrorStep::CreateBaseBranch, error })),
                    Ok(_) => {
                        let request = Branch::new(
                            fork.owner.as_str(),
                            fork.repo.as_str(),
                            details.head_ref.as_str(),
                            details.head_sha.as_str(),
                        ).create_request(token.as_str());
                        let wf = MirrorWorkflow { owner, repo, pull_number, token, stage: Stage::CreatingHead { fork, details } };
                        Step::Send(wf, request)
                    },
                }
            },
            Stage::CreatingHead { fork, details } => {
                let outcome = Branch::new(
                    fork.owner.as_str(),
                    fork.repo.as_str(),
                    details.head_ref.as_str(),
                    details.head_sha.as_str(),
                ).create_outcome(reply);
                match outcome {
                    Err(error) => Step::Done(Err(MirrorError { step: MirrorStep::CreateHeadBranch, error })),
                    Ok(_) => {
                        let opened = PullRequest::new(
                            fork.owner.as_str(),
                            fork.repo.as_str(),
                            Some(details.title.as_str()),
                            Some(details.body.as_str()),
                            details.base_ref.as_str(),
                            details.head_ref.as_str(),
                        ).create_request(token.as_str());
                        match opened {
                            Ok(request) => {
                                let wf = MirrorWorkflow { owner, repo, pull_number, token, stage: Stage::CreatingPullRequest { fork, details } };
                                Step::Send(wf, request)
                            },
                            Err(error) => Step::Done(Err(MirrorError { step: MirrorStep::CreatePullRequest, error })),
                        }
                    },
                }
            },
            Stage::CreatingPullRequest { fork, details } => {
                let outcome = PullRequest::new(
                    fork.owner.as_str(),
                    fork.repo.as_str(),
                    Some(details.title.as_str()),
                    Some(details.body.as_str()),
                    details.base_ref.as_str(),
                    details.head_ref.as_str(),
                ).create_outcome(reply);
                match outcome {
                    Err(error) => Step::Done(Err(MirrorError { step: MirrorStep::CreatePullRequest, error })),
                    Ok(done) => Step::Done(Ok(done)),
                }
            },
        }
    }
}

/// A failed fork ends the run at once: no further request is sent, and the
/// failure is reported as the fork's.
pub proof fn lemma_fork_failure_ends_run(wf: MirrorWorkflow, reply: Reply)
    requires
        wf.stage is Forking,
        !reply_succeeded(reply),
    ensures
        forall|r: Step| advances(wf, reply, r) ==> r is Done && fails_at(r, MirrorStep::Fork),
{
}

/// A failure at any step ends the run there, with no further request.
pub proof fn lemma_failure_ends_run(wf: MirrorWorkflow, reply: Reply, r: Step)
    requires
        advances(wf, reply, r),
        r is Done,
        r->Done_0 is Err,
    ensures
        forall|r2: Step| advances(wf, reply, r2) ==> r2 is Done,
{
}

/// A branch that exists already (status 422) does not stop the run: the run
/// goes on to its next request.
pub proof fn lemma_existing_branch_continues(wf: MirrorWorkflow, reply: Reply)
    requires
        wf.stage is CreatingBase || wf.stage is CreatingHead,
        reply_has_status(reply, UNPROCESSABLE_ENTITY),
    ensures
        forall|r: Step| advances(wf, reply, r) ==> sends_next(wf, r),
{
}

/// A pull request that is open already (status 422) ends the run in success,
/// reported as existing.
pub proof fn lemma_existing_pull_request_succeeds(wf: MirrorWorkflow, reply: Reply)
    requires
        wf.stage is CreatingPullRequest,
        reply_has_status(reply, UNPROCESSABLE_ENTITY),
    ensures
        forall|r: Step| advances(wf, reply, r) ==> {
            &&& r is Done
            &&& r->Done_0 is Ok
            &&& r->Done_0->Ok_0 is AlreadyExists
        },
{
}

} // verus!
