use fresh_eyes::{
    read_reply, Branch, ForkRequest, ForkResult, FreshEyesError, OperationOutcome, PullRequest,
    PullRequestSide, Reply, RequestMethod, Response, ResponseData,
};

fn no_side() -> PullRequestSide {
    PullRequestSide { sha: None, ref_name: None, login: None }
}

fn data() -> ResponseData {
    ResponseData {
        html_url: None,
        owner_login: None,
        number: None,
        title: None,
        body: None,
        base: no_side(),
        head: no_side(),
    }
}

fn status(code: u16) -> Reply {
    Ok(Response { status: code, data: data() })
}

fn body_of(method: &RequestMethod) -> &str {
    match method {
        RequestMethod::POST(body) => body.as_str(),
        RequestMethod::GET => panic!("expected a POST"),
    }
}

#[test]
fn headers_carry_credential() {
    let req = ForkRequest::new("bitcoin", "bitcoin").fork_request("abc");
    let headers: Vec<(&str, &str)> =
        req.headers.iter().map(|(k, v)| (k.as_str(), v.as_str())).collect();
    assert_eq!(
        headers,
        vec![
            ("User-Agent", "Fresh Eyes"),
            ("Authorization", "Bearer abc"),
            ("Accept", "application/vnd.github.v3+json"),
        ]
    );
}

#[test]
fn fork_request_forks_all_branches() {
    let req = ForkRequest::new("bitcoin", "bitcoin").fork_request("t");
    assert_eq!(req.url, "https://api.github.com/repos/bitcoin/bitcoin/forks");
    assert_eq!(body_of(&req.method), "{\"default_branch_only\":false}");
}

#[test]
fn fork_result_reads_owner_and_url() {
    let mut d = data();
    d.owner_login = Some("alice".to_string());
    d.html_url = Some("https://github.com/alice/bitcoin".to_string());
    let r = ForkRequest::new("bitcoin", "bitcoin")
        .fork_result(Ok(Response { status: 202, data: d }))
        .unwrap();
    assert_eq!(r.owner, "alice");
    assert_eq!(r.repo, "bitcoin");
    assert_eq!(r.forked_repo, "https://github.com/alice/bitcoin");
}

#[test]
fn fork_failure_is_wrapped() {
    let r = ForkRequest::new("o", "r").fork_result(status(403));
    match r {
        Err(FreshEyesError::ForkError(inner)) => match *inner {
            FreshEyesError::StatusCodeError(e) => {
                assert_eq!(e.status, 403);
                assert_eq!(e.message, "status code is not a OK response: 403");
            }
            other => panic!("unexpected {:?}", other),
        },
        other => panic!("unexpected {:?}", other),
    }
    let r = ForkRequest::new("o", "r").fork_result(Err("dns".to_string()));
    assert!(matches!(r, Err(FreshEyesError::ForkError(inner)) if matches!(*inner, FreshEyesError::RequestError(ref t) if t == "dns")));
}

#[test]
fn fork_result_new_keeps_fields() {
    let r = ForkResult::new("a".to_string(), "b".to_string(), "c".to_string());
    assert_eq!((r.owner.as_str(), r.repo.as_str(), r.forked_repo.as_str()), ("a", "b", "c"));
}

#[test]
fn branch_request_body() {
    let b = Branch::new("alice", "bitcoin", "bitcoin-fresheyes-master-79", "ccd7");
    let req = b.create_request("t");
    assert_eq!(req.url, "https://api.github.com/repos/alice/bitcoin/git/refs");
    assert_eq!(
        body_of(&req.method),
        "{\"ref\":\"refs/heads/bitcoin-fresheyes-master-79\",\"sha\":\"ccd7\"}"
    );
}

#[test]
fn branch_request_escapes_json() {
    let b = Branch::new("o", "r", "we\"ird\\name", "s\n");
    let req = b.create_request("t");
    assert_eq!(
        body_of(&req.method),
        "{\"ref\":\"refs/heads/we\\\"ird\\\\name\",\"sha\":\"s\\n\"}"
    );
}

#[test]
fn branch_created_twice_is_idempotent() {
    let b = Branch::new("o", "r", "x", "s");
    let first = b.create_outcome(status(201)).unwrap();
    assert!(matches!(first, OperationOutcome::Success(_)));
    let second = b.create_outcome(status(422)).unwrap();
    match second {
        OperationOutcome::AlreadyExists(m) => assert_eq!(m, "Branch already exists!"),
        other => panic!("unexpected {:?}", other),
    }
}

#[test]
fn branch_other_status_fails() {
    let b = Branch::new("o", "r", "x", "s");
    match b.create_outcome(status(500)) {
        Err(FreshEyesError::StatusCodeError(e)) => {
            assert_eq!(e.status, 500);
            assert_eq!(e.message, "status code is not a OK response: 500");
        }
        other => panic!("unexpected {:?}", other),
    }
    assert!(matches!(
        b.create_outcome(Err("timeout".to_string())),
        Err(FreshEyesError::RequestError(t)) if t == "timeout"
    ));
}

#[test]
fn pull_request_create_body() {
    let pr = PullRequest::new("alice", "bitcoin", Some("Title"), None, "base-1", "head-1");
    let req = pr.create_request("t").unwrap();
    assert_eq!(req.url, "https://api.github.com/repos/alice/bitcoin/pulls");
    assert_eq!(
        body_of(&req.method),
        "{\"title\":\"Title\",\"body\":null,\"base\":\"base-1\",\"head\":\"head-1\"}"
    );
}

#[test]
fn pull_request_create_needs_sides() {
    let pr = PullRequest::from_pull_number("o", "r", 3);
    match pr.create_request("t") {
        Err(FreshEyesError::ValueUndefinedError(what)) => assert_eq!(what, "base and head"),
        other => panic!("unexpected {:?}", other),
    }
}

#[test]
fn pull_request_created_twice_is_idempotent() {
    let pr = PullRequest::new("o", "r", None, None, "b", "h");
    let mut d = data();
    d.html_url = Some("https://github.com/o/r/pull/1".to_string());
    let first = pr.create_outcome(Ok(Response { status: 201, data: d })).unwrap();
    match first {
        OperationOutcome::Success(d) => {
            assert_eq!(d.html_url.as_deref(), Some("https://github.com/o/r/pull/1"))
        }
        other => panic!("unexpected {:?}", other),
    }
    match pr.create_outcome(status(422)).unwrap() {
        OperationOutcome::AlreadyExists(m) => {
            assert_eq!(m, "A pull request already exists for \"b\"<-->\"h\"")
        }
        other => panic!("unexpected {:?}", other),
    }
}

#[test]
fn pull_request_get_request() {
    let pr = PullRequest::from_pull_number("bitcoin", "bitcoin", 79);
    let req = pr.get_request("t").unwrap();
    assert!(matches!(req.method, RequestMethod::GET));
    assert_eq!(req.url, "https://api.github.com/repos/bitcoin/bitcoin/pulls/79");
    let opened = PullRequest::new("o", "r", None, None, "b", "h");
    match opened.get_request("t") {
        Err(FreshEyesError::ValueUndefinedError(what)) => assert_eq!(what, "pull_number"),
        other => panic!("unexpected {:?}", other),
    }
}

#[test]
fn missing_pull_request_is_not_found() {
    let pr = PullRequest::from_pull_number("o", "r", 999999);
    let not_found = match pr.get_outcome(status(404)) {
        Err(FreshEyesError::StatusCodeError(e)) => e,
        other => panic!("unexpected {:?}", other),
    };
    assert_eq!(not_found.status, 404);
    assert_eq!(not_found.message, "pull request not found!");
    let generic = match pr.get_outcome(status(500)) {
        Err(FreshEyesError::StatusCodeError(e)) => e,
        other => panic!("unexpected {:?}", other),
    };
    assert_eq!(generic.message, "status code is not a OK response: 500");
    assert_ne!(not_found.message, generic.message);
}

#[test]
fn read_reply_classifies_status() {
    assert!(read_reply(status(200)).is_ok());
    assert!(read_reply(status(299)).is_ok());
    assert!(matches!(read_reply(status(199)), Err(FreshEyesError::StatusCodeError(e)) if e.status == 199));
    assert!(matches!(read_reply(status(300)), Err(FreshEyesError::StatusCodeError(e)) if e.status == 300));
}
