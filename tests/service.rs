use fresh_eyes::{
    bearer_token, pull_request_reviews_request, report_url, AppData, Authentication,
    OperationOutcome, PrResponse, PullRequestSide, RequestMethod, ResponseData,
};

fn no_side() -> PullRequestSide {
    PullRequestSide { sha: None, ref_name: None, login: None }
}

fn data(html_url: Option<&str>) -> ResponseData {
    ResponseData {
        html_url: html_url.map(|s| s.to_string()),
        owner_login: None,
        number: None,
        title: None,
        body: None,
        base: no_side(),
        head: no_side(),
    }
}

#[test]
fn bearer_token_parsing() {
    assert_eq!(bearer_token("Bearer abc").as_deref(), Some("abc"));
    assert_eq!(bearer_token("Bearer abc def").as_deref(), Some("abc"));
    assert_eq!(bearer_token("Bearer ").as_deref(), Some(""));
    assert_eq!(bearer_token("Bearer"), None);
    assert_eq!(bearer_token("Basic abc"), None);
    assert_eq!(bearer_token("bearer abc"), None);
    assert_eq!(bearer_token(""), None);
}

#[test]
fn middleware_admits_bearer_only() {
    let guard = Authentication.new_transform(7u8);
    assert_eq!(guard.service, 7);
    assert_eq!(guard.authorize(Some("Bearer tok")).map(|d| d.token).as_deref(), Some("tok"));
    assert!(guard.authorize(Some("Token tok")).is_none());
    assert!(guard.authorize(None).is_none());
}

#[test]
fn app_data_keeps_token() {
    assert_eq!(AppData::new("x".to_string()).token, "x");
}

#[test]
fn report_prefers_opened_url() {
    let outcome = OperationOutcome::Success(data(Some("https://github.com/a/b/pull/2")));
    assert_eq!(
        report_url(&outcome, 0, "o", "r", 9).as_deref(),
        Some("https://github.com/a/b/pull/2")
    );
    assert_eq!(PrResponse::from_outcome(&outcome).pr_url, "https://github.com/a/b/pull/2");
}

#[test]
fn report_falls_back_on_reviews() {
    let outcome = OperationOutcome::AlreadyExists("exists".to_string());
    assert_eq!(
        report_url(&outcome, 3, "bitcoin", "bitcoin", 79).as_deref(),
        Some("https://github.com/bitcoin/bitcoin/pull/79")
    );
    assert_eq!(report_url(&outcome, 0, "bitcoin", "bitcoin", 79), None);
    assert_eq!(PrResponse::from_outcome(&outcome).pr_url, "");
    let no_url = OperationOutcome::Success(data(None));
    assert_eq!(report_url(&no_url, 0, "o", "r", 1), None);
}

#[test]
fn reviews_request_url() {
    let req = pull_request_reviews_request("bitcoin", "bitcoin", 79, "t");
    assert!(matches!(req.method, RequestMethod::GET));
    assert_eq!(req.url, "https://api.github.com/repos/bitcoin/bitcoin/pulls/79/comments");
}
