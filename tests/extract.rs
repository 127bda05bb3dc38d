use fresh_eyes::{extract_pr_details, PullRequestSide, ResponseData};

fn side(sha: &str, ref_name: &str, login: Option<&str>) -> PullRequestSide {
    PullRequestSide {
        sha: Some(sha.to_string()),
        ref_name: Some(ref_name.to_string()),
        login: login.map(|s| s.to_string()),
    }
}

fn payload(base: PullRequestSide, head: PullRequestSide, number: Option<u64>) -> ResponseData {
    ResponseData {
        html_url: None,
        owner_login: None,
        number,
        title: None,
        body: None,
        base,
        head,
    }
}

#[test]
fn test_extract_base_head_sha() {
    // The payload names no user logins and no number: those parts of the
    // generated branch names read as empty and zero.
    let data = payload(
        side("ccd7fe8de52bbc9210b444838eefb7ddbc880457", "master", None),
        side("8a9cad44a57f1e0057c127ced5078d7e722b9cc8", "rounding", None),
        None,
    );
    let res = extract_pr_details(&data);
    assert_eq!(res.base_sha, "ccd7fe8de52bbc9210b444838eefb7ddbc880457");
    assert_eq!(res.head_sha, "8a9cad44a57f1e0057c127ced5078d7e722b9cc8");
    assert_eq!(res.base_ref, "-fresheyes-master-0");
    assert_eq!(res.head_ref, "-fresheyes-rounding-0");
}

#[test]
fn extract_bitcoin_pull_79() {
    let mut data = payload(
        side("ccd7fe8de52bbc9210b444838eefb7ddbc880457", "master", Some("bitcoin")),
        side("8a9cad44a57f1e0057c127ced5078d7e722b9cc8", "rounding", Some("gavinandresen")),
        Some(79),
    );
    data.title = Some("Rounding".to_string());
    data.body = Some("Fix rounding".to_string());
    let res = extract_pr_details(&data);
    assert_eq!(res.base_ref, "bitcoin-fresheyes-master-79");
    assert_eq!(res.head_ref, "gavinandresen-fresheyes-rounding-79");
    assert_eq!(res.base_sha, "ccd7fe8de52bbc9210b444838eefb7ddbc880457");
    assert_eq!(res.head_sha, "8a9cad44a57f1e0057c127ced5078d7e722b9cc8");
    assert_eq!(res.title, "Rounding");
    assert_eq!(res.body, "Fix rounding");
}

#[test]
fn extract_refs_end_with_number() {
    for n in [0u64, 7, 10, 4096, u64::MAX] {
        let data = payload(side("a", "main", Some("x")), side("b", "feature", Some("y")), Some(n));
        let res = extract_pr_details(&data);
        let suffix = format!("-{}", n);
        assert!(!res.base_ref.is_empty() && res.base_ref.ends_with(&suffix));
        assert!(!res.head_ref.is_empty() && res.head_ref.ends_with(&suffix));
    }
}

#[test]
fn extract_missing_everything() {
    let empty = PullRequestSide { sha: None, ref_name: None, login: None };
    let data = payload(
        PullRequestSide { sha: None, ref_name: None, login: None },
        empty,
        None,
    );
    let res = extract_pr_details(&data);
    assert_eq!(res.base_sha, "");
    assert_eq!(res.head_sha, "");
    assert_eq!(res.base_ref, "-fresheyes--0");
    assert_eq!(res.title, "");
    assert_eq!(res.body, "");
}

#[test]
fn decimal_numerals() {
    assert_eq!(fresh_eyes::decimal(0), "0");
    assert_eq!(fresh_eyes::decimal(9), "9");
    assert_eq!(fresh_eyes::decimal(10), "10");
    assert_eq!(fresh_eyes::decimal(1234567890), "1234567890");
    assert_eq!(fresh_eyes::decimal(u64::MAX), "18446744073709551615");
}
