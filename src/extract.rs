//! Reading a pull request's payload into the values that the mirror needs.

use vstd::prelude::*;

use crate::remote::ResponseData;
use crate::text::{decimal, decimal_of};

verus! {

/// What the mirror needs of the source pull request.
#[derive(Debug)]
pub struct PullRequestDetails {
    pub base_sha: String,
    pub head_sha: String,
    /// Name of the branch that stands for the base side in the fork.
    pub base_ref: String,
    /// Name of the branch that stands for the head side in the fork.
    pub head_ref: String,
    pub title: String,
    pub body: String,
}

/// A text field, empty where it is missing.
pub open spec fn text_or_empty(o: Option<String>) -> Seq<char> {
    match o {
        Some(s) => s@,
        None => Seq::empty(),
    }
}

/// The pull request number, zero where it is missing.
pub open spec fn number_or_zero(o: Option<u64>) -> nat {
    match o {
        Some(n) => n as nat,
        None => 0,
    }
}

/// The branch name generated for one side of a pull request:
/// `{login}-fresheyes-{ref}-{number}`.
pub open spec fn generated_ref(login: Seq<char>, ref_name: Seq<char>, number: nat) -> Seq<char> {
    login + "-fresheyes-"@ + ref_name + "-"@ + decimal_of(number)
}

/// The generated name of the base branch of the pull request in `data`.
pub open spec fn base_ref_of(data: ResponseData) -> Seq<char> {
    generated_ref(
        text_or_empty(data.base.login),
        text_or_empty(data.base.ref_name),
        number_or_zero(data.number),
    )
}

/// The generated name of the head branch of the pull request in `data`.
pub open spec fn head_ref_of(data: ResponseData) -> Seq<char> {
    generated_ref(
        text_or_empty(data.head.login),
        text_or_empty(data.head.ref_name),
        number_or_zero(data.number),
    )
}

/// `details` holds what `data` says of the pull request, missing fields
/// read as empty.
pub open spec fn details_of(data: ResponseData, details: PullRequestDetails) -> bool {
    &&& details.base_sha@ == text_or_empty(data.base.sha)
    &&& details.head_sha@ == text_or_empty(data.head.sha)
    &&& details.base_ref@ == base_ref_of(data)
    &&& details.head_ref@ == head_ref_of(data)
    &&& details.title@ == text_or_empty(data.title)
    &&& details.body@ == text_or_empty(data.body)
}

fn text_of(o: &Option<String>) -> (r: String)
    ensures
        r@ == text_or_empty(*o),
{
    match o {
        Some(s) => s.clone(),
        None => String::new(),
    }
}

fn branch_name(login: &Option<String>, ref_name: &Option<String>, number: &str) -> (r: String)
    ensures
        r@ == text_or_empty(*login) + "-fresheyes-"@ + text_or_empty(*ref_name) + "-"@ + number@,
{
    let mut r = text_of(login);
    r.append("-fresheyes-");
    let name = text_of(ref_name);
    r.append(name.as_str());
    r.append("-");
    r.append(number);
    r
}

/// Extracts the shas, title and body of a pull request, and generates the
/// names of the two branches that stand for its sides in the fork. Never
/// fails: a missing field reads as empty, a missing number as zero.
pub fn extract_pr_details(data: &ResponseData) -> (r: PullRequestDetails)
    ensures
        details_of(*data, r),
{
    let number = match data.number {
        Some(n) => decimal(n),
        None => decimal(0),
    };
    PullRequestDetails {
        base_sha: text_of(&data.base.sha),
        head_sha: text_of(&data.head.sha),
        base_ref: branch_name(&data.base.login, &data.base.ref_name, number.as_str()),
        head_ref: branch_name(&data.head.login, &data.head.ref_name, number.as_str()),
        title: text_of(&data.title),
        body: text_of(&data.body),
    }
}

proof fn lemma_generated_ref_suffix(login: Seq<char>, ref_name: Seq<char>, number: nat)
    ensures
        generated_ref(login, ref_name, number).len() > 0,
        generated_ref(login, ref_name, number).len() >= ("-"@ + decimal_of(number)).len(),
        generated_ref(login, ref_name, number).subrange(
            generated_ref(login, ref_name, number).len() - ("-"@ + decimal_of(number)).len(),
            generated_ref(login, ref_name, number).len() as int,
        ) == "-"@ + decimal_of(number),
{
    reveal_strlit("-fresheyes-");
    let prefix = login + "-fresheyes-"@ + ref_name;
    let suffix = "-"@ + decimal_of(number);
    let g = generated_ref(login, ref_name, number);
    assert(g =~= prefix + suffix);
    assert(g.subrange(prefix.len() as int, g.len() as int) =~= suffix);
}

/// For a payload that carries a number, both generated branch names are
/// non-empty and end with `-` and that number in decimal.
pub proof fn lemma_generated_refs_end_with_number(data: ResponseData)
    requires
        data.number is Some,
    ensures
        ({
            let suffix = "-"@ + decimal_of(data.number->Some_0 as nat);
            &&& base_ref_of(data).len() > 0
            &&& head_ref_of(data).len() > 0
            &&& base_ref_of(data).len() >= suffix.len()
            &&& head_ref_of(data).len() >= suffix.len()
            &&& base_ref_of(data).subrange(
                base_ref_of(data).len() - suffix.len(),
                base_ref_of(data).len() as int,
            ) == suffix
            &&& head_ref_of(data).subrange(
                head_ref_of(data).len() - suffix.len(),
                head_ref_of(data).len() as int,
            ) == suffix
        }),
{
    let n = data.number->Some_0 as nat;
    lemma_generated_ref_suffix(text_or_empty(data.base.login), text_or_empty(data.base.ref_name), n);
    lemma_generated_ref_suffix(text_or_empty(data.head.login), text_or_empty(data.head.ref_name), n);
}

} // verus!
