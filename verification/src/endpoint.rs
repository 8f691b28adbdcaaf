use vstd::prelude::*;
use vstd::string::StringExecFns;

use crate::digits::spec_decimal;
use crate::digits::u64_to_decimal;

verus! {

/// The fixed identifying header value that every outbound request carries.
pub fn user_agent() -> (r: &'static str)
    ensures
        r@ == "Issue Fetcher"@,
{
    "Issue Fetcher"
}

/// The address of an issue resource: the fixed API prefix, then
/// `{owner}/{repo}/issues/{issue_number}`.
pub open spec fn spec_issue_url(owner: Seq<char>, repo: Seq<char>, issue_number: u64) -> Seq<char> {
    "https://api.github.com/repos/"@ + owner + "/"@ + repo + "/issues/"@ + spec_decimal(
        issue_number as nat,
    )
}

/// Builds the issue resource address for a request.
pub fn issue_url(owner: &str, repo: &str, issue_number: u64) -> (r: String)
    ensures
        r@ == spec_issue_url(owner@, repo@, issue_number),
{
    let mut s = String::from_str("https://api.github.com/repos/");
    s.append(owner);
    s.append("/");
    s.append(repo);
    s.append("/issues/");
    let digits = u64_to_decimal(issue_number);
    s.append(digits.as_str());
    s
}

} // verus!
