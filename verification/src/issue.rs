use vstd::prelude::*;

verus! {

#[verifier::external_type_specification]
#[verifier::external_body]
pub struct ExIssue(octocrab::models::issues::Issue);

/// Whether a byte sequence parses as the external API's issue schema.
/// Names the outcome of `serde_json::from_slice` for that schema, which
/// depends on the bytes alone.
pub uninterp spec fn spec_issue_parses(body: Seq<u8>) -> bool;

/// The rendered description of the parse failure for a byte sequence that
/// does not parse as the issue schema; it too depends on the bytes alone.
pub uninterp spec fn spec_issue_parse_error(body: Seq<u8>) -> Seq<char>;

/// Relies on `serde_json::from_slice` with octocrab's issue model: the call
/// succeeds exactly when the bytes parse as the issue schema, and the error's
/// rendering is a function of the bytes.
#[verifier::external_body]
pub(crate) fn parse_issue(body: &Vec<u8>) -> (r: Result<octocrab::models::issues::Issue, String>)
    ensures
        r is Ok <==> spec_issue_parses(body@),
        r matches Err(m) ==> m@ == spec_issue_parse_error(body@),
{
    match serde_json::from_slice::<octocrab::models::issues::Issue>(body) {
        Ok(issue) => Ok(issue),
        Err(err) => Err(err.to_string()),
    }
}

} // verus!
