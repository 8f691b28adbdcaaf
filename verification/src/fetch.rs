use vstd::prelude::*;

use crate::error::FetchError;
use crate::etag::spec_etag_chars;
use crate::etag::spec_etag_readable;
use crate::etag::etag_text;
use crate::issue::spec_issue_parse_error;
use crate::issue::spec_issue_parses;
use crate::issue::parse_issue;

verus! {

/// What one successful fetch yields: the cache-validation token of the
/// response together with the issue the body described.
pub struct IssueResponse {
    pub etag: String,
    pub issue: octocrab::models::issues::Issue,
}

/// Whether an HTTP status code counts as a success (2xx) response.
pub open spec fn spec_is_success(status: u16) -> bool {
    200 <= status <= 299
}

/// Executable check for a 2xx status code.
pub fn is_success(status: u16) -> (r: bool)
    ensures
        r == spec_is_success(status),
{
    200 <= status && status <= 299
}

/// The five terminal outcomes of inspecting one response: exactly one holds
/// for any response, and only `Accepted` carries a result.
pub enum SpecOutcome {
    Accepted(Seq<char>),
    StatusFailure,
    MissingEtag,
    UnreadableEtag,
    ParseFailure(Seq<char>),
}

/// The header bytes a response carried, if any, as a mathematical value.
pub open spec fn spec_opt_bytes(etag: Option<Vec<u8>>) -> Option<Seq<u8>> {
    match etag {
        Option::None => Option::None,
        Option::Some(v) => Option::Some(v@),
    }
}

/// The outcome owed for a response: a non-2xx status fails; a 2xx response
/// without the cache-validation header fails; one whose header is not
/// representable as text fails; one whose body does not parse as the issue
/// schema fails with that parse failure's description; otherwise the
/// header's text is accepted.
pub open spec fn spec_eval(status: u16, etag: Option<Seq<u8>>, body: Seq<u8>) -> SpecOutcome {
    if !spec_is_success(status) {
        SpecOutcome::StatusFailure
    } else {
        match etag {
            Option::None => SpecOutcome::MissingEtag,
            Option::Some(t) => if !spec_etag_readable(t) {
                SpecOutcome::UnreadableEtag
            } else if !spec_issue_parses(body) {
                SpecOutcome::ParseFailure(spec_issue_parse_error(body))
            } else {
                SpecOutcome::Accepted(spec_etag_chars(t))
            },
        }
    }
}

/// Inspects one response — its status, its cache-validation header as raw
/// bytes, and its body — and returns the response value or the failure that
/// `spec_eval` owes it.
pub fn evaluate(status: u16, etag: Option<Vec<u8>>, body: Vec<u8>) -> (r: Result<
    IssueResponse,
    FetchError,
>)
    ensures
        r is Ok <==> spec_eval(status, spec_opt_bytes(etag), body@) is Accepted,
        (match spec_eval(status, spec_opt_bytes(etag), body@) {
            SpecOutcome::Accepted(t) => r matches Ok(resp) && resp.etag@ == t,
            SpecOutcome::StatusFailure => r == Err::<IssueResponse, FetchError>(
                FetchError::Status,
            ),
            SpecOutcome::MissingEtag => r == Err::<IssueResponse, FetchError>(
                FetchError::MissingEtag,
            ),
            SpecOutcome::UnreadableEtag => r == Err::<IssueResponse, FetchError>(
                FetchError::UnreadableEtag,
            ),
            SpecOutcome::ParseFailure(d) => r matches Err(e) && e matches FetchError::Deserialize(m)
                && m@ == d,
        }),
{
    if !is_success(status) {
        return Err(FetchError::Status);
    }
    let tag = match etag {
        Option::None => {
            return Err(FetchError::MissingEtag);
        },
        Option::Some(t) => t,
    };
    let text = match etag_text(tag) {
        Option::None => {
            return Err(FetchError::UnreadableEtag);
        },
        Option::Some(s) => s,
    };
    match parse_issue(&body) {
        Ok(issue) => Ok(IssueResponse { etag: text, issue }),
        Err(m) => Err(FetchError::Deserialize(m)),
    }
}

/// A response whose status is not a success never yields a response value,
/// whatever its header and body hold.
pub proof fn lemma_status_failure_no_response(status: u16, etag: Option<Seq<u8>>, body: Seq<u8>)
    requires
        !spec_is_success(status),
    ensures
        spec_eval(status, etag, body) == SpecOutcome::StatusFailure,
{
}

/// A success response without the cache-validation header fails with the
/// missing-header outcome, whatever its body holds: the body is never
/// consulted.
pub proof fn lemma_missing_etag_ignores_body(status: u16, body1: Seq<u8>, body2: Seq<u8>)
    requires
        spec_is_success(status),
    ensures
        spec_eval(status, Option::None, body1) == SpecOutcome::MissingEtag,
        spec_eval(status, Option::None, body1) == spec_eval(status, Option::None, body2),
{
}

/// Repeating the same request against an unchanged response yields an
/// identical outcome: the owed outcome is a function of the response alone.
pub proof fn lemma_fetch_idempotent(
    status1: u16,
    etag1: Option<Seq<u8>>,
    body1: Seq<u8>,
    status2: u16,
    etag2: Option<Seq<u8>>,
    body2: Seq<u8>,
)
    requires
        status1 == status2,
        etag1 == etag2,
        body1 == body2,
    ensures
        spec_eval(status1, etag1, body1) == spec_eval(status2, etag2, body2),
{
}

} // verus!
