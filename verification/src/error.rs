use vstd::prelude::*;
use vstd::string::StringExecFns;

verus! {

/// The distinct terminal failures of one fetch: a transport failure, a
/// non-success status, a missing cache-validation header, a header that is
/// not representable as text, and a body that does not parse as the issue
/// schema (carrying the parse failure's description).
#[derive(Debug)]
pub enum FetchError {
    Network(String),
    Status,
    MissingEtag,
    UnreadableEtag,
    Deserialize(String),
}

impl FetchError {
    /// The human-readable message for each failure kind.
    pub open spec fn spec_message(self) -> Seq<char> {
        match self {
            FetchError::Network(m) => m@,
            FetchError::Status => "Failed to fetch issue"@,
            FetchError::MissingEtag => "ETag header is missing in the response"@,
            FetchError::UnreadableEtag => "Failed to convert ETag header to string"@,
            FetchError::Deserialize(m) => "Failed to deserialize issue from response: "@ + m@,
        }
    }

    /// Renders the failure as the message `spec_message` describes.
    pub fn message(&self) -> (r: String)
        ensures
            r@ == self.spec_message(),
    {
        match self {
            FetchError::Network(m) => m.clone(),
            FetchError::Status => "Failed to fetch issue".to_owned(),
            FetchError::MissingEtag => "ETag header is missing in the response".to_owned(),
            FetchError::UnreadableEtag => "Failed to convert ETag header to string".to_owned(),
            FetchError::Deserialize(m) => {
                let mut s = String::from_str("Failed to deserialize issue from response: ");
                s.append(m.as_str());
                s
            },
        }
    }
}

/// The message of a parse failure carries the underlying parse failure's
/// description verbatim: it appears in the message as a contiguous block.
pub proof fn lemma_deserialize_message_contains_cause(e: FetchError, m: String)
    requires
        e == FetchError::Deserialize(m),
    ensures
        exists|i: int|
            0 <= i && i + m@.len() <= e.spec_message().len() && #[trigger] e.spec_message()
                .subrange(i, i + m@.len() as int) == m@,
{
    let p = "Failed to deserialize issue from response: "@;
    assert(e.spec_message() == p + m@);
    assert((p + m@).subrange(p.len() as int, p.len() + m@.len() as int) =~= m@);
    assert(0 <= p.len() as int && p.len() + m@.len() <= e.spec_message().len()
        && e.spec_message().subrange(p.len() as int, p.len() + m@.len() as int) == m@);
}

} // verus!
