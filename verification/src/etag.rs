use vstd::prelude::*;

verus! {

/// Whether a header byte can be carried in a plain string: the visible
/// ASCII range together with space and horizontal tab.
pub open spec fn spec_readable_byte(b: u8) -> bool {
    32 <= b < 127 || b == 9
}

/// Whether a cache-validation header value is representable as a plain string.
pub open spec fn spec_etag_readable(bytes: Seq<u8>) -> bool {
    forall|i: int| 0 <= i < bytes.len() ==> spec_readable_byte(bytes[i])
}

/// The characters of a readable header value: each byte stands for the
/// character with the same code point.
pub open spec fn spec_etag_chars(bytes: Seq<u8>) -> Seq<char> {
    bytes.map_values(|b: u8| b as char)
}

/// Executable check of `spec_etag_readable`.
pub fn etag_readable(bytes: &Vec<u8>) -> (r: bool)
    ensures
        r == spec_etag_readable(bytes@),
{
    let mut i: usize = 0;
    while i < bytes.len()
        invariant
            0 <= i <= bytes@.len(),
            forall|j: int| 0 <= j < i ==> spec_readable_byte(bytes@[j]),
        decreases bytes@.len() - i,
    {
        let b = bytes[i];
        if !((32 <= b && b < 127) || b == 9) {
            proof {
                assert(!spec_readable_byte(bytes@[i as int]));
            }
            return false;
        }
        i += 1;
    }
    true
}

/// Relies on `String::from_utf8`: ASCII bytes are valid UTF-8, and each
/// decodes to the character with the same code point.
#[verifier::external_body]
fn ascii_to_string(bytes: Vec<u8>) -> (r: String)
    requires
        forall|i: int| 0 <= i < bytes@.len() ==> bytes@[i] < 128,
    ensures
        r@ == spec_etag_chars(bytes@),
{
    String::from_utf8(bytes).unwrap_or_default()
}

/// Converts a header value to its text, exactly when every byte is readable.
pub fn etag_text(bytes: Vec<u8>) -> (r: Option<String>)
    ensures
        r is Some <==> spec_etag_readable(bytes@),
        r matches Some(s) ==> s@ == spec_etag_chars(bytes@),
{
    if etag_readable(&bytes) {
        proof {
            assert forall|i: int| 0 <= i < bytes@.len() implies bytes@[i] < 128 by {
                assert(spec_readable_byte(bytes@[i]));
            }
        }
        Some(ascii_to_string(bytes))
    } else {
        None
    }
}

} // verus!
