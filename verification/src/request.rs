use vstd::prelude::*;

verus! {

/// The size, as a power of two, of the Fibonacci trace that a sample proving
/// request asks for.
pub const SAMPLE_LOG_SIZE: u32 = 5;

/// The claim of a sample proving request.
pub const SAMPLE_CLAIM: u32 = 443693538;

/// A request to prove a Fibonacci claim.
#[derive(Clone, Debug, PartialEq, Eq)]
pub struct ProvingRequest {
    pub request_id: String,
    pub log_size: u32,
    pub claim: u32,
}

/// `c` is a lower-case hexadecimal digit.
pub open spec fn is_lower_hex(c: char) -> bool {
    ('0' <= c && c <= '9') || ('a' <= c && c <= 'f')
}

/// `s` is a version-4 UUID in its hyphenated, lower-case text form:
/// 8-4-4-4-12 hexadecimal digits, version digit `4`.
pub open spec fn is_v4_uuid_text(s: Seq<char>) -> bool {
    &&& s.len() == 36
    &&& forall|i: int| 0 <= i < 36 ==>
        (if i == 8 || i == 13 || i == 18 || i == 23 { #[trigger] s[i] == '-' } else { is_lower_hex(s[i]) })
    &&& s[14] == '4'
}

/// Calls `uuid::Uuid::new_v4` and formats it with `to_string`. The identifier
/// is random; what holds of every outcome is its shape: the `Display` impl
/// writes the hyphenated lower-case form, and `new_v4` sets the version
/// digit to 4.
#[verifier::external_body]
fn new_uuid_v4_text() -> (id: String)
    ensures
        is_v4_uuid_text(id@),
{
    uuid::Uuid::new_v4().to_string()
}

impl ProvingRequest {
    /// The sample request for `request_id`: log size 5, the sample claim.
    pub fn sample(request_id: String) -> (r: ProvingRequest)
        ensures
            r.request_id == request_id,
            r.log_size == SAMPLE_LOG_SIZE,
            r.claim == SAMPLE_CLAIM,
    {
        ProvingRequest { request_id, log_size: SAMPLE_LOG_SIZE, claim: SAMPLE_CLAIM }
    }

    /// The sample request under a fresh request identifier.
    pub fn new_sample() -> (r: ProvingRequest)
        ensures
            is_v4_uuid_text(r.request_id@),
            r.log_size == SAMPLE_LOG_SIZE,
            r.claim == SAMPLE_CLAIM,
    {
        ProvingRequest::sample(new_uuid_v4_text())
    }
}

} // verus!
