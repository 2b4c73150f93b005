use vstd::prelude::*;
use vstd::string::StrSliceExecFns;
use vstd::utf8::{decode_utf8, valid_utf8};

use crate::error::Error;
use crate::text::{find_char, find_char_from};

verus! {

// A bearer token is a three-part dot-delimited string whose middle segment is
// base64url-encoded JSON carrying an `organization` string claim. Extraction
// reads that claim and nothing else: the token's signature is never checked
// here, since authenticity is the transport's responsibility upstream, and
// extraction must not be mistaken for an authentication step.

/// Whether a token has a payload segment: at least one `.`, so that a second
/// dot-delimited segment (possibly empty) exists.
pub open spec fn has_payload_segment(s: Seq<char>) -> bool {
    find_char_from(s, '.', 0) < s.len()
}

/// The token's payload: the characters between the first `.` and the next `.`
/// (or the end).
pub open spec fn payload_segment(s: Seq<char>) -> Seq<char> {
    let start = find_char_from(s, '.', 0) + 1;
    s.subrange(start, find_char_from(s, '.', start))
}

/// Extracts the payload (second dot-delimited) segment of a token.
fn payload_of(token: &str) -> (r: &str)
    requires
        has_payload_segment(token@),
    ensures
        r@ == payload_segment(token@),
{
    proof {
        crate::text::lemma_find_char_from(token@, '.', 0);
    }
    let len = token.unicode_len();
    let first = find_char(token, '.', 0);
    assert(first < len);
    let start = first + 1;
    proof {
        crate::text::lemma_find_char_from(token@, '.', start as int);
    }
    let end = find_char(token, '.', start);
    token.substring_char(start, end)
}

/// What `base64_url::decode` returns on a given input: the decoded bytes, or
/// nothing when the input is not valid unpadded URL-safe base64. The result
/// depends on the input characters alone.
pub uninterp spec fn b64url_decoded(s: Seq<char>) -> Option<Seq<u8>>;

/// Relies on `base64_url::decode` (URL-safe alphabet, no padding): it decodes
/// the input or reports a decoding error, as a function of the input alone.
#[verifier::external_body]
fn b64url_decode(s: &str) -> (r: Option<Vec<u8>>)
    ensures
        match r {
            Option::Some(v) => b64url_decoded(s@) == Option::Some(v@),
            Option::None => b64url_decoded(s@) is None,
        },
{
    base64_url::decode(s).ok()
}

/// Relies on `String::from_utf8`: it succeeds exactly on valid UTF-8 and
/// returns the decoded characters.
#[verifier::external_body]
fn utf8_to_string(bytes: Vec<u8>) -> (r: Option<String>)
    ensures
        match r {
            Option::Some(s) => valid_utf8(bytes@) && s@ == decode_utf8(bytes@),
            Option::None => !valid_utf8(bytes@),
        },
{
    String::from_utf8(bytes).ok()
}

/// The organization claim of a JSON text: `None` when the text is not valid
/// JSON; `Some(None)` when it is, but its top-level `organization` member is
/// missing or not a JSON string; `Some(Some(org))` otherwise. A function of
/// the text alone.
pub uninterp spec fn org_claim_of(text: Seq<char>) -> Option<Option<Seq<char>>>;

/// The organization claim held by a parsed JSON document: what its top-level
/// `organization` member is, when that member is a JSON string.
pub uninterp spec fn value_org_claim(v: serde_json::Value) -> Option<Seq<char>>;

#[verifier::external_type_specification]
#[verifier::external_body]
pub struct ExJsonValue(serde_json::Value);

/// Relies on `serde_json::from_str::<Value>`: parsing succeeds exactly on
/// valid JSON and is a function of the text alone, and the claim the parsed
/// document holds is the claim of the text.
#[verifier::external_body]
fn json_from_str(text: &str) -> (r: Option<serde_json::Value>)
    ensures
        match r {
            Option::Some(v) => org_claim_of(text@) == Option::Some(value_org_claim(v)),
            Option::None => org_claim_of(text@) is None,
        },
{
    serde_json::from_str(text).ok()
}

/// Relies on `serde_json::Value::get`: it returns the member under the given
/// key of a JSON object, and nothing for other documents or absent keys.
#[verifier::external_body]
fn org_claim(v: &serde_json::Value) -> (r: Option<String>)
    ensures
        match r {
            Option::Some(s) => value_org_claim(*v) == Option::Some(s@),
            Option::None => value_org_claim(*v) is None,
        },
{
    match v.get("organization") {
        Option::Some(serde_json::Value::String(s)) => Option::Some(s.clone()),
        _ => Option::None,
    }
}

/// How claim extraction can fail, stage by stage.
pub enum ClaimError {
    /// The payload segment is not valid base64url.
    Base64,
    /// The decoded payload is not valid UTF-8.
    Utf8,
    /// The payload text is not valid JSON.
    Json,
    /// The document has no `organization` member that is a JSON string.
    NotAString,
}

/// The outcome of extracting the organization claim from a token: the claim,
/// or the first stage that fails.
pub open spec fn organization_of(token: Seq<char>) -> Result<Seq<char>, ClaimError> {
    match b64url_decoded(payload_segment(token)) {
        Option::None => Result::Err(ClaimError::Base64),
        Option::Some(bytes) => if !valid_utf8(bytes) {
            Result::Err(ClaimError::Utf8)
        } else {
            match org_claim_of(decode_utf8(bytes)) {
                Option::None => Result::Err(ClaimError::Json),
                Option::Some(Option::None) => Result::Err(ClaimError::NotAString),
                Option::Some(Option::Some(org)) => Result::Ok(org),
            }
        },
    }
}

/// Which library error reports a given claim-extraction failure.
pub open spec fn is_claim_error(e: Error, ce: ClaimError) -> bool {
    match ce {
        ClaimError::Base64 => e == Error::Base64Url,
        ClaimError::Utf8 => e == Error::Utf8,
        ClaimError::Json => e == Error::Json,
        ClaimError::NotAString => e matches Error::Other(m) && m@
            == "Organization claim is not a string"@,
    }
}

/// Decodes the organization claim out of a bearer token: splits on `.`, takes
/// the second segment, base64url-decodes it, reads the bytes as UTF-8, parses
/// the text as JSON and requires the `organization` member to be a string.
/// Each stage that fails is a distinct error. The token's signature is not
/// verified: upstream transport is trusted to have done so.
pub fn get_organization(access_token: &str) -> (r: Result<String, Error>)
    requires
        has_payload_segment(access_token@),
    ensures
        match r {
            Result::Ok(org) => organization_of(access_token@) == Result::Ok::<
                Seq<char>,
                ClaimError,
            >(org@),
            Result::Err(e) => organization_of(access_token@) matches Result::Err(ce)
                && is_claim_error(e, ce),
        },
{
    let payload = payload_of(access_token);
    let bytes = match b64url_decode(payload) {
        Option::Some(b) => b,
        Option::None => {
            return Result::Err(Error::Base64Url);
        },
    };
    let text = match utf8_to_string(bytes) {
        Option::Some(t) => t,
        Option::None => {
            return Result::Err(Error::Utf8);
        },
    };
    let value = match json_from_str(text.as_str()) {
        Option::Some(v) => v,
        Option::None => {
            return Result::Err(Error::Json);
        },
    };
    match org_claim(&value) {
        Option::Some(org) => Result::Ok(org),
        Option::None => Result::Err(
            Error::Other("Organization claim is not a string".to_owned()),
        ),
    }
}

} // verus!
