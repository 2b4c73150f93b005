use vstd::prelude::*;

verus! {

/// The failures this library distinguishes. Decoding failures (`Base64Url`,
/// `Utf8`, `Json`) mark a malformed bearer token; `EmptyResponse` a lookup
/// that returned zero rows where one was required, tagged with the resource
/// class; `NoPermission` a resolution with no matching grant at any scope,
/// tagged with the table; `NoRoleTokens` a federation response missing a
/// credential field, tagged with the role and the field; `Other` a structural
/// violation described by a message. A caller can thereby tell "you are not
/// authorized" (`NoPermission`) from "the request could not be completed".
#[derive(Debug, Clone, PartialEq, Eq)]
pub enum Error {
    /// The token's payload segment was not valid base64url.
    Base64Url,
    /// The decoded token payload was not valid UTF-8.
    Utf8,
    /// The token payload text was not valid JSON.
    Json,
    /// A query that must return a row returned none; names the resource class.
    EmptyResponse(String),
    /// No grant matches the request at any scope; names the table.
    NoPermission(String),
    /// The federation response lacked a field; names the role and the field.
    NoRoleTokens(String, String),
    /// Any other structural violation, described by a message.
    Other(String),
}

} // verus!
