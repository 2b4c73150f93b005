use vstd::prelude::*;

use crate::error::Error;
use crate::text::concat4;

verus! {

// Credential Federator: a role identity plus the caller's id token are
// exchanged for temporary storage credentials against the cloud provider's
// security token service. The exchange itself is a network call made outside
// the library; what is verified here is the role naming convention the
// request carries and the validation of the response, field by field.

/// The credential fields of a federation response, each individually optional
/// in the provider's reply.
#[derive(Debug, Clone, PartialEq, Eq)]
pub struct StsCredentials {
    pub access_key_id: Option<String>,
    pub secret_access_key: Option<String>,
    pub session_token: Option<String>,
}

/// A complete set of federated credentials: all three fields present. Partial
/// sets never leave the federator, since they are silently unusable
/// downstream.
#[derive(Debug, Clone, PartialEq, Eq)]
pub struct FederatedCredentials {
    pub access_key_id: String,
    pub secret_access_key: String,
    pub session_token: String,
}

/// The storage-client configuration a resolution produces: the region and the
/// federated credentials, exactly as issued.
#[derive(Debug, Clone, PartialEq, Eq)]
pub struct StorageConfig {
    pub region: String,
    pub access_key_id: String,
    pub secret_access_key: String,
    pub session_token: String,
}

/// The name of the first credential field missing from a federation response,
/// in the order checked: the credential record itself, then access key id,
/// secret access key, session token. Nothing when the set is complete.
pub open spec fn missing_field(creds: Option<StsCredentials>) -> Option<Seq<char>> {
    match creds {
        Option::None => Option::Some("credentials"@),
        Option::Some(c) => if c.access_key_id is None {
            Option::Some("access key id"@)
        } else if c.secret_access_key is None {
            Option::Some("secret access key"@)
        } else if c.session_token is None {
            Option::Some("session token"@)
        } else {
            Option::None
        },
    }
}

/// The role ARN the federation request names, by the fixed convention
/// `arn:aws:iam::<cloud_account_id>:role/dashbook-<role>` that external
/// systems must provision roles against.
pub fn role_arn(cloud_account_id: &str, role: &str) -> (r: String)
    ensures
        r@ == "arn:aws:iam::"@ + cloud_account_id@ + ":role/dashbook-"@ + role@,
{
    concat4("arn:aws:iam::", cloud_account_id, ":role/dashbook-", role)
}

/// Validates a federation response for `role`: every credential field is
/// individually required, and the first absent one is reported as a distinct
/// missing-credential-field error naming both the role and the field, so that
/// a partial credential set stays diagnosable. A complete response yields the
/// issued values exactly.
pub fn extract_credentials(role: &str, creds: Option<StsCredentials>) -> (r: Result<
    FederatedCredentials,
    Error,
>)
    ensures
        match r {
            Result::Ok(fc) => missing_field(creds) is None && (creds matches Option::Some(c)
                && c.access_key_id == Option::Some(fc.access_key_id) && c.secret_access_key
                == Option::Some(fc.secret_access_key) && c.session_token == Option::Some(
                fc.session_token,
            )),
            Result::Err(e) => missing_field(creds) matches Option::Some(f) && (
            e matches Error::NoRoleTokens(rl, fname) && rl@ == role@ && fname@ == f),
        },
{
    let c = match creds {
        Option::Some(c) => c,
        Option::None => {
            return Result::Err(
                Error::NoRoleTokens(role.to_owned(), "credentials".to_owned()),
            );
        },
    };
    let access_key_id = match c.access_key_id {
        Option::Some(v) => v,
        Option::None => {
            return Result::Err(
                Error::NoRoleTokens(role.to_owned(), "access key id".to_owned()),
            );
        },
    };
    let secret_access_key = match c.secret_access_key {
        Option::Some(v) => v,
        Option::None => {
            return Result::Err(
                Error::NoRoleTokens(role.to_owned(), "secret access key".to_owned()),
            );
        },
    };
    let session_token = match c.session_token {
        Option::Some(v) => v,
        Option::None => {
            return Result::Err(
                Error::NoRoleTokens(role.to_owned(), "session token".to_owned()),
            );
        },
    };
    Result::Ok(FederatedCredentials { access_key_id, secret_access_key, session_token })
}

/// Binds a validated federation response for `role` into the storage-client
/// configuration of `region`, with the credentials carried over exactly.
pub fn s3_storage_config(region: &str, role: &str, creds: Option<StsCredentials>) -> (r: Result<
    StorageConfig,
    Error,
>)
    ensures
        match r {
            Result::Ok(sc) => missing_field(creds) is None && sc.region@ == region@ && (
            creds matches Option::Some(c) && c.access_key_id == Option::Some(sc.access_key_id)
                && c.secret_access_key == Option::Some(sc.secret_access_key) && c.session_token
                == Option::Some(sc.session_token)),
            Result::Err(e) => missing_field(creds) matches Option::Some(f) && (
            e matches Error::NoRoleTokens(rl, fname) && rl@ == role@ && fname@ == f),
        },
{
    let fc = match extract_credentials(role, creds) {
        Result::Ok(fc) => fc,
        Result::Err(e) => {
            return Result::Err(e);
        },
    };
    Result::Ok(
        StorageConfig {
            region: region.to_owned(),
            access_key_id: fc.access_key_id,
            secret_access_key: fc.secret_access_key,
            session_token: fc.session_token,
        },
    )
}

} // verus!
