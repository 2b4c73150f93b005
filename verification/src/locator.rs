use vstd::prelude::*;
use vstd::string::StrSliceExecFns;

use crate::error::Error;
use crate::text::{find_char, find_char_from, str_eq};

verus! {

/// The cloud account and region bound to one catalog, as the backend stores
/// them: one record per tenant catalog.
#[derive(Debug, Clone, PartialEq, Eq)]
pub struct Account {
    pub catalog_name: String,
    pub cloud_account_id: String,
    pub cloud_region: String,
}

/// Index of the first account at or after `i` bound to `name`, or
/// `accounts.len()` if there is none.
pub open spec fn first_account_from(accounts: Seq<Account>, name: Seq<char>, i: int) -> int
    decreases accounts.len() - i,
{
    if i < 0 || i >= accounts.len() {
        accounts.len() as int
    } else if accounts[i].catalog_name@ == name {
        i
    } else {
        first_account_from(accounts, name, i + 1)
    }
}

/// The account record bound to a catalog, if the backend returned one.
pub open spec fn account_lookup_spec(accounts: Seq<Account>, name: Seq<char>) -> Option<Account> {
    let i = first_account_from(accounts, name, 0);
    if i < accounts.len() {
        Option::Some(accounts[i])
    } else {
        Option::None
    }
}

/// `first_account_from` returns an in-range index, points at a binding for
/// `name` when it found one, and skips no earlier binding.
pub proof fn lemma_first_account_from(accounts: Seq<Account>, name: Seq<char>, i: int)
    requires
        0 <= i <= accounts.len(),
    ensures
        i <= first_account_from(accounts, name, i) <= accounts.len(),
        first_account_from(accounts, name, i) < accounts.len()
            ==> accounts[first_account_from(accounts, name, i)].catalog_name@ == name,
        forall|j: int|
            i <= j < first_account_from(accounts, name, i) ==> accounts[j].catalog_name@ != name,
    decreases accounts.len() - i,
{
    if i < accounts.len() && accounts[i].catalog_name@ != name {
        lemma_first_account_from(accounts, name, i + 1);
    }
}

/// Account Locator: the flat lookup of the cloud account id and region bound
/// to a catalog, over the account rows the backend returned. Zero rows for
/// the catalog is an empty-response error naming the resource class
/// `account`; there is no fallback scope.
pub fn find_account(accounts: &Vec<Account>, catalog_name: &str) -> (r: Result<Account, Error>)
    ensures
        match r {
            Result::Ok(a) => account_lookup_spec(accounts@, catalog_name@) == Option::Some(a),
            Result::Err(e) => account_lookup_spec(accounts@, catalog_name@) is None && (
            e matches Error::EmptyResponse(c) && c@ == "account"@),
        },
        r is Ok <==> exists|i: int|
            0 <= i < accounts@.len() && accounts@[i].catalog_name@ == catalog_name@,
{
    proof {
        lemma_first_account_from(accounts@, catalog_name@, 0);
    }
    let n = accounts.len();
    let mut i: usize = 0;
    while i < n
        invariant
            0 <= i <= n,
            n == accounts@.len(),
            first_account_from(accounts@, catalog_name@, 0) == first_account_from(
                accounts@,
                catalog_name@,
                i as int,
            ),
        decreases n - i,
    {
        let a = &accounts[i];
        if str_eq(a.catalog_name.as_str(), catalog_name) {
            return Result::Ok(
                Account {
                    catalog_name: a.catalog_name.clone(),
                    cloud_account_id: a.cloud_account_id.clone(),
                    cloud_region: a.cloud_region.clone(),
                },
            );
        }
        i = i + 1;
    }
    Result::Err(Error::EmptyResponse("account".to_owned()))
}

/// The storage bucket a metadata location of the form
/// `s3://<bucket>/<path...>` names: the first path segment after the scheme.
/// Nothing when the scheme is absent or the segment is empty.
pub open spec fn bucket_extraction(location: Seq<char>) -> Option<Seq<char>> {
    if location.len() >= 5 && location.subrange(0, 5) == "s3://"@ {
        let b = location.subrange(5, find_char_from(location, '/', 5));
        if b.len() > 0 {
            Option::Some(b)
        } else {
            Option::None
        }
    } else {
        Option::None
    }
}

/// Bucket Locator post-processing: strips the storage-scheme prefix from a
/// stored metadata location and takes the first path segment as the bucket
/// name. An absent scheme or an empty segment is an error.
pub fn extract_bucket(metadata_location: &str) -> (r: Result<String, Error>)
    ensures
        match r {
            Result::Ok(b) => bucket_extraction(metadata_location@) == Option::Some(b@),
            Result::Err(e) => bucket_extraction(metadata_location@) is None && (
            e matches Error::Other(m) && m@ == "No bucket name in metadata location"@),
        },
{
    let len = metadata_location.unicode_len();
    if len < 5 {
        return Result::Err(Error::Other("No bucket name in metadata location".to_owned()));
    }
    let scheme = metadata_location.substring_char(0, 5);
    if !str_eq(scheme, "s3://") {
        return Result::Err(Error::Other("No bucket name in metadata location".to_owned()));
    }
    let end = find_char(metadata_location, '/', 5);
    if end == 5 {
        return Result::Err(Error::Other("No bucket name in metadata location".to_owned()));
    }
    proof {
        crate::text::lemma_find_char_from(metadata_location@, '/', 5);
    }
    let bucket = metadata_location.substring_char(5, end);
    Result::Ok(bucket.to_owned())
}

/// Bucket Locator: the bucket of the table whose metadata locations the
/// backend returned for one exact table coordinate (restricted to one row:
/// only the first is consulted). Zero rows is an empty-response error naming
/// the resource class `table`.
pub fn locate_bucket(metadata_locations: &Vec<String>) -> (r: Result<String, Error>)
    ensures
        match r {
            Result::Ok(b) => metadata_locations@.len() > 0 && bucket_extraction(
                metadata_locations@[0]@,
            ) == Option::Some(b@),
            Result::Err(e) => match e {
                Error::EmptyResponse(c) => metadata_locations@.len() == 0 && c@ == "table"@,
                Error::Other(m) => metadata_locations@.len() > 0 && bucket_extraction(
                    metadata_locations@[0]@,
                ) is None && m@ == "No bucket name in metadata location"@,
                _ => false,
            },
        },
{
    if metadata_locations.len() == 0 {
        return Result::Err(Error::EmptyResponse("table".to_owned()));
    }
    extract_bucket(metadata_locations[0].as_str())
}

} // verus!
