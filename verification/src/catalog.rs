use vstd::prelude::*;

use crate::claims::{get_organization, has_payload_segment, organization_of, ClaimError};
use crate::error::Error;
use crate::federation::{missing_field, s3_storage_config, StorageConfig, StsCredentials};
use crate::locator::{
    account_lookup_spec, bucket_extraction, find_account, locate_bucket, Account,
};
use crate::resolver::{get_role, resolve_role_spec, RoleGrant};
use crate::text::{concat3, str_eq};

verus! {

// Catalog Factory: one tenant-wide session eagerly resolves, per catalog the
// caller's organization can reach, the account binding and the catalog-scope
// write role, into an immutable lookup table built once at the start of the
// session (rebuilt per session, never cached across them). From that table
// one catalog handle at a time is bound, lazily, by a federation exchange.

/// A row of a catalog listing query.
#[derive(Debug, Clone, PartialEq, Eq)]
pub struct CatalogResponse {
    pub catalog_name: String,
}

/// A row of a catalog-scope permission query: a catalog and a role granted on
/// all of it.
#[derive(Debug, Clone, PartialEq, Eq)]
pub struct RoleRow {
    pub catalog_name: String,
    pub role_id: String,
}

/// What one catalog resolution carries into the federation exchange: where
/// the tenant's catalog service lives, the caller's tokens, and the resolved
/// account binding and role.
#[derive(Debug, Clone, PartialEq, Eq)]
pub struct CatalogContext {
    pub base_path: String,
    pub bearer_token: String,
    pub id_token: String,
    pub cloud_region: String,
    pub cloud_account_id: String,
    pub role_id: String,
}

/// A ready catalog handle: the tenant's catalog service configuration and the
/// storage configuration the resolution produced. Owned by the caller and not
/// mutated after construction.
#[derive(Debug, Clone, PartialEq, Eq)]
pub struct CatalogHandle {
    pub base_path: String,
    pub bearer_token: String,
    pub storage: StorageConfig,
}

/// The region, account and role resolved for one catalog of the session's
/// organization.
#[derive(Debug, Clone, PartialEq, Eq)]
pub struct CatalogRoleInfo {
    pub cloud_region: String,
    pub cloud_account_id: String,
    pub role_id: String,
}

/// The names of the listed catalogs, in backend order.
pub open spec fn names_of(rows: Seq<CatalogResponse>) -> Seq<Seq<char>> {
    rows.map_values(|r: CatalogResponse| r.catalog_name@)
}

/// The listing half of catalog enumeration: the catalog names of the rows the
/// backend returned, in backend order (insertion order, not guaranteed stable
/// across calls).
pub fn catalog_names(rows: &Vec<CatalogResponse>) -> (r: Vec<String>)
    ensures
        r@.len() == rows@.len(),
        forall|i: int| 0 <= i < rows@.len() ==> r@[i]@ == rows@[i].catalog_name@,
{
    let n = rows.len();
    let mut out: Vec<String> = Vec::new();
    let mut i: usize = 0;
    while i < n
        invariant
            0 <= i <= n,
            n == rows@.len(),
            out@.len() == i,
            forall|j: int| 0 <= j < i ==> out@[j]@ == rows@[j].catalog_name@,
        decreases n - i,
    {
        out.push(rows[i].catalog_name.clone());
        i = i + 1;
    }
    out
}

/// Law: enumeration is a function of the backend rows. Two listings whose
/// rows agree as a set — the backend unchanged, whatever order it returned
/// them in — name the same set of catalogs.
pub proof fn lemma_listing_set_stable(rows1: Seq<CatalogResponse>, rows2: Seq<CatalogResponse>)
    requires
        rows1.to_set() == rows2.to_set(),
    ensures
        names_of(rows1).to_set() == names_of(rows2).to_set(),
{
    assert forall|n: Seq<char>| names_of(rows1).to_set().contains(n) implies names_of(
        rows2,
    ).to_set().contains(n) by {
        let i = choose|i: int| 0 <= i < rows1.len() && names_of(rows1)[i] == n;
        assert(rows1.to_set().contains(rows1[i]));
        assert(rows2.contains(rows1[i]));
        let j = choose|j: int| 0 <= j < rows2.len() && rows2[j] == rows1[i];
        assert(names_of(rows2)[j] == n);
    }
    assert forall|n: Seq<char>| names_of(rows2).to_set().contains(n) implies names_of(
        rows1,
    ).to_set().contains(n) by {
        let i = choose|i: int| 0 <= i < rows2.len() && names_of(rows2)[i] == n;
        assert(rows2.to_set().contains(rows2[i]));
        assert(rows1.contains(rows2[i]));
        let j = choose|j: int| 0 <= j < rows1.len() && rows1[j] == rows2[i];
        assert(names_of(rows1)[j] == n);
    }
    assert(names_of(rows1).to_set() =~= names_of(rows2).to_set());
}

/// Index of the first role row at or after `i` granted on catalog `name`, or
/// `rows.len()` if there is none.
pub open spec fn first_role_from(rows: Seq<RoleRow>, name: Seq<char>, i: int) -> int
    decreases rows.len() - i,
{
    if i < 0 || i >= rows.len() {
        rows.len() as int
    } else if rows[i].catalog_name@ == name {
        i
    } else {
        first_role_from(rows, name, i + 1)
    }
}

/// The role granted on catalog `name`, if any row grants one: the first such
/// row's role (first row in backend order wins, as under the backend's
/// row-limit of one).
pub open spec fn role_for(rows: Seq<RoleRow>, name: Seq<char>) -> Option<Seq<char>> {
    let i = first_role_from(rows, name, 0);
    if i < rows.len() {
        Option::Some(rows[i].role_id@)
    } else {
        Option::None
    }
}

/// `first_role_from` returns an in-range index, points at a grant on `name`
/// when it found one, and skips no earlier grant.
pub proof fn lemma_first_role_from(rows: Seq<RoleRow>, name: Seq<char>, i: int)
    requires
        0 <= i <= rows.len(),
    ensures
        i <= first_role_from(rows, name, i) <= rows.len(),
        first_role_from(rows, name, i) < rows.len() ==> rows[first_role_from(
            rows,
            name,
            i,
        )].catalog_name@ == name,
        forall|j: int| i <= j < first_role_from(rows, name, i) ==> rows[j].catalog_name@ != name,
    decreases rows.len() - i,
{
    if i < rows.len() && rows[i].catalog_name@ != name {
        lemma_first_role_from(rows, name, i + 1);
    }
}

/// Whether some entry of `rows` up to (excluding) `upto` grants on `name`.
spec fn key_in_prefix(rows: Seq<RoleRow>, name: Seq<char>, upto: int) -> bool {
    exists|j: int| 0 <= j < upto && rows[j].catalog_name@ == name
}

/// Whether some row of `out` is keyed by `name`.
fn contains_catalog(out: &Vec<RoleRow>, name: &str) -> (r: bool)
    ensures
        r == exists|i: int| 0 <= i < out@.len() && out@[i].catalog_name@ == name@,
{
    let n = out.len();
    let mut i: usize = 0;
    while i < n
        invariant
            0 <= i <= n,
            n == out@.len(),
            forall|j: int| 0 <= j < i ==> out@[j].catalog_name@ != name@,
        decreases n - i,
    {
        if str_eq(out[i].catalog_name.as_str(), name) {
            return true;
        }
        i = i + 1;
    }
    false
}

/// The folding half of the catalog-role query: an insert-if-absent fold over
/// the backend rows, one entry per distinct catalog name, the first row for
/// each name winning.
pub fn catalog_roles_index(rows: &Vec<RoleRow>) -> (r: Vec<RoleRow>)
    ensures
        forall|i: int, j: int|
            0 <= i < j < r@.len() ==> r@[i].catalog_name@ != r@[j].catalog_name@,
        forall|i: int|
            0 <= i < r@.len() ==> role_for(rows@, r@[i].catalog_name@) == Option::Some(
                r@[i].role_id@,
            ),
        forall|j: int|
            0 <= j < rows@.len() ==> exists|i: int|
                0 <= i < r@.len() && (#[trigger] r@[i].catalog_name@) == (#[trigger] rows@[j].catalog_name@),
        forall|i: int, j: int|
            0 <= i < j < r@.len() ==> first_role_from(rows@, r@[i].catalog_name@, 0)
                < first_role_from(rows@, r@[j].catalog_name@, 0),
{
    let n = rows.len();
    let mut out: Vec<RoleRow> = Vec::new();
    let mut k: usize = 0;
    while k < n
        invariant
            0 <= k <= n,
            n == rows@.len(),
            forall|i: int, j: int|
                0 <= i < j < out@.len() ==> out@[i].catalog_name@ != out@[j].catalog_name@,
            forall|i: int|
                0 <= i < out@.len() ==> role_for(rows@, out@[i].catalog_name@) == Option::Some(
                    out@[i].role_id@,
                ),
            forall|j: int|
                0 <= j < k ==> exists|i: int|
                    0 <= i < out@.len() && (#[trigger] out@[i].catalog_name@) == (#[trigger] rows@[j].catalog_name@),
            forall|i: int|
                0 <= i < out@.len() ==> key_in_prefix(rows@, out@[i].catalog_name@, k as int),
            forall|i: int|
                0 <= i < out@.len() ==> first_role_from(rows@, out@[i].catalog_name@, 0)
                    < k as int,
            forall|i: int, j: int|
                0 <= i < j < out@.len() ==> first_role_from(rows@, out@[i].catalog_name@, 0)
                    < first_role_from(rows@, out@[j].catalog_name@, 0),
        decreases n - k,
    {
        let row = &rows[k];
        let ghost old_out = out@;
        let present = contains_catalog(&out, row.catalog_name.as_str());
        if !present {
            proof {
                // no entry for this key yet, so no earlier row carries it:
                // row k is the key's first occurrence.
                assert forall|j: int| 0 <= j < k implies rows@[j].catalog_name@
                    != rows@[k as int].catalog_name@ by {
                    if rows@[j].catalog_name@ == rows@[k as int].catalog_name@ {
                        let i = choose|i: int|
                            0 <= i < out@.len() && out@[i].catalog_name@
                                == rows@[j].catalog_name@;
                        assert(out@[i].catalog_name@ == rows@[k as int].catalog_name@);
                    }
                }
                lemma_first_role_from(rows@, rows@[k as int].catalog_name@, 0);
                assert(first_role_from(rows@, rows@[k as int].catalog_name@, 0) == k as int);
            }
            out.push(
                RoleRow {
                    catalog_name: row.catalog_name.clone(),
                    role_id: row.role_id.clone(),
                },
            );
        }
        proof {
            let key = rows@[k as int].catalog_name@;
            assert forall|j: int| 0 <= j < k + 1 implies exists|i: int|
                0 <= i < out@.len() && (#[trigger] out@[i].catalog_name@) == (
                #[trigger] rows@[j].catalog_name@) by {
                if j < k {
                    let i = choose|i: int|
                        0 <= i < old_out.len() && (#[trigger] old_out[i].catalog_name@) == (
                        #[trigger] rows@[j].catalog_name@);
                    assert(out@[i].catalog_name@ == rows@[j].catalog_name@);
                } else if present {
                    let i = choose|i: int|
                        0 <= i < old_out.len() && old_out[i].catalog_name@ == key;
                    assert(out@[i].catalog_name@ == rows@[j].catalog_name@);
                } else {
                    assert(out@[out@.len() - 1].catalog_name@ == rows@[j].catalog_name@);
                }
            }
        }
        k = k + 1;
    }
    out
}

/// What a single-resource resolution hands to the federation exchange: the
/// resolved role and the account and bucket the table lives in. Resolved in
/// strict dependency order — permission, account, bucket — before any
/// credential is requested.
#[derive(Debug, Clone, PartialEq, Eq)]
pub struct ResolvedTable {
    pub role_id: String,
    pub cloud_region: String,
    pub cloud_account_id: String,
    pub bucket: String,
}

/// Single-resource resolution, over the rows the backend returned for one
/// table coordinate: the most specific role grant, then the catalog's account
/// binding, then the table's bucket, failing fast with the first stage's
/// error. The federation exchange then takes the result, and
/// `s3_storage_config` binds what it returns.
pub fn resolve_table(
    access_token: &str,
    grants: &Vec<RoleGrant>,
    accounts: &Vec<Account>,
    metadata_locations: &Vec<String>,
    catalog_name: &str,
    table_namespace: &str,
    table_name: &str,
    permission: &str,
) -> (r: Result<ResolvedTable, Error>)
    requires
        has_payload_segment(access_token@),
    ensures
        match organization_of(access_token@) {
            Result::Err(ce) => r matches Result::Err(e) && crate::claims::is_claim_error(e, ce),
            Result::Ok(org) => {
                let role = resolve_role_spec(
                    grants@,
                    org,
                    catalog_name@,
                    table_namespace@,
                    table_name@,
                    permission@,
                );
                match r {
                    Result::Ok(rt) => role == Option::Some(rt.role_id@) && (account_lookup_spec(
                        accounts@,
                        catalog_name@,
                    ) matches Option::Some(a) && rt.cloud_region@ == a.cloud_region@
                        && rt.cloud_account_id@ == a.cloud_account_id@) && metadata_locations@.len()
                        > 0 && bucket_extraction(metadata_locations@[0]@) == Option::Some(
                        rt.bucket@,
                    ),
                    Result::Err(e) => if role is None {
                        e matches Error::NoPermission(t) && t@ == table_name@
                    } else if account_lookup_spec(accounts@, catalog_name@) is None {
                        e matches Error::EmptyResponse(c) && c@ == "account"@
                    } else if metadata_locations@.len() == 0 {
                        e matches Error::EmptyResponse(c) && c@ == "table"@
                    } else {
                        bucket_extraction(metadata_locations@[0]@) is None && (
                        e matches Error::Other(m) && m@ == "No bucket name in metadata location"@)
                    },
                }
            },
        },
{
    let role_id = match get_role(
        access_token,
        grants,
        catalog_name,
        table_namespace,
        table_name,
        permission,
    ) {
        Result::Ok(role) => role,
        Result::Err(e) => {
            return Result::Err(e);
        },
    };
    let account = match find_account(accounts, catalog_name) {
        Result::Ok(a) => a,
        Result::Err(e) => {
            return Result::Err(e);
        },
    };
    let bucket = match locate_bucket(metadata_locations) {
        Result::Ok(b) => b,
        Result::Err(e) => {
            return Result::Err(e);
        },
    };
    Result::Ok(
        ResolvedTable {
            role_id,
            cloud_region: account.cloud_region,
            cloud_account_id: account.cloud_account_id,
            bucket,
        },
    )
}

/// The tenant-wide enumeration session: the caller's tokens and the immutable
/// per-catalog index of account bindings and catalog-scope write roles, built
/// once per session.
#[derive(Debug)]
pub struct DashbookS3CatalogList {
    pub access_token: String,
    pub id_token: String,
    pub roles: Vec<(String, CatalogRoleInfo)>,
}

/// The index entry for catalog `name`: the first entry keyed by it, if any.
pub open spec fn first_entry_from(
    roles: Seq<(String, CatalogRoleInfo)>,
    name: Seq<char>,
    i: int,
) -> int
    decreases roles.len() - i,
{
    if i < 0 || i >= roles.len() {
        roles.len() as int
    } else if roles[i].0@ == name {
        i
    } else {
        first_entry_from(roles, name, i + 1)
    }
}

/// The resolved role information for catalog `name`, if the session's index
/// holds it.
pub open spec fn role_entry_spec(roles: Seq<(String, CatalogRoleInfo)>, name: Seq<char>) -> Option<
    CatalogRoleInfo,
> {
    let i = first_entry_from(roles, name, 0);
    if i < roles.len() {
        Option::Some(roles[i].1)
    } else {
        Option::None
    }
}

impl DashbookS3CatalogList {
    /// A session is well-formed when its access token has a payload segment
    /// to read the organization claim from.
    pub open spec fn wf(&self) -> bool {
        has_payload_segment(self.access_token@)
    }

    /// Builds the session index: one entry per account row, carrying the
    /// account's region and id and the catalog-scope role granted on its
    /// catalog. Every account's catalog must have a granted role among the
    /// rows: a catalog without one cannot enter a session.
    pub fn new(
        access_token: &str,
        id_token: &str,
        accounts: Vec<Account>,
        role_rows: Vec<RoleRow>,
    ) -> (r: Result<DashbookS3CatalogList, Error>)
        requires
            has_payload_segment(access_token@),
            forall|i: int|
                0 <= i < accounts@.len() ==> role_for(role_rows@, accounts@[i].catalog_name@)
                    is Some,
        ensures
            r matches Result::Ok(s) && s.wf() && s.access_token@ == access_token@ && s.id_token@
                == id_token@ && s.roles@.len() == accounts@.len() && (forall|i: int|
                0 <= i < accounts@.len() ==> (#[trigger] s.roles@[i]).0@
                    == accounts@[i].catalog_name@ && s.roles@[i].1.cloud_region@
                    == accounts@[i].cloud_region@ && s.roles@[i].1.cloud_account_id@
                    == accounts@[i].cloud_account_id@ && Option::Some(s.roles@[i].1.role_id@)
                    == role_for(role_rows@, accounts@[i].catalog_name@)),
    {
        let n = accounts.len();
        let mut roles: Vec<(String, CatalogRoleInfo)> = Vec::new();
        let mut i: usize = 0;
        while i < n
            invariant
                0 <= i <= n,
                n == accounts@.len(),
                roles@.len() == i,
                forall|j: int|
                    0 <= j < accounts@.len() ==> role_for(
                        role_rows@,
                        accounts@[j].catalog_name@,
                    ) is Some,
                forall|j: int|
                    0 <= j < i ==> (#[trigger] roles@[j]).0@ == accounts@[j].catalog_name@
                        && roles@[j].1.cloud_region@ == accounts@[j].cloud_region@
                        && roles@[j].1.cloud_account_id@ == accounts@[j].cloud_account_id@
                        && Option::Some(roles@[j].1.role_id@) == role_for(
                        role_rows@,
                        accounts@[j].catalog_name@,
                    ),
            decreases n - i,
        {
            let account = &accounts[i];
            let role_id = Self::lookup_role(&role_rows, account.catalog_name.as_str());
            roles.push(
                (
                    account.catalog_name.clone(),
                    CatalogRoleInfo {
                        cloud_region: account.cloud_region.clone(),
                        cloud_account_id: account.cloud_account_id.clone(),
                        role_id,
                    },
                ),
            );
            i = i + 1;
        }
        Result::Ok(
            DashbookS3CatalogList {
                access_token: access_token.to_owned(),
                id_token: id_token.to_owned(),
                roles,
            },
        )
    }

    /// The role granted on `name` among the rows: the first grant wins.
    fn lookup_role(role_rows: &Vec<RoleRow>, name: &str) -> (r: String)
        requires
            role_for(role_rows@, name@) is Some,
        ensures
            Option::Some(r@) == role_for(role_rows@, name@),
    {
        let n = role_rows.len();
        let mut i: usize = 0;
        proof {
            lemma_first_role_from(role_rows@, name@, 0);
        }
        while i < n
            invariant
                0 <= i <= n,
                n == role_rows@.len(),
                role_for(role_rows@, name@) is Some,
                first_role_from(role_rows@, name@, 0) == first_role_from(
                    role_rows@,
                    name@,
                    i as int,
                ),
            decreases n - i,
        {
            let row = &role_rows[i];
            if str_eq(row.catalog_name.as_str(), name) {
                return row.role_id.clone();
            }
            i = i + 1;
        }
        proof {
            lemma_first_role_from(role_rows@, name@, 0);
        }
        // unreachable under the precondition: the loop found the first grant
        unreached()
    }

    /// The first half of one catalog resolution: reads the organization
    /// claim, derives the tenant's catalog-service configuration, and looks
    /// the catalog up in the session index. Nothing when the claim cannot be
    /// read or the catalog is unknown to the session: an unusable catalog is
    /// an absent handle, not an error.
    pub fn catalog_context(&self, nessie_url: &str, name: &str) -> (r: Option<CatalogContext>)
        requires
            self.wf(),
        ensures
            match r {
                Option::Some(ctx) => organization_of(self.access_token@) matches Result::Ok(org)
                    && role_entry_spec(self.roles@, name@) matches Option::Some(info)
                    && ctx.base_path@ == nessie_url@ + "/"@ + org && ctx.bearer_token@
                    == self.access_token@ && ctx.id_token@ == self.id_token@ && ctx.cloud_region@
                    == info.cloud_region@ && ctx.cloud_account_id@ == info.cloud_account_id@
                    && ctx.role_id@ == info.role_id@,
                Option::None => organization_of(self.access_token@) is Err || role_entry_spec(
                    self.roles@,
                    name@,
                ) is None,
            },
    {
        let organization = match get_organization(self.access_token.as_str()) {
            Result::Ok(org) => org,
            Result::Err(_) => {
                return Option::None;
            },
        };
        let n = self.roles.len();
        let mut i: usize = 0;
        while i < n
            invariant
                0 <= i <= n,
                n == self.roles@.len(),
                organization_of(self.access_token@) == Result::Ok::<Seq<char>, ClaimError>(
                    organization@,
                ),
                first_entry_from(self.roles@, name@, 0) == first_entry_from(
                    self.roles@,
                    name@,
                    i as int,
                ),
            decreases n - i,
        {
            let entry = &self.roles[i];
            if str_eq(entry.0.as_str(), name) {
                assert(first_entry_from(self.roles@, name@, i as int) == i as int);
                let base_path = concat3(nessie_url, "/", organization.as_str());
                return Option::Some(
                    CatalogContext {
                        base_path,
                        bearer_token: self.access_token.clone(),
                        id_token: self.id_token.clone(),
                        cloud_region: entry.1.cloud_region.clone(),
                        cloud_account_id: entry.1.cloud_account_id.clone(),
                        role_id: entry.1.role_id.clone(),
                    },
                );
            }
            i = i + 1;
        }
        Option::None
    }
}

/// The second half of one catalog resolution: binds the federation response
/// into a catalog handle carrying the storage configuration exactly as
/// issued. Nothing when a credential field is missing: an unusable catalog is
/// an absent handle, not an error.
pub fn catalog_handle(ctx: CatalogContext, creds: Option<StsCredentials>) -> (r: Option<
    CatalogHandle,
>)
    ensures
        match r {
            Option::Some(h) => missing_field(creds) is None && h.base_path@ == ctx.base_path@
                && h.bearer_token@ == ctx.bearer_token@ && h.storage.region@ == ctx.cloud_region@
                && (creds matches Option::Some(c) && c.access_key_id == Option::Some(
                h.storage.access_key_id,
            ) && c.secret_access_key == Option::Some(h.storage.secret_access_key)
                && c.session_token == Option::Some(h.storage.session_token)),
            Option::None => missing_field(creds) is Some,
        },
{
    let storage = match s3_storage_config(
        ctx.cloud_region.as_str(),
        ctx.role_id.as_str(),
        creds,
    ) {
        Result::Ok(sc) => sc,
        Result::Err(_) => {
            return Option::None;
        },
    };
    Option::Some(
        CatalogHandle { base_path: ctx.base_path, bearer_token: ctx.bearer_token, storage },
    )
}

} // verus!
