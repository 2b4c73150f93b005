use vstd::prelude::*;

use crate::claims::{get_organization, has_payload_segment, is_claim_error, organization_of};
use crate::error::Error;
use crate::text::{opt_view, str_eq};

verus! {

/// The scope at which a role grant applies, ordered least to most specific.
#[derive(Debug, Clone, Copy, PartialEq, Eq, Structural)]
pub enum PermissionScope {
    /// A grant over a whole catalog.
    Catalog,
    /// A grant over one namespace of a catalog.
    Namespace,
    /// A grant over one table.
    Table,
}

/// One permission grant fetched from the backend. A grant is a match
/// candidate for a request when it carries the requested permission and its
/// coordinates agree with the request at the grant's scope: a catalog-scope
/// grant names no namespace or table, a namespace-scope grant no table.
#[derive(Debug, Clone, PartialEq, Eq)]
pub struct RoleGrant {
    pub scope: PermissionScope,
    pub organization_id: String,
    pub catalog_name: String,
    pub table_namespace: Option<String>,
    pub table_name: Option<String>,
    pub permission_name: String,
    pub role_id: String,
}

/// Whether grant `g` authorizes `permission` at `scope` for the requested
/// coordinates.
pub open spec fn grant_matches(
    g: RoleGrant,
    scope: PermissionScope,
    org: Seq<char>,
    catalog: Seq<char>,
    namespace: Seq<char>,
    table: Seq<char>,
    permission: Seq<char>,
) -> bool {
    &&& g.scope == scope
    &&& g.organization_id@ == org
    &&& g.catalog_name@ == catalog
    &&& g.permission_name@ == permission
    &&& ((scope == PermissionScope::Namespace || scope == PermissionScope::Table) ==> opt_view(
        g.table_namespace,
    ) == Option::Some(namespace))
    &&& (scope == PermissionScope::Table ==> opt_view(g.table_name) == Option::Some(table))
}

/// Index of the first grant at or after `i` matching the request at `scope`,
/// or `grants.len()` if there is none.
pub open spec fn first_match_from(
    grants: Seq<RoleGrant>,
    scope: PermissionScope,
    org: Seq<char>,
    catalog: Seq<char>,
    namespace: Seq<char>,
    table: Seq<char>,
    permission: Seq<char>,
    i: int,
) -> int
    decreases grants.len() - i,
{
    if i < 0 || i >= grants.len() {
        grants.len() as int
    } else if grant_matches(grants[i], scope, org, catalog, namespace, table, permission) {
        i
    } else {
        first_match_from(grants, scope, org, catalog, namespace, table, permission, i + 1)
    }
}

/// `first_match_from` returns an in-range index, points at a match when it
/// found one, and skips no earlier match.
pub proof fn lemma_first_match_from(
    grants: Seq<RoleGrant>,
    scope: PermissionScope,
    org: Seq<char>,
    catalog: Seq<char>,
    namespace: Seq<char>,
    table: Seq<char>,
    permission: Seq<char>,
    i: int,
)
    requires
        0 <= i <= grants.len(),
    ensures
        i <= first_match_from(grants, scope, org, catalog, namespace, table, permission, i)
            <= grants.len(),
        first_match_from(grants, scope, org, catalog, namespace, table, permission, i)
            < grants.len() ==> grant_matches(
            grants[first_match_from(grants, scope, org, catalog, namespace, table, permission, i)],
            scope,
            org,
            catalog,
            namespace,
            table,
            permission,
        ),
        forall|j: int|
            i <= j < first_match_from(grants, scope, org, catalog, namespace, table, permission, i)
                ==> !grant_matches(grants[j], scope, org, catalog, namespace, table, permission),
    decreases grants.len() - i,
{
    if i < grants.len() && !grant_matches(grants[i], scope, org, catalog, namespace, table,
    permission) {
        lemma_first_match_from(grants, scope, org, catalog, namespace, table, permission, i + 1);
    }
}

/// The role granted at exactly one scope: the role of the first matching
/// grant, if any. When several grants match, the first in backend order is
/// taken — a deliberate, documented non-deterministic tie-break carried over
/// from the backend's row-limit of one, not an ambiguity error.
pub open spec fn scope_role_spec(
    grants: Seq<RoleGrant>,
    scope: PermissionScope,
    org: Seq<char>,
    catalog: Seq<char>,
    namespace: Seq<char>,
    table: Seq<char>,
    permission: Seq<char>,
) -> Option<Seq<char>> {
    let i = first_match_from(grants, scope, org, catalog, namespace, table, permission, 0);
    if i < grants.len() {
        Option::Some(grants[i].role_id@)
    } else {
        Option::None
    }
}

/// The scope-resolution cascade over per-scope lookup results, broadest scope
/// first and short-circuiting on the first hit: a broader grant must dominate,
/// so that narrower grants are opt-in refinements, never mandatory.
pub open spec fn cascade_spec(
    catalog_role: Option<Seq<char>>,
    namespace_role: Option<Seq<char>>,
    table_role: Option<Seq<char>>,
) -> Option<Seq<char>> {
    match catalog_role {
        Option::Some(r) => Option::Some(r),
        Option::None => match namespace_role {
            Option::Some(r) => Option::Some(r),
            Option::None => table_role,
        },
    }
}

/// The role the cascade resolves for a request over a grant set: the
/// catalog-scope role if one is granted, else the namespace-scope role, else
/// the table-scope role.
pub open spec fn resolve_role_spec(
    grants: Seq<RoleGrant>,
    org: Seq<char>,
    catalog: Seq<char>,
    namespace: Seq<char>,
    table: Seq<char>,
    permission: Seq<char>,
) -> Option<Seq<char>> {
    cascade_spec(
        scope_role_spec(grants, PermissionScope::Catalog, org, catalog, namespace, table,
        permission),
        scope_role_spec(grants, PermissionScope::Namespace, org, catalog, namespace, table,
        permission),
        scope_role_spec(grants, PermissionScope::Table, org, catalog, namespace, table, permission),
    )
}

/// Whether grant `g` matches the request at `scope`, decided executably.
fn grant_matches_exec(
    g: &RoleGrant,
    scope: PermissionScope,
    org: &str,
    catalog: &str,
    namespace: &str,
    table: &str,
    permission: &str,
) -> (r: bool)
    ensures
        r == grant_matches(*g, scope, org@, catalog@, namespace@, table@, permission@),
{
    let scope_ok = g.scope == scope;
    let org_ok = str_eq(g.organization_id.as_str(), org);
    let catalog_ok = str_eq(g.catalog_name.as_str(), catalog);
    let permission_ok = str_eq(g.permission_name.as_str(), permission);
    let namespace_ok = match scope {
        PermissionScope::Catalog => true,
        _ => match &g.table_namespace {
            Option::Some(n) => str_eq(n.as_str(), namespace),
            Option::None => false,
        },
    };
    let table_ok = match scope {
        PermissionScope::Table => match &g.table_name {
            Option::Some(t) => str_eq(t.as_str(), table),
            Option::None => false,
        },
        _ => true,
    };
    scope_ok && org_ok && catalog_ok && permission_ok && namespace_ok && table_ok
}

/// The role granted at one scope, over the grants the backend returned: the
/// first matching grant's role. Models one backend permission query with a
/// row limit of one (first row in backend order wins).
pub fn scope_role(
    grants: &Vec<RoleGrant>,
    scope: PermissionScope,
    organization: &str,
    catalog_name: &str,
    table_namespace: &str,
    table_name: &str,
    permission: &str,
) -> (r: Option<String>)
    ensures
        opt_view(r) == scope_role_spec(
            grants@,
            scope,
            organization@,
            catalog_name@,
            table_namespace@,
            table_name@,
            permission@,
        ),
{
    let n = grants.len();
    let mut i: usize = 0;
    while i < n
        invariant
            0 <= i <= n,
            n == grants@.len(),
            first_match_from(grants@, scope, organization@, catalog_name@, table_namespace@,
            table_name@, permission@, 0) == first_match_from(
                grants@,
                scope,
                organization@,
                catalog_name@,
                table_namespace@,
                table_name@,
                permission@,
                i as int,
            ),
        decreases n - i,
    {
        if grant_matches_exec(&grants[i], scope, organization, catalog_name, table_namespace,
        table_name, permission) {
            return Option::Some(grants[i].role_id.clone());
        }
        i = i + 1;
    }
    Option::None
}

/// The precedence cascade over per-scope lookup results (the three results of
/// `scope_role`, or of the corresponding backend queries), broadest first:
/// failing all three scopes is a no-permission error naming the table.
pub fn cascade(
    catalog_role: Option<String>,
    namespace_role: Option<String>,
    table_role: Option<String>,
    table_name: &str,
) -> (r: Result<String, Error>)
    ensures
        match r {
            Result::Ok(role) => cascade_spec(
                opt_view(catalog_role),
                opt_view(namespace_role),
                opt_view(table_role),
            ) == Option::Some(role@),
            Result::Err(e) => cascade_spec(
                opt_view(catalog_role),
                opt_view(namespace_role),
                opt_view(table_role),
            ) is None && (e matches Error::NoPermission(t) && t@ == table_name@),
        },
{
    match catalog_role {
        Option::Some(role) => Result::Ok(role),
        Option::None => match namespace_role {
            Option::Some(role) => Result::Ok(role),
            Option::None => match table_role {
                Option::Some(role) => Result::Ok(role),
                Option::None => Result::Err(Error::NoPermission(table_name.to_owned())),
            },
        },
    }
}

/// Resolves the single role authorized to act with `permission` on the most
/// specific applicable scope, over the caller's organization (read from the
/// access token) and the grants the backend returned: catalog scope first,
/// then namespace, then table; no match at any scope is a no-permission error
/// naming the table.
pub fn get_role(
    access_token: &str,
    grants: &Vec<RoleGrant>,
    catalog_name: &str,
    table_namespace: &str,
    table_name: &str,
    permission: &str,
) -> (r: Result<String, Error>)
    requires
        has_payload_segment(access_token@),
    ensures
        match organization_of(access_token@) {
            Result::Err(ce) => r matches Result::Err(e) && is_claim_error(e, ce),
            Result::Ok(org) => match r {
                Result::Ok(role) => resolve_role_spec(
                    grants@,
                    org,
                    catalog_name@,
                    table_namespace@,
                    table_name@,
                    permission@,
                ) == Option::Some(role@),
                Result::Err(e) => resolve_role_spec(
                    grants@,
                    org,
                    catalog_name@,
                    table_namespace@,
                    table_name@,
                    permission@,
                ) is None && (e matches Error::NoPermission(t) && t@ == table_name@),
            },
        },
{
    let organization = match get_organization(access_token) {
        Result::Ok(org) => org,
        Result::Err(e) => {
            return Result::Err(e);
        },
    };
    let catalog_role = scope_role(grants, PermissionScope::Catalog, organization.as_str(),
    catalog_name, table_namespace, table_name, permission);
    let namespace_role = scope_role(grants, PermissionScope::Namespace, organization.as_str(),
    catalog_name, table_namespace, table_name, permission);
    let table_role = scope_role(grants, PermissionScope::Table, organization.as_str(), catalog_name,
    table_namespace, table_name, permission);
    cascade(catalog_role, namespace_role, table_role, table_name)
}

/// Law: a catalog-scope grant dominates. Whatever namespace- or table-scope
/// grants are present, absent or conflicting, a grant set with a catalog-scope
/// match resolves to the first catalog-scope match's role.
pub proof fn lemma_catalog_scope_precedence(
    grants: Seq<RoleGrant>,
    org: Seq<char>,
    catalog: Seq<char>,
    namespace: Seq<char>,
    table: Seq<char>,
    permission: Seq<char>,
)
    requires
        exists|i: int|
            0 <= i < grants.len() && grant_matches(
                grants[i],
                PermissionScope::Catalog,
                org,
                catalog,
                namespace,
                table,
                permission,
            ),
    ensures
        resolve_role_spec(grants, org, catalog, namespace, table, permission) == scope_role_spec(
            grants,
            PermissionScope::Catalog,
            org,
            catalog,
            namespace,
            table,
            permission,
        ),
        resolve_role_spec(grants, org, catalog, namespace, table, permission) is Some,
{
    lemma_first_match_from(grants, PermissionScope::Catalog, org, catalog, namespace, table,
    permission, 0);
    let i = choose|i: int|
        0 <= i < grants.len() && grant_matches(
            grants[i],
            PermissionScope::Catalog,
            org,
            catalog,
            namespace,
            table,
            permission,
        );
    assert(first_match_from(grants, PermissionScope::Catalog, org, catalog, namespace, table,
    permission, 0) <= i);
}

/// Law: with no catalog- or namespace-scope match, a grant set with a
/// table-scope match resolves to the first table-scope match's role.
pub proof fn lemma_table_scope_fallback(
    grants: Seq<RoleGrant>,
    org: Seq<char>,
    catalog: Seq<char>,
    namespace: Seq<char>,
    table: Seq<char>,
    permission: Seq<char>,
)
    requires
        forall|i: int|
            0 <= i < grants.len() ==> !grant_matches(
                grants[i],
                PermissionScope::Catalog,
                org,
                catalog,
                namespace,
                table,
                permission,
            ),
        forall|i: int|
            0 <= i < grants.len() ==> !grant_matches(
                grants[i],
                PermissionScope::Namespace,
                org,
                catalog,
                namespace,
                table,
                permission,
            ),
        exists|i: int|
            0 <= i < grants.len() && grant_matches(
                grants[i],
                PermissionScope::Table,
                org,
                catalog,
                namespace,
                table,
                permission,
            ),
    ensures
        resolve_role_spec(grants, org, catalog, namespace, table, permission) == scope_role_spec(
            grants,
            PermissionScope::Table,
            org,
            catalog,
            namespace,
            table,
            permission,
        ),
        resolve_role_spec(grants, org, catalog, namespace, table, permission) is Some,
{
    lemma_first_match_from(grants, PermissionScope::Catalog, org, catalog, namespace, table,
    permission, 0);
    lemma_first_match_from(grants, PermissionScope::Namespace, org, catalog, namespace, table,
    permission, 0);
    lemma_first_match_from(grants, PermissionScope::Table, org, catalog, namespace, table,
    permission, 0);
    let i = choose|i: int|
        0 <= i < grants.len() && grant_matches(
            grants[i],
            PermissionScope::Table,
            org,
            catalog,
            namespace,
            table,
            permission,
        );
    assert(first_match_from(grants, PermissionScope::Table, org, catalog, namespace, table,
    permission, 0) <= i);
}

/// Law: a grant set with no match at any scope resolves to nothing (and
/// `get_role` then reports no permission, naming the table, by its contract).
pub proof fn lemma_no_grant_no_role(
    grants: Seq<RoleGrant>,
    org: Seq<char>,
    catalog: Seq<char>,
    namespace: Seq<char>,
    table: Seq<char>,
    permission: Seq<char>,
)
    requires
        forall|i: int, scope: PermissionScope|
            0 <= i < grants.len() ==> !grant_matches(
                grants[i],
                scope,
                org,
                catalog,
                namespace,
                table,
                permission,
            ),
    ensures
        resolve_role_spec(grants, org, catalog, namespace, table, permission) is None,
{
    lemma_first_match_from(grants, PermissionScope::Catalog, org, catalog, namespace, table,
    permission, 0);
    lemma_first_match_from(grants, PermissionScope::Namespace, org, catalog, namespace, table,
    permission, 0);
    lemma_first_match_from(grants, PermissionScope::Table, org, catalog, namespace, table,
    permission, 0);
}

} // verus!
