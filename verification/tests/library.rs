use dashbook_catalog::catalog::{
    catalog_handle, catalog_names, catalog_roles_index, CatalogContext, CatalogResponse,
    DashbookS3CatalogList, RoleRow,
};
use dashbook_catalog::claims::get_organization;
use dashbook_catalog::error::Error;
use dashbook_catalog::federation::{
    extract_credentials, role_arn, s3_storage_config, StsCredentials,
};
use dashbook_catalog::locator::{extract_bucket, find_account, locate_bucket, Account};
use dashbook_catalog::resolver::{cascade, get_role, scope_role, PermissionScope, RoleGrant};

fn token_for(payload: &str) -> String {
    format!("header.{}.signature", base64_url::encode(payload))
}

fn grant(
    scope: PermissionScope,
    org: &str,
    catalog: &str,
    namespace: Option<&str>,
    table: Option<&str>,
    permission: &str,
    role: &str,
) -> RoleGrant {
    RoleGrant {
        scope,
        organization_id: org.to_string(),
        catalog_name: catalog.to_string(),
        table_namespace: namespace.map(|s| s.to_string()),
        table_name: table.map(|s| s.to_string()),
        permission_name: permission.to_string(),
        role_id: role.to_string(),
    }
}

// --- claim extraction ---

#[test]
fn organization_claim_round_trips() {
    let token = token_for("{\"organization\": \"org-1\"}");
    assert_eq!(get_organization(&token), Ok("org-1".to_string()));
}

#[test]
fn organization_claim_missing_fails() {
    let token = token_for("{\"tenant\": \"org-1\"}");
    assert_eq!(
        get_organization(&token),
        Err(Error::Other("Organization claim is not a string".to_string()))
    );
}

#[test]
fn organization_claim_not_a_string_fails() {
    let token = token_for("{\"organization\": 7}");
    assert_eq!(
        get_organization(&token),
        Err(Error::Other("Organization claim is not a string".to_string()))
    );
}

#[test]
fn organization_claim_bad_base64_fails() {
    assert_eq!(get_organization("header.!!!.signature"), Err(Error::Base64Url));
}

#[test]
fn organization_claim_bad_utf8_fails() {
    let token = format!("header.{}.signature", base64_url::encode(&[0xffu8, 0xfe]));
    assert_eq!(get_organization(&token), Err(Error::Utf8));
}

#[test]
fn organization_claim_bad_json_fails() {
    let token = token_for("{\"organization\"");
    assert_eq!(get_organization(&token), Err(Error::Json));
}

#[test]
fn organization_claim_empty_payload_is_bad_json() {
    // "x." has a payload segment: the empty string, which decodes to no bytes
    // and is not valid JSON.
    assert_eq!(get_organization("x."), Err(Error::Json));
}

// --- permission resolution ---

#[test]
fn catalog_scope_dominates_conflicting_table_grant() {
    let token = token_for("{\"organization\": \"acme\"}");
    let grants = vec![
        grant(PermissionScope::Table, "acme", "sales", Some("ns"), Some("tbl"), "write", "narrow"),
        grant(PermissionScope::Catalog, "acme", "sales", None, None, "write", "broad"),
    ];
    let r = get_role(&token, &grants, "sales", "ns", "tbl", "write");
    assert_eq!(r, Ok("broad".to_string()));
}

#[test]
fn catalog_scope_dominates_absent_narrower_grants() {
    let token = token_for("{\"organization\": \"acme\"}");
    let grants = vec![grant(PermissionScope::Catalog, "acme", "sales", None, None, "write", "w")];
    assert_eq!(get_role(&token, &grants, "sales", "ns", "tbl", "write"), Ok("w".to_string()));
}

#[test]
fn namespace_scope_beats_table_scope() {
    let token = token_for("{\"organization\": \"acme\"}");
    let grants = vec![
        grant(PermissionScope::Table, "acme", "sales", Some("ns"), Some("tbl"), "write", "t"),
        grant(PermissionScope::Namespace, "acme", "sales", Some("ns"), None, "write", "n"),
    ];
    assert_eq!(get_role(&token, &grants, "sales", "ns", "tbl", "write"), Ok("n".to_string()));
}

#[test]
fn table_scope_match_alone_wins() {
    let token = token_for("{\"organization\": \"acme\"}");
    let grants = vec![
        grant(PermissionScope::Table, "acme", "sales", Some("ns"), Some("tbl"), "write", "t"),
    ];
    assert_eq!(get_role(&token, &grants, "sales", "ns", "tbl", "write"), Ok("t".to_string()));
}

#[test]
fn no_match_is_no_permission_naming_the_table() {
    let token = token_for("{\"organization\": \"acme\"}");
    let grants = vec![
        // wrong organization
        grant(PermissionScope::Catalog, "rival", "sales", None, None, "write", "x"),
        // wrong permission
        grant(PermissionScope::Catalog, "acme", "sales", None, None, "read", "x"),
        // wrong table
        grant(PermissionScope::Table, "acme", "sales", Some("ns"), Some("other"), "write", "x"),
    ];
    assert_eq!(
        get_role(&token, &grants, "sales", "ns", "tbl", "write"),
        Err(Error::NoPermission("tbl".to_string()))
    );
}

#[test]
fn claim_failure_surfaces_through_get_role() {
    let grants: Vec<RoleGrant> = Vec::new();
    assert_eq!(get_role("h.!!!.s", &grants, "c", "n", "t", "write"), Err(Error::Base64Url));
}

#[test]
fn scope_role_takes_first_match_in_backend_order() {
    let grants = vec![
        grant(PermissionScope::Catalog, "acme", "sales", None, None, "write", "first"),
        grant(PermissionScope::Catalog, "acme", "sales", None, None, "write", "second"),
    ];
    let r = scope_role(&grants, PermissionScope::Catalog, "acme", "sales", "ns", "tbl", "write");
    assert_eq!(r, Some("first".to_string()));
}

#[test]
fn cascade_orders_catalog_namespace_table() {
    let c = Some("c".to_string());
    let n = Some("n".to_string());
    let t = Some("t".to_string());
    assert_eq!(cascade(c.clone(), n.clone(), t.clone(), "tbl"), Ok("c".to_string()));
    assert_eq!(cascade(None, n, t.clone(), "tbl"), Ok("n".to_string()));
    assert_eq!(cascade(None, None, t, "tbl"), Ok("t".to_string()));
    assert_eq!(cascade(None, None, None, "tbl"), Err(Error::NoPermission("tbl".to_string())));
}

// --- account and bucket location ---

#[test]
fn find_account_returns_the_catalog_binding() {
    let accounts = vec![
        Account {
            catalog_name: "hr".to_string(),
            cloud_account_id: "222".to_string(),
            cloud_region: "eu-west-1".to_string(),
        },
        Account {
            catalog_name: "sales".to_string(),
            cloud_account_id: "111".to_string(),
            cloud_region: "us-east-1".to_string(),
        },
    ];
    let a = find_account(&accounts, "sales").unwrap();
    assert_eq!(a.cloud_account_id, "111");
    assert_eq!(a.cloud_region, "us-east-1");
}

#[test]
fn find_account_empty_response_names_account() {
    let accounts: Vec<Account> = Vec::new();
    assert_eq!(
        find_account(&accounts, "sales"),
        Err(Error::EmptyResponse("account".to_string()))
    );
}

#[test]
fn bucket_extraction_takes_first_path_segment() {
    assert_eq!(
        extract_bucket("s3://my-bucket/ns/table/metadata/v1.json"),
        Ok("my-bucket".to_string())
    );
}

#[test]
fn bucket_extraction_without_trailing_path_still_names_the_bucket() {
    assert_eq!(extract_bucket("s3://my-bucket"), Ok("my-bucket".to_string()));
}

#[test]
fn bucket_extraction_fails_with_no_path_after_scheme() {
    assert_eq!(
        extract_bucket("s3://"),
        Err(Error::Other("No bucket name in metadata location".to_string()))
    );
    assert_eq!(
        extract_bucket("s3:///shadow"),
        Err(Error::Other("No bucket name in metadata location".to_string()))
    );
}

#[test]
fn bucket_extraction_fails_on_other_schemes() {
    assert_eq!(
        extract_bucket("file://my-bucket/x"),
        Err(Error::Other("No bucket name in metadata location".to_string()))
    );
}

#[test]
fn locate_bucket_uses_the_first_row_and_reports_empty() {
    let rows = vec!["s3://b1/x".to_string(), "s3://b2/y".to_string()];
    assert_eq!(locate_bucket(&rows), Ok("b1".to_string()));
    let none: Vec<String> = Vec::new();
    assert_eq!(locate_bucket(&none), Err(Error::EmptyResponse("table".to_string())));
}

// --- credential federation ---

#[test]
fn role_arn_follows_the_naming_convention() {
    assert_eq!(role_arn("111", "writer"), "arn:aws:iam::111:role/dashbook-writer");
}

fn full_creds() -> StsCredentials {
    StsCredentials {
        access_key_id: Some("AKID".to_string()),
        secret_access_key: Some("SECRET".to_string()),
        session_token: Some("TOKEN".to_string()),
    }
}

#[test]
fn federation_happy_path_returns_all_fields() {
    let fc = extract_credentials("writer", Some(full_creds())).unwrap();
    assert_eq!(fc.access_key_id, "AKID");
    assert_eq!(fc.secret_access_key, "SECRET");
    assert_eq!(fc.session_token, "TOKEN");
}

#[test]
fn federation_missing_session_token_names_role_and_field() {
    let mut c = full_creds();
    c.session_token = None;
    assert_eq!(
        extract_credentials("writer", Some(c)),
        Err(Error::NoRoleTokens("writer".to_string(), "session token".to_string()))
    );
}

#[test]
fn federation_missing_fields_are_reported_in_order() {
    assert_eq!(
        extract_credentials("writer", None),
        Err(Error::NoRoleTokens("writer".to_string(), "credentials".to_string()))
    );
    let mut c = full_creds();
    c.access_key_id = None;
    c.secret_access_key = None;
    assert_eq!(
        extract_credentials("writer", Some(c)),
        Err(Error::NoRoleTokens("writer".to_string(), "access key id".to_string()))
    );
    let mut c = full_creds();
    c.secret_access_key = None;
    assert_eq!(
        extract_credentials("writer", Some(c)),
        Err(Error::NoRoleTokens("writer".to_string(), "secret access key".to_string()))
    );
}

#[test]
fn storage_config_reflects_region_and_credentials() {
    let sc = s3_storage_config("us-east-1", "writer", Some(full_creds())).unwrap();
    assert_eq!(sc.region, "us-east-1");
    assert_eq!(sc.access_key_id, "AKID");
    assert_eq!(sc.secret_access_key, "SECRET");
    assert_eq!(sc.session_token, "TOKEN");
}

// --- catalog factory ---

fn sales_accounts() -> Vec<Account> {
    vec![Account {
        catalog_name: "sales".to_string(),
        cloud_account_id: "111".to_string(),
        cloud_region: "us-east-1".to_string(),
    }]
}

fn sales_roles() -> Vec<RoleRow> {
    vec![RoleRow { catalog_name: "sales".to_string(), role_id: "writer".to_string() }]
}

#[test]
fn catalog_roles_index_keeps_the_first_grant_per_catalog() {
    let rows = vec![
        RoleRow { catalog_name: "sales".to_string(), role_id: "writer".to_string() },
        RoleRow { catalog_name: "hr".to_string(), role_id: "reader".to_string() },
        RoleRow { catalog_name: "sales".to_string(), role_id: "ignored".to_string() },
    ];
    let index = catalog_roles_index(&rows);
    assert_eq!(index.len(), 2);
    assert_eq!(index[0].catalog_name, "sales");
    assert_eq!(index[0].role_id, "writer");
    assert_eq!(index[1].catalog_name, "hr");
    assert_eq!(index[1].role_id, "reader");
}

#[test]
fn end_to_end_resolution_reflects_region_and_credentials() {
    let token = token_for("{\"organization\": \"acme\"}");
    let session =
        DashbookS3CatalogList::new(&token, "id-token", sales_accounts(), sales_roles()).unwrap();
    let ctx = session.catalog_context("https://nessie.example", "sales").unwrap();
    assert_eq!(ctx.base_path, "https://nessie.example/acme");
    assert_eq!(ctx.bearer_token, token);
    assert_eq!(ctx.id_token, "id-token");
    assert_eq!(ctx.cloud_region, "us-east-1");
    assert_eq!(ctx.cloud_account_id, "111");
    assert_eq!(ctx.role_id, "writer");

    let handle = catalog_handle(ctx, Some(full_creds())).unwrap();
    assert_eq!(handle.base_path, "https://nessie.example/acme");
    assert_eq!(handle.storage.region, "us-east-1");
    assert_eq!(handle.storage.access_key_id, "AKID");
    assert_eq!(handle.storage.secret_access_key, "SECRET");
    assert_eq!(handle.storage.session_token, "TOKEN");
}

#[test]
fn unknown_catalog_yields_no_context() {
    let token = token_for("{\"organization\": \"acme\"}");
    let session =
        DashbookS3CatalogList::new(&token, "id-token", sales_accounts(), sales_roles()).unwrap();
    assert!(session.catalog_context("https://nessie.example", "marketing").is_none());
}

#[test]
fn missing_credential_field_yields_no_handle() {
    let ctx = CatalogContext {
        base_path: "b".to_string(),
        bearer_token: "t".to_string(),
        id_token: "i".to_string(),
        cloud_region: "r".to_string(),
        cloud_account_id: "a".to_string(),
        role_id: "w".to_string(),
    };
    let mut c = full_creds();
    c.session_token = None;
    assert!(catalog_handle(ctx, Some(c)).is_none());
}

#[test]
fn single_resource_resolution_follows_the_dependency_order() {
    let token = token_for("{\"organization\": \"acme\"}");
    let grants = vec![grant(PermissionScope::Catalog, "acme", "sales", None, None, "write", "writer")];
    let locations = vec!["s3://my-bucket/ns/table/metadata/v1.json".to_string()];
    let rt = dashbook_catalog::catalog::resolve_table(
        &token,
        &grants,
        &sales_accounts(),
        &locations,
        "sales",
        "ns",
        "tbl",
        "write",
    )
    .unwrap();
    assert_eq!(rt.role_id, "writer");
    assert_eq!(rt.cloud_region, "us-east-1");
    assert_eq!(rt.cloud_account_id, "111");
    assert_eq!(rt.bucket, "my-bucket");
}

#[test]
fn single_resource_resolution_fails_fast_per_stage() {
    let token = token_for("{\"organization\": \"acme\"}");
    let grants = vec![grant(PermissionScope::Catalog, "acme", "sales", None, None, "write", "writer")];
    let locations = vec!["s3://my-bucket/x".to_string()];
    let no_grants: Vec<RoleGrant> = Vec::new();
    let no_accounts: Vec<Account> = Vec::new();
    let no_locations: Vec<String> = Vec::new();
    assert_eq!(
        dashbook_catalog::catalog::resolve_table(
            &token, &no_grants, &sales_accounts(), &locations, "sales", "ns", "tbl", "write",
        ),
        Err(Error::NoPermission("tbl".to_string()))
    );
    assert_eq!(
        dashbook_catalog::catalog::resolve_table(
            &token, &grants, &no_accounts, &locations, "sales", "ns", "tbl", "write",
        ),
        Err(Error::EmptyResponse("account".to_string()))
    );
    assert_eq!(
        dashbook_catalog::catalog::resolve_table(
            &token, &grants, &sales_accounts(), &no_locations, "sales", "ns", "tbl", "write",
        ),
        Err(Error::EmptyResponse("table".to_string()))
    );
}

#[test]
fn listing_is_stable_within_a_call() {
    let rows = vec![
        CatalogResponse { catalog_name: "sales".to_string() },
        CatalogResponse { catalog_name: "hr".to_string() },
    ];
    let first = catalog_names(&rows);
    let second = catalog_names(&rows);
    assert_eq!(first, second);
    assert_eq!(first, vec!["sales".to_string(), "hr".to_string()]);

    // the same rows in another backend order name the same set
    let reordered = vec![
        CatalogResponse { catalog_name: "hr".to_string() },
        CatalogResponse { catalog_name: "sales".to_string() },
    ];
    let mut a = catalog_names(&rows);
    let mut b = catalog_names(&reordered);
    a.sort();
    b.sort();
    assert_eq!(a, b);
}
