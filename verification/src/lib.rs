//! Brokered access to cloud-stored analytic tables.
//!
//! Given a caller's bearer tokens and the rows an organization-scoped REST
//! backend returns for tenants, tables and permission grants, this library
//! resolves the most specific applicable role for a requested resource,
//! validates the credentials a web-identity federation exchange returns for
//! that role, and assembles a catalog handle bound to the tenant's storage
//! configuration. The network calls themselves (REST queries, the security
//! token service exchange) live outside the library; every decision taken on
//! their results is verified here.

pub mod catalog;
pub mod claims;
pub mod error;
pub mod federation;
pub mod locator;
pub mod resolver;
pub mod text;
