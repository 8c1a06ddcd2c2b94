//! The `keycloak-pg` CloudNative-PG `Cluster`.
//!
//! Backs Keycloak's realm/user data. Single-instance. CNPG auto-creates the
//! `keycloak-pg-app` Secret that the Keycloak HelmRelease references.
use vstd::prelude::*;

use crate::api::PlatformInstance;
use crate::json::{Json, JsonView};
use crate::resources;
use crate::resources::cnpg;
use crate::resources::Gvk;

verus! {

pub const CLUSTER_NAME: &'static str = "keycloak-pg";

pub const DB_NAME: &'static str = "keycloak";

pub fn gvk() -> (r: Gvk)
    ensures
        r.group@ == "postgresql.cnpg.io"@,
        r.version@ == "v1"@,
        r.kind@ == "Cluster"@,
{
    resources::gvk("postgresql.cnpg.io", "v1", "Cluster")
}

/// The `keycloak-pg` Cluster.
pub open spec fn keycloak_pg_doc(pi: PlatformInstance, owner: JsonView) -> JsonView {
    cnpg::cluster_doc(
        CLUSTER_NAME@,
        pi.spec.namespace@,
        owner,
        pi.spec.storage.postgres_size@,
        DB_NAME@,
        "keycloak"@,
    )
}

pub fn build(pi: &PlatformInstance, owner: Json) -> (r: Json)
    ensures
        r@ == keycloak_pg_doc(*pi, owner@),
{
    cnpg::cluster_body(
        CLUSTER_NAME,
        pi.spec.namespace.as_str(),
        owner,
        pi.spec.storage.postgres_size.as_str(),
        DB_NAME,
        "keycloak",
    )
}

} // verus!
