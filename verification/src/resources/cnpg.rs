//! The `lakekeeper-pg` CloudNative-PG `Cluster`.
//!
//! Backs Lakekeeper's catalog metadata. Single-instance. CNPG auto-creates the
//! `lakekeeper-pg-app` Secret that the Lakekeeper HelmRelease references.
use vstd::prelude::*;

use crate::api::PlatformInstance;
use crate::json;
use crate::json::{Json, JsonView};
use crate::resources;
use crate::resources::Gvk;

verus! {

pub const CLUSTER_NAME: &'static str = "lakekeeper-pg";

pub fn gvk() -> (r: Gvk)
    ensures
        r.group@ == "postgresql.cnpg.io"@,
        r.version@ == "v1"@,
        r.kind@ == "Cluster"@,
{
    resources::gvk("postgresql.cnpg.io", "v1", "Cluster")
}

/// A single-instance CNPG `Cluster` bootstrapping database `database` owned by
/// `db_owner`, with `size` of storage.
pub open spec fn cluster_doc(
    name: Seq<char>,
    namespace: Seq<char>,
    owner: JsonView,
    size: Seq<char>,
    database: Seq<char>,
    db_owner: Seq<char>,
) -> JsonView {
    json::jobj().with("apiVersion"@, json::jstr("postgresql.cnpg.io/v1"@)).with(
        "kind"@,
        json::jstr("Cluster"@),
    ).with("metadata"@, resources::meta_doc(name, namespace, owner)).with(
        "spec"@,
        json::jobj().with("instances"@, json::jint(1)).with(
            "storage"@,
            json::jobj().with("size"@, json::jstr(size)),
        ).with(
            "bootstrap"@,
            json::jobj().with(
                "initdb"@,
                json::jobj().with("database"@, json::jstr(database)).with(
                    "owner"@,
                    json::jstr(db_owner),
                ),
            ),
        ).with("resources"@, resources::resources_doc("50m"@, "256Mi"@, "1"@, "512Mi"@)),
    )
}

/// Build a single-instance CNPG `Cluster`.
pub fn cluster_body(
    name: &str,
    namespace: &str,
    owner: Json,
    size: &str,
    database: &str,
    db_owner: &str,
) -> (r: Json)
    ensures
        r@ == cluster_doc(name@, namespace@, owner@, size@, database@, db_owner@),
{
    Json::object().with("apiVersion", Json::text("postgresql.cnpg.io/v1")).with(
        "kind",
        Json::text("Cluster"),
    ).with("metadata", resources::object_meta(name, namespace, owner)).with(
        "spec",
        Json::object().with("instances", Json::integer(1)).with(
            "storage",
            Json::object().with("size", Json::text(size)),
        ).with(
            "bootstrap",
            Json::object().with(
                "initdb",
                Json::object().with("database", Json::text(database)).with(
                    "owner",
                    Json::text(db_owner),
                ),
            ),
        ).with("resources", resources::resource_limits("50m", "256Mi", "1", "512Mi")),
    )
}

/// The `lakekeeper-pg` Cluster.
pub open spec fn lakekeeper_pg_doc(pi: PlatformInstance, owner: JsonView) -> JsonView {
    cluster_doc(
        CLUSTER_NAME@,
        pi.spec.namespace@,
        owner,
        pi.spec.storage.postgres_size@,
        "lakekeeper"@,
        "lakekeeper"@,
    )
}

pub fn build(pi: &PlatformInstance, owner: Json) -> (r: Json)
    ensures
        r@ == lakekeeper_pg_doc(*pi, owner@),
{
    cluster_body(
        CLUSTER_NAME,
        pi.spec.namespace.as_str(),
        owner,
        pi.spec.storage.postgres_size.as_str(),
        "lakekeeper",
        "lakekeeper",
    )
}

} // verus!
