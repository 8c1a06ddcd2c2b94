//! The `ozone-s3-creds` Secret.
//!
//! Derived from `PlatformInstance.spec.s3` so the credentials always match the
//! SeaweedFS HelmRelease values. The name `ozone-s3-creds` is load-bearing:
//! Trino, the Lakekeeper bootstrap Job and Airflow all reference it.
use vstd::prelude::*;

use crate::api::PlatformInstance;
use crate::json;
use crate::json::{Json, JsonView};
use crate::resources;

verus! {

pub const SECRET_NAME: &'static str = "ozone-s3-creds";

/// `http://seaweedfs-s3.<namespace>.svc.cluster.local:8333`
pub open spec fn s3_endpoint_text(namespace: Seq<char>) -> Seq<char> {
    "http://"@ + resources::service_host("seaweedfs-s3"@, namespace) + ":8333"@
}

/// S3 endpoint for the in-cluster SeaweedFS S3 gateway in `namespace`.
pub fn s3_endpoint(namespace: &str) -> (r: String)
    ensures
        r@ == s3_endpoint_text(namespace@),
{
    let host = resources::service_host_name("seaweedfs-s3", namespace);
    json::cat3("http://", host.as_str(), ":8333")
}

/// The keys of the Secret's `stringData` and their values.
pub open spec fn secret_data_doc(pi: PlatformInstance) -> JsonView {
    json::jobj().with("access-key"@, json::jstr(pi.spec.s3.access_key@)).with(
        "secret-key"@,
        json::jstr(pi.spec.s3.secret_key@),
    ).with("endpoint"@, json::jstr(s3_endpoint_text(pi.spec.namespace@))).with(
        "bucket"@,
        json::jstr(pi.spec.s3.bucket@),
    ).with("region"@, json::jstr(pi.spec.s3.region@))
}

/// The `ozone-s3-creds` Secret (without `apiVersion`/`kind`, which apply adds).
pub open spec fn secret_doc(pi: PlatformInstance, owner: JsonView) -> JsonView {
    json::jobj().with("metadata"@, resources::meta_doc(SECRET_NAME@, pi.spec.namespace@, owner)).with(
        "stringData"@,
        secret_data_doc(pi),
    ).with("type"@, json::jstr("Opaque"@))
}

pub fn build(pi: &PlatformInstance, owner: Json) -> (r: Json)
    ensures
        r@ == secret_doc(*pi, owner@),
{
    let s3 = &pi.spec.s3;
    let ns = pi.spec.namespace.as_str();
    let data = Json::object().with("access-key", Json::string(s3.access_key.clone())).with(
        "secret-key",
        Json::string(s3.secret_key.clone()),
    ).with("endpoint", Json::string(s3_endpoint(ns))).with(
        "bucket",
        Json::string(s3.bucket.clone()),
    ).with("region", Json::string(s3.region.clone()));
    Json::object().with("metadata", resources::object_meta(SECRET_NAME, ns, owner)).with(
        "stringData",
        data,
    ).with("type", Json::text("Opaque"))
}

} // verus!
