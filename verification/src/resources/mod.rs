//! Resource builders applied by the reconcile steps.
//!
//! Every manifest is a [`Json`] document. Native objects (Secret, Job,
//! Deployment, Service) get `apiVersion`/`kind` forced from their group,
//! version and kind before they are applied; foreign CRDs (Flux, CNPG,
//! cert-manager, Traefik) get them only where the body lacks them. Everything
//! is server-side-applied with the operator's field manager.
use vstd::prelude::*;

use crate::json;
use crate::json::{Json, JsonView};

pub mod bootstrap;
pub mod cnpg;
pub mod derived;
pub mod flux;
pub mod ingress;
pub mod keycloak;
pub mod keycloak_bootstrap;
pub mod keycloak_pg;
pub mod nova;
pub mod secret;

verus! {

/// Group, version and kind of an API resource.
#[derive(Debug, Clone)]
pub struct Gvk {
    pub group: String,
    pub version: String,
    pub kind: String,
}

impl Gvk {
    /// The `apiVersion` this resource is served under.
    pub open spec fn api_version_view(self) -> Seq<char> {
        api_version_text(self.group@, self.version@)
    }
}

/// `version` for the core group, `group/version` otherwise.
pub open spec fn api_version_text(group: Seq<char>, version: Seq<char>) -> Seq<char> {
    if group.len() == 0 {
        version
    } else {
        group + "/"@ + version
    }
}

/// A group/version/kind triple.
pub fn gvk(group: &str, version: &str, kind: &str) -> (r: Gvk)
    ensures
        r.group@ == group@,
        r.version@ == version@,
        r.kind@ == kind@,
{
    Gvk { group: group.to_string(), version: version.to_string(), kind: kind.to_string() }
}

/// The `apiVersion` of `g`.
pub fn api_version(g: &Gvk) -> (r: String)
    ensures
        r@ == g.api_version_view(),
{
    if g.group.unicode_len() == 0 {
        g.version.clone()
    } else {
        json::cat3(g.group.as_str(), "/", g.version.as_str())
    }
}

/// The standard labels stamped on operator-managed objects.
pub open spec fn labels_doc() -> JsonView {
    json::jobj().with("app.kubernetes.io/managed-by"@, json::jstr("stardelt-operator"@)).with(
        "app.kubernetes.io/part-of"@,
        json::jstr("stardelt"@),
    )
}

/// Standard labels stamped on every operator-managed object.
pub fn labels() -> (r: Json)
    ensures
        r@ == labels_doc(),
{
    Json::object().with("app.kubernetes.io/managed-by", Json::text("stardelt-operator")).with(
        "app.kubernetes.io/part-of",
        Json::text("stardelt"),
    )
}

/// Metadata of a namespaced object owned by the PlatformInstance.
pub open spec fn meta_doc(name: Seq<char>, namespace: Seq<char>, owner: JsonView) -> JsonView {
    json::jobj().with("name"@, json::jstr(name)).with("namespace"@, json::jstr(namespace)).with(
        "labels"@,
        labels_doc(),
    ).with("ownerReferences"@, json::jarr().push(owner))
}

/// `metadata` for a namespaced object owned by the PlatformInstance.
pub fn object_meta(name: &str, namespace: &str, owner: Json) -> (r: Json)
    ensures
        r@ == meta_doc(name@, namespace@, owner@),
{
    Json::object().with("name", Json::text(name)).with("namespace", Json::text(namespace)).with(
        "labels",
        labels(),
    ).with("ownerReferences", Json::array().push(owner))
}

/// A body ready for server-side apply of a native object: `apiVersion` and
/// `kind` are set from `g`, replacing whatever the body held.
pub open spec fn typed_body_doc(
    body: JsonView,
    group: Seq<char>,
    version: Seq<char>,
    kind: Seq<char>,
) -> JsonView {
    body.set("apiVersion"@, json::jstr(api_version_text(group, version))).set(
        "kind"@,
        json::jstr(kind),
    )
}

/// Inject `apiVersion`/`kind` into a native object's body before applying it.
pub fn typed_body(body: Json, g: &Gvk) -> (r: Json)
    ensures
        r@ == typed_body_doc(body@, g.group@, g.version@, g.kind@),
{
    body.set("apiVersion", Json::string(api_version(g))).set("kind", Json::string(g.kind.clone()))
}

/// A body ready for server-side apply of a foreign CRD: `apiVersion` and
/// `kind` are filled in from `g` only where the body lacks them.
pub open spec fn dynamic_body_doc(
    body: JsonView,
    group: Seq<char>,
    version: Seq<char>,
    kind: Seq<char>,
) -> JsonView {
    body.set_default("apiVersion"@, json::jstr(api_version_text(group, version))).set_default(
        "kind"@,
        json::jstr(kind),
    )
}

/// Ensure `apiVersion`/`kind` are present in a foreign CRD's body.
pub fn dynamic_body(body: Json, g: &Gvk) -> (r: Json)
    ensures
        r@ == dynamic_body_doc(body@, g.group@, g.version@, g.kind@),
{
    body.set_default("apiVersion", Json::string(api_version(g))).set_default(
        "kind",
        Json::string(g.kind.clone()),
    )
}

/// An environment variable read from a Secret key.
pub open spec fn secret_env_doc(name: Seq<char>, secret: Seq<char>, key: Seq<char>) -> JsonView {
    json::jobj().with("name"@, json::jstr(name)).with(
        "valueFrom"@,
        json::jobj().with(
            "secretKeyRef"@,
            json::jobj().with("name"@, json::jstr(secret)).with("key"@, json::jstr(key)),
        ),
    )
}

/// `{ name, valueFrom: { secretKeyRef: { name: secret, key } } }`
pub fn secret_env(name: &str, secret: &str, key: &str) -> (r: Json)
    ensures
        r@ == secret_env_doc(name@, secret@, key@),
{
    Json::object().with("name", Json::text(name)).with(
        "valueFrom",
        Json::object().with(
            "secretKeyRef",
            Json::object().with("name", Json::text(secret)).with("key", Json::text(key)),
        ),
    )
}

/// An environment variable with a literal value.
pub open spec fn value_env_doc(name: Seq<char>, value: Seq<char>) -> JsonView {
    json::jobj().with("name"@, json::jstr(name)).with("value"@, json::jstr(value))
}

/// `{ name, value }`
pub fn value_env(name: &str, value: &str) -> (r: Json)
    ensures
        r@ == value_env_doc(name@, value@),
{
    Json::object().with("name", Json::text(name)).with("value", Json::text(value))
}

/// CPU/memory requests and limits.
pub open spec fn resources_doc(
    req_cpu: Seq<char>,
    req_mem: Seq<char>,
    lim_cpu: Seq<char>,
    lim_mem: Seq<char>,
) -> JsonView {
    json::jobj().with(
        "requests"@,
        json::jobj().with("cpu"@, json::jstr(req_cpu)).with("memory"@, json::jstr(req_mem)),
    ).with(
        "limits"@,
        json::jobj().with("cpu"@, json::jstr(lim_cpu)).with("memory"@, json::jstr(lim_mem)),
    )
}

/// `{ requests: { cpu, memory }, limits: { cpu, memory } }`
pub fn resource_limits(req_cpu: &str, req_mem: &str, lim_cpu: &str, lim_mem: &str) -> (r: Json)
    ensures
        r@ == resources_doc(req_cpu@, req_mem@, lim_cpu@, lim_mem@),
{
    Json::object().with(
        "requests",
        Json::object().with("cpu", Json::text(req_cpu)).with("memory", Json::text(req_mem)),
    ).with(
        "limits",
        Json::object().with("cpu", Json::text(lim_cpu)).with("memory", Json::text(lim_mem)),
    )
}

/// A Flux `HelmRepository` polling `url` hourly.
pub open spec fn helm_repository_doc(
    name: Seq<char>,
    namespace: Seq<char>,
    url: Seq<char>,
    owner: JsonView,
) -> JsonView {
    json::jobj().with("apiVersion"@, json::jstr("source.toolkit.fluxcd.io/v1"@)).with(
        "kind"@,
        json::jstr("HelmRepository"@),
    ).with("metadata"@, meta_doc(name, namespace, owner)).with(
        "spec"@,
        json::jobj().with("interval"@, json::jstr("1h"@)).with("url"@, json::jstr(url)),
    )
}

/// Build a `HelmRepository` body named `name` for `url`.
pub fn helm_repository_body(name: &str, namespace: &str, url: &str, owner: Json) -> (r: Json)
    ensures
        r@ == helm_repository_doc(name@, namespace@, url@, owner@),
{
    Json::object().with("apiVersion", Json::text("source.toolkit.fluxcd.io/v1")).with(
        "kind",
        Json::text("HelmRepository"),
    ).with("metadata", object_meta(name, namespace, owner)).with(
        "spec",
        Json::object().with("interval", Json::text("1h")).with("url", Json::text(url)),
    )
}

/// In-cluster DNS name `<service>.<namespace>.svc.cluster.local`.
pub open spec fn service_host(service: Seq<char>, namespace: Seq<char>) -> Seq<char> {
    service + "."@ + namespace + ".svc.cluster.local"@
}

/// `<service>.<namespace>.svc.cluster.local`
pub fn service_host_name(service: &str, namespace: &str) -> (r: String)
    ensures
        r@ == service_host(service@, namespace@),
{
    let mut s = json::cat3(service, ".", namespace);
    s.append(".svc.cluster.local");
    s
}

} // verus!
