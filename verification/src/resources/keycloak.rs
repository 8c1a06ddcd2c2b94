//! Keycloak install: Flux HelmRepository + HelmRelease (codecentric keycloakx
//! chart) wired to the external `keycloak-pg` CNPG Postgres, the admin
//! password Secret, and the `auth.<domain>` Ingress. Built only when the
//! PlatformInstance carries `spec.sso`.
use vstd::prelude::*;

use crate::api::platform_instance::chart_versions as cv;
use crate::api::platform_instance::KeycloakSsoSpec;
use crate::json;
use crate::json::{Json, JsonView};
use crate::resources;
use crate::resources::derived;
use crate::resources::ingress;
use crate::resources::keycloak_pg;
use crate::resources::Gvk;

verus! {

pub const RELEASE: &'static str = "keycloak";

pub const CODECENTRIC_REPO: &'static str = "codecentric";

/// codecentric/keycloakx uses the official quay.io/keycloak/keycloak image.
/// Classic HTTP Helm repository.
pub const CODECENTRIC_URL: &'static str = "https://codecentric.github.io/helm-charts";

/// Secret the operator creates holding the Keycloak bootstrap admin password.
pub const ADMIN_SECRET: &'static str = "keycloak-admin";

/// Admin password key in [`ADMIN_SECRET`].
pub const ADMIN_PASSWORD_KEY: &'static str = "admin-password";

/// The keycloakx chart names its HTTP Service `<release>-keycloakx-http`.
pub const SERVICE_NAME: &'static str = "keycloak-keycloakx-http";

/// Official Keycloak image, used by the realm-bootstrap Job to run `kcadm.sh`.
pub const KEYCLOAK_IMAGE: &'static str = "quay.io/keycloak/keycloak:26.6.2";

/// Seed of the admin-password derivation.
pub const ADMIN_SEED: u64 = 0x84222325cbf29ce4;

/// The `extraEnv` block handing the admin credentials to Keycloak.
pub const EXTRA_ENV: &'static str = "- name: KEYCLOAK_ADMIN\n  value: admin\n- name: KEYCLOAK_ADMIN_PASSWORD\n  valueFrom:\n    secretKeyRef:\n      name: keycloak-admin\n      key: admin-password\n";

pub fn ingress_gvk() -> (r: Gvk)
    ensures
        r.group@ == "networking.k8s.io"@,
        r.version@ == "v1"@,
        r.kind@ == "Ingress"@,
{
    resources::gvk("networking.k8s.io", "v1", "Ingress")
}

/// `http://keycloak-keycloakx-http.<namespace>.svc.cluster.local`
pub open spec fn service_url_text(namespace: Seq<char>) -> Seq<char> {
    "http://"@ + resources::service_host(SERVICE_NAME@, namespace)
}

/// In-cluster Keycloak HTTP URL (the keycloakx chart's Service, port 80).
pub fn service_url(namespace: &str) -> (r: String)
    ensures
        r@ == service_url_text(namespace@),
{
    let host = resources::service_host_name(SERVICE_NAME, namespace);
    json::cat("http://", host.as_str())
}

/// `https://auth.<domain>/realms/<realm>`
pub open spec fn issuer_url_text(sso: KeycloakSsoSpec) -> Seq<char> {
    "https://auth."@ + sso.domain@ + "/realms/"@ + sso.realm@
}

/// External issuer URL for a realm (what OIDC clients trust).
pub fn issuer_url(sso: &KeycloakSsoSpec) -> (r: String)
    ensures
        r@ == issuer_url_text(*sso),
{
    let mut s = json::cat3("https://auth.", sso.domain.as_str(), "/realms/");
    s.append(sso.realm.as_str());
    s
}

pub open spec fn codecentric_repository_doc(namespace: Seq<char>, owner: JsonView) -> JsonView {
    resources::helm_repository_doc(CODECENTRIC_REPO@, namespace, CODECENTRIC_URL@, owner)
}

pub fn codecentric_repository(namespace: &str, owner: &Json) -> (r: Json)
    ensures
        r@ == codecentric_repository_doc(namespace@, owner@),
{
    resources::helm_repository_body(CODECENTRIC_REPO, namespace, CODECENTRIC_URL, owner.copy())
}

/// The admin password's `data` value derived from `uid`.
pub open spec fn admin_password_data(uid: Seq<char>) -> Seq<char> {
    derived::derived_secret_text(
        ADMIN_SEED,
        vstd::utf8::encode_utf8("kcadmin:"@),
        vstd::utf8::encode_utf8(uid),
        3,
    )
}

/// An Opaque Secret named `name` whose `data` holds `key: value`.
pub open spec fn opaque_secret_doc(
    name: Seq<char>,
    namespace: Seq<char>,
    owner: JsonView,
    key: Seq<char>,
    value: Seq<char>,
) -> JsonView {
    json::jobj().with("apiVersion"@, json::jstr("v1"@)).with("kind"@, json::jstr("Secret"@)).with(
        "metadata"@,
        resources::meta_doc(name, namespace, owner),
    ).with("type"@, json::jstr("Opaque"@)).with("data"@, json::jobj().with(key, json::jstr(value)))
}

/// Build the Opaque Secret of [`opaque_secret_doc`].
pub fn opaque_secret(name: &str, namespace: &str, owner: &Json, key: &str, value: String) -> (r:
    Json)
    ensures
        r@ == opaque_secret_doc(name@, namespace@, owner@, key@, value@),
{
    Json::object().with("apiVersion", Json::text("v1")).with("kind", Json::text("Secret")).with(
        "metadata",
        resources::object_meta(name, namespace, owner.copy()),
    ).with("type", Json::text("Opaque")).with("data", Json::object().with(key, Json::string(value)))
}

/// Deterministic admin-password Secret for Keycloak's bootstrap admin user,
/// derived from the CR uid (no randomness in the reconcile path).
pub open spec fn admin_secret_doc(namespace: Seq<char>, uid: Seq<char>, owner: JsonView) -> JsonView {
    opaque_secret_doc(ADMIN_SECRET@, namespace, owner, ADMIN_PASSWORD_KEY@, admin_password_data(uid))
}

pub fn admin_secret(namespace: &str, uid: &str, owner: &Json) -> (r: Json)
    ensures
        r@ == admin_secret_doc(namespace@, uid@, owner@),
{
    let data = derived::derived_secret(ADMIN_SEED, "kcadmin:", uid, 3);
    opaque_secret(ADMIN_SECRET, namespace, owner, ADMIN_PASSWORD_KEY, data)
}

/// `keycloak-pg-rw.<namespace>.svc.cluster.local`
pub open spec fn pg_host(namespace: Seq<char>) -> Seq<char> {
    resources::service_host(keycloak_pg::CLUSTER_NAME@ + "-rw"@, namespace)
}

/// The chart values of the Keycloak release.
pub open spec fn release_values_doc(namespace: Seq<char>) -> JsonView {
    json::jobj().with(
        "command"@,
        json::jarr().push(json::jstr("/opt/keycloak/bin/kc.sh"@)).push(json::jstr("start"@)).push(
            json::jstr("--http-enabled=true"@),
        ).push(json::jstr("--http-port=8080"@)).push(json::jstr("--hostname-strict=false"@)),
    ).with("extraEnv"@, json::jstr(EXTRA_ENV@)).with(
        "http"@,
        json::jobj().with("relativePath"@, json::jstr("/"@)),
    ).with(
        "database"@,
        json::jobj().with("vendor"@, json::jstr("postgres"@)).with(
            "hostname"@,
            json::jstr(pg_host(namespace)),
        ).with("port"@, json::jint(5432)).with("database"@, json::jstr(keycloak_pg::DB_NAME@)).with(
            "username"@,
            json::jstr("keycloak"@),
        ).with("existingSecret"@, json::jstr(keycloak_pg::CLUSTER_NAME@ + "-app"@)).with(
            "existingSecretKey"@,
            json::jstr("password"@),
        ),
    ).with(
        "service"@,
        json::jobj().with("type"@, json::jstr("ClusterIP"@)).with("httpPort"@, json::jint(80)),
    )
}

/// Keycloak HelmRelease (codecentric/keycloakx), using the external
/// keycloak-pg Postgres and running in production mode behind the auth host.
pub open spec fn release_doc(namespace: Seq<char>, owner: JsonView) -> JsonView {
    json::jobj().with("apiVersion"@, json::jstr("helm.toolkit.fluxcd.io/v2"@)).with(
        "kind"@,
        json::jstr("HelmRelease"@),
    ).with("metadata"@, resources::meta_doc(RELEASE@, namespace, owner)).with(
        "spec"@,
        json::jobj().with("interval"@, json::jstr("5m"@)).with("timeout"@, json::jstr("10m"@)).with(
            "releaseName"@,
            json::jstr(RELEASE@),
        ).with(
            "chart"@,
            json::jobj().with(
                "spec"@,
                json::jobj().with("chart"@, json::jstr("keycloakx"@)).with(
                    "version"@,
                    json::jstr(cv::KEYCLOAK@),
                ).with(
                    "sourceRef"@,
                    json::jobj().with("kind"@, json::jstr("HelmRepository"@)).with(
                        "name"@,
                        json::jstr(CODECENTRIC_REPO@),
                    ).with("namespace"@, json::jstr(namespace)),
                ),
            ),
        ).with("values"@, release_values_doc(namespace)),
    )
}

pub fn release(namespace: &str, owner: &Json) -> (r: Json)
    ensures
        r@ == release_doc(namespace@, owner@),
{
    let rw = json::cat(keycloak_pg::CLUSTER_NAME, "-rw");
    let pg_host = resources::service_host_name(rw.as_str(), namespace);
    let db_secret = json::cat(keycloak_pg::CLUSTER_NAME, "-app");
    let values = Json::object().with(
        "command",
        Json::array().push(Json::text("/opt/keycloak/bin/kc.sh")).push(Json::text("start")).push(
            Json::text("--http-enabled=true"),
        ).push(Json::text("--http-port=8080")).push(Json::text("--hostname-strict=false")),
    ).with("extraEnv", Json::text(EXTRA_ENV)).with(
        "http",
        Json::object().with("relativePath", Json::text("/")),
    ).with(
        "database",
        Json::object().with("vendor", Json::text("postgres")).with(
            "hostname",
            Json::string(pg_host),
        ).with("port", Json::integer(5432)).with("database", Json::text(keycloak_pg::DB_NAME)).with(
            "username",
            Json::text("keycloak"),
        ).with("existingSecret", Json::string(db_secret)).with(
            "existingSecretKey",
            Json::text("password"),
        ),
    ).with(
        "service",
        Json::object().with("type", Json::text("ClusterIP")).with("httpPort", Json::integer(80)),
    );
    Json::object().with("apiVersion", Json::text("helm.toolkit.fluxcd.io/v2")).with(
        "kind",
        Json::text("HelmRelease"),
    ).with("metadata", resources::object_meta(RELEASE, namespace, owner.copy())).with(
        "spec",
        Json::object().with("interval", Json::text("5m")).with("timeout", Json::text("10m")).with(
            "releaseName",
            Json::text(RELEASE),
        ).with(
            "chart",
            Json::object().with(
                "spec",
                Json::object().with("chart", Json::text("keycloakx")).with(
                    "version",
                    Json::text(cv::KEYCLOAK),
                ).with(
                    "sourceRef",
                    Json::object().with("kind", Json::text("HelmRepository")).with(
                        "name",
                        Json::text(CODECENTRIC_REPO),
                    ).with("namespace", Json::text(namespace)),
                ),
            ),
        ).with("values", values),
    )
}

/// Ingress exposing Keycloak at `auth.<domain>` (TLS via the wildcard cert).
pub open spec fn auth_ingress_doc(sso: KeycloakSsoSpec, namespace: Seq<char>, owner: JsonView) -> JsonView {
    ingress::host_ingress_doc(
        "stardelt-auth"@,
        namespace,
        owner,
        "auth."@ + sso.domain@,
        SERVICE_NAME@,
        80,
    )
}

pub fn auth_ingress(sso: &KeycloakSsoSpec, namespace: &str, owner: &Json) -> (r: Json)
    ensures
        r@ == auth_ingress_doc(*sso, namespace@, owner@),
{
    let host = json::cat("auth.", sso.domain.as_str());
    ingress::host_ingress("stardelt-auth", namespace, owner, host.as_str(), SERVICE_NAME, 80)
}

/// The `data` of an Opaque Secret built by [`opaque_secret`] is exactly
/// `{ key: value }`.
pub proof fn lemma_opaque_secret_data(
    name: Seq<char>,
    namespace: Seq<char>,
    owner: JsonView,
    key: Seq<char>,
    value: Seq<char>,
)
    ensures
        opaque_secret_doc(name, namespace, owner, key, value).get("data"@) == Some(
            json::jobj().with(key, json::jstr(value)),
        ),
{
    reveal_strlit("apiVersion");
    reveal_strlit("kind");
    reveal_strlit("metadata");
    reveal_strlit("type");
    reveal_strlit("data");
    assert("apiVersion"@.len() == 10 && "metadata"@.len() == 8 && "data"@.len() == 4);
    assert("kind"@[0] == 'k' && "type"@[0] == 't' && "data"@[0] == 'd');
    reveal_with_fuel(json::key_pos_from, 6);
}

/// The admin password depends on the uid alone: builds for the same uid, in
/// any namespace and for any owner, carry the same `data`, a 44-character
/// value (the standard encoding of the 32-character password).
pub proof fn lemma_admin_secret_stable(ns1: Seq<char>, ns2: Seq<char>, uid: Seq<char>, o1: JsonView, o2: JsonView)
    ensures
        admin_secret_doc(ns1, uid, o1).get("data"@) == admin_secret_doc(ns2, uid, o2).get("data"@),
        admin_secret_doc(ns1, uid, o1).get("data"@) == Some(
            json::jobj().with(ADMIN_PASSWORD_KEY@, json::jstr(admin_password_data(uid))),
        ),
        admin_password_data(uid).len() == 44,
{
    derived::lemma_derived_secret_text(
        ADMIN_SEED,
        vstd::utf8::encode_utf8("kcadmin:"@),
        vstd::utf8::encode_utf8(uid),
        3,
    );
    lemma_opaque_secret_data(ADMIN_SECRET@, ns1, o1, ADMIN_PASSWORD_KEY@, admin_password_data(uid));
    lemma_opaque_secret_data(ADMIN_SECRET@, ns2, o2, ADMIN_PASSWORD_KEY@, admin_password_data(uid));
}

} // verus!
