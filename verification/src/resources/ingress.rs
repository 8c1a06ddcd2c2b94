//! Ingress + SSO resource builders.
//!
//! Built only when the PlatformInstance carries `spec.ingress`. cert-manager is
//! installed via a Flux HelmRelease (jetstack chart) into the `cert-manager`
//! namespace; everything else (ClusterIssuer, wildcard Certificate,
//! oauth2-proxy, Traefik Middlewares, Ingresses) lands in the platform
//! namespace.
use vstd::prelude::*;

use crate::api::platform_instance::chart_versions as cv;
use crate::api::platform_instance::IngressSpec;
use crate::json;
use crate::json::{Json, JsonView};
use crate::resources;
use crate::resources::Gvk;

verus! {

pub const CERT_MANAGER_NAMESPACE: &'static str = "cert-manager";

pub const CLUSTER_ISSUER_NAME: &'static str = "letsencrypt-prod";

pub const CERTIFICATE_NAME: &'static str = "stardelt-wildcard";

pub const WILDCARD_TLS_SECRET: &'static str = "stardelt-wildcard-tls";

pub const OAUTH2_PROXY_NAME: &'static str = "oauth2-proxy";

pub const MIDDLEWARE_NAME: &'static str = "oauth2-forward-auth";

pub const ERRORS_MIDDLEWARE_NAME: &'static str = "oauth2-errors";

pub const JETSTACK_REPO: &'static str = "jetstack";

pub fn cluster_issuer_gvk() -> (r: Gvk)
    ensures
        r.group@ == "cert-manager.io"@,
        r.version@ == "v1"@,
        r.kind@ == "ClusterIssuer"@,
{
    resources::gvk("cert-manager.io", "v1", "ClusterIssuer")
}

pub fn certificate_gvk() -> (r: Gvk)
    ensures
        r.group@ == "cert-manager.io"@,
        r.version@ == "v1"@,
        r.kind@ == "Certificate"@,
{
    resources::gvk("cert-manager.io", "v1", "Certificate")
}

pub fn middleware_gvk() -> (r: Gvk)
    ensures
        r.group@ == "traefik.io"@,
        r.version@ == "v1alpha1"@,
        r.kind@ == "Middleware"@,
{
    resources::gvk("traefik.io", "v1alpha1", "Middleware")
}

/// jetstack HelmRepository (cert-manager source), in the platform namespace.
pub open spec fn jetstack_repository_doc(namespace: Seq<char>, owner: JsonView) -> JsonView {
    resources::helm_repository_doc(JETSTACK_REPO@, namespace, "https://charts.jetstack.io"@, owner)
}

pub fn jetstack_repository(namespace: &str, owner: &Json) -> (r: Json)
    ensures
        r@ == jetstack_repository_doc(namespace@, owner@),
{
    resources::helm_repository_body(JETSTACK_REPO, namespace, "https://charts.jetstack.io", owner.copy())
}

/// cert-manager HelmRelease, installed into the cert-manager namespace with CRDs.
pub open spec fn cert_manager_release_doc(namespace: Seq<char>, owner: JsonView) -> JsonView {
    json::jobj().with("apiVersion"@, json::jstr("helm.toolkit.fluxcd.io/v2"@)).with(
        "kind"@,
        json::jstr("HelmRelease"@),
    ).with("metadata"@, resources::meta_doc("cert-manager"@, namespace, owner)).with(
        "spec"@,
        json::jobj().with("interval"@, json::jstr("5m"@)).with("timeout"@, json::jstr("10m"@)).with(
            "releaseName"@,
            json::jstr("cert-manager"@),
        ).with(
            "chart"@,
            json::jobj().with(
                "spec"@,
                json::jobj().with("chart"@, json::jstr("cert-manager"@)).with(
                    "version"@,
                    json::jstr(cv::CERT_MANAGER@),
                ).with(
                    "sourceRef"@,
                    json::jobj().with("kind"@, json::jstr("HelmRepository"@)).with(
                        "name"@,
                        json::jstr(JETSTACK_REPO@),
                    ).with("namespace"@, json::jstr(namespace)),
                ),
            ),
        ).with("install"@, json::jobj().with("createNamespace"@, JsonView::Bool(true))).with(
            "targetNamespace"@,
            json::jstr(CERT_MANAGER_NAMESPACE@),
        ).with(
            "values"@,
            json::jobj().with("crds"@, json::jobj().with("enabled"@, JsonView::Bool(true))),
        ),
    )
}

pub fn cert_manager_release(namespace: &str, owner: &Json) -> (r: Json)
    ensures
        r@ == cert_manager_release_doc(namespace@, owner@),
{
    Json::object().with("apiVersion", Json::text("helm.toolkit.fluxcd.io/v2")).with(
        "kind",
        Json::text("HelmRelease"),
    ).with("metadata", resources::object_meta("cert-manager", namespace, owner.copy())).with(
        "spec",
        Json::object().with("interval", Json::text("5m")).with("timeout", Json::text("10m")).with(
            "releaseName",
            Json::text("cert-manager"),
        ).with(
            "chart",
            Json::object().with(
                "spec",
                Json::object().with("chart", Json::text("cert-manager")).with(
                    "version",
                    Json::text(cv::CERT_MANAGER),
                ).with(
                    "sourceRef",
                    Json::object().with("kind", Json::text("HelmRepository")).with(
                        "name",
                        Json::text(JETSTACK_REPO),
                    ).with("namespace", Json::text(namespace)),
                ),
            ),
        ).with("install", Json::object().with("createNamespace", Json::boolean(true))).with(
            "targetNamespace",
            Json::text(CERT_MANAGER_NAMESPACE),
        ).with(
            "values",
            Json::object().with("crds", Json::object().with("enabled", Json::boolean(true))),
        ),
    )
}

/// Cluster-scoped ACME issuer using DNS-01 via Cloudflare (wildcard certs
/// without inbound :80). The Cloudflare token Secret is supplied by the admin.
pub open spec fn cluster_issuer_doc(ing: IngressSpec, owner: JsonView) -> JsonView {
    json::jobj().with("apiVersion"@, json::jstr("cert-manager.io/v1"@)).with(
        "kind"@,
        json::jstr("ClusterIssuer"@),
    ).with(
        "metadata"@,
        json::jobj().with("name"@, json::jstr(CLUSTER_ISSUER_NAME@)).with(
            "labels"@,
            resources::labels_doc(),
        ).with("ownerReferences"@, json::jarr().push(owner)),
    ).with(
        "spec"@,
        json::jobj().with(
            "acme"@,
            json::jobj().with("server"@, json::jstr(ing.tls.acme_server@)).with(
                "email"@,
                json::jstr(ing.tls.email@),
            ).with(
                "privateKeySecretRef"@,
                json::jobj().with("name"@, json::jstr("letsencrypt-prod-account-key"@)),
            ).with(
                "solvers"@,
                json::jarr().push(
                    json::jobj().with(
                        "dns01"@,
                        json::jobj().with(
                            "cloudflare"@,
                            json::jobj().with(
                                "apiTokenSecretRef"@,
                                json::jobj().with("name"@, json::jstr("cloudflare-api-token"@)).with(
                                    "key"@,
                                    json::jstr("api-token"@),
                                ),
                            ),
                        ),
                    ),
                ),
            ),
        ),
    )
}

pub fn cluster_issuer(ing: &IngressSpec, owner: &Json) -> (r: Json)
    ensures
        r@ == cluster_issuer_doc(*ing, owner@),
{
    Json::object().with("apiVersion", Json::text("cert-manager.io/v1")).with(
        "kind",
        Json::text("ClusterIssuer"),
    ).with(
        "metadata",
        Json::object().with("name", Json::text(CLUSTER_ISSUER_NAME)).with(
            "labels",
            resources::labels(),
        ).with("ownerReferences", Json::array().push(owner.copy())),
    ).with(
        "spec",
        Json::object().with(
            "acme",
            Json::object().with("server", Json::string(ing.tls.acme_server.clone())).with(
                "email",
                Json::string(ing.tls.email.clone()),
            ).with(
                "privateKeySecretRef",
                Json::object().with("name", Json::text("letsencrypt-prod-account-key")),
            ).with(
                "solvers",
                Json::array().push(
                    Json::object().with(
                        "dns01",
                        Json::object().with(
                            "cloudflare",
                            Json::object().with(
                                "apiTokenSecretRef",
                                Json::object().with("name", Json::text("cloudflare-api-token")).with(
                                    "key",
                                    Json::text("api-token"),
                                ),
                            ),
                        ),
                    ),
                ),
            ),
        ),
    )
}

/// One wildcard certificate covering every per-service subdomain plus the apex.
pub open spec fn certificate_doc(ing: IngressSpec, namespace: Seq<char>, owner: JsonView) -> JsonView {
    json::jobj().with("apiVersion"@, json::jstr("cert-manager.io/v1"@)).with(
        "kind"@,
        json::jstr("Certificate"@),
    ).with("metadata"@, resources::meta_doc(CERTIFICATE_NAME@, namespace, owner)).with(
        "spec"@,
        json::jobj().with("secretName"@, json::jstr(WILDCARD_TLS_SECRET@)).with(
            "issuerRef"@,
            json::jobj().with("name"@, json::jstr(CLUSTER_ISSUER_NAME@)).with(
                "kind"@,
                json::jstr("ClusterIssuer"@),
            ),
        ).with("commonName"@, json::jstr("*."@ + ing.domain@)).with(
            "dnsNames"@,
            json::jarr().push(json::jstr("*."@ + ing.domain@)).push(json::jstr(ing.domain@)),
        ),
    )
}

pub fn certificate(ing: &IngressSpec, namespace: &str, owner: &Json) -> (r: Json)
    ensures
        r@ == certificate_doc(*ing, namespace@, owner@),
{
    let d = ing.domain.as_str();
    Json::object().with("apiVersion", Json::text("cert-manager.io/v1")).with(
        "kind",
        Json::text("Certificate"),
    ).with("metadata", resources::object_meta(CERTIFICATE_NAME, namespace, owner.copy())).with(
        "spec",
        Json::object().with("secretName", Json::text(WILDCARD_TLS_SECRET)).with(
            "issuerRef",
            Json::object().with("name", Json::text(CLUSTER_ISSUER_NAME)).with(
                "kind",
                Json::text("ClusterIssuer"),
            ),
        ).with("commonName", Json::string(json::cat("*.", d))).with(
            "dnsNames",
            Json::array().push(Json::string(json::cat("*.", d))).push(Json::text(d)),
        ),
    )
}

/// Labels selecting the oauth2-proxy pods.
pub open spec fn proxy_labels_doc() -> JsonView {
    json::jobj().with("app.kubernetes.io/name"@, json::jstr(OAUTH2_PROXY_NAME@))
}

fn proxy_labels() -> (r: Json)
    ensures
        r@ == proxy_labels_doc(),
{
    Json::object().with("app.kubernetes.io/name", Json::text(OAUTH2_PROXY_NAME))
}

/// Labels on the oauth2-proxy objects: the standard labels plus its name label.
pub open spec fn proxy_meta_labels_doc() -> JsonView {
    resources::labels_doc().with("app.kubernetes.io/name"@, json::jstr(OAUTH2_PROXY_NAME@))
}

fn proxy_meta_labels() -> (r: Json)
    ensures
        r@ == proxy_meta_labels_doc(),
{
    resources::labels().with("app.kubernetes.io/name", Json::text(OAUTH2_PROXY_NAME))
}

/// Metadata of the oauth2-proxy Deployment and Service.
pub open spec fn proxy_meta_doc(namespace: Seq<char>, owner: JsonView) -> JsonView {
    json::jobj().with("name"@, json::jstr(OAUTH2_PROXY_NAME@)).with(
        "namespace"@,
        json::jstr(namespace),
    ).with("labels"@, proxy_meta_labels_doc()).with("ownerReferences"@, json::jarr().push(owner))
}

fn proxy_meta(namespace: &str, owner: &Json) -> (r: Json)
    ensures
        r@ == proxy_meta_doc(namespace@, owner@),
{
    Json::object().with("name", Json::text(OAUTH2_PROXY_NAME)).with(
        "namespace",
        Json::text(namespace),
    ).with("labels", proxy_meta_labels()).with("ownerReferences", Json::array().push(owner.copy()))
}

/// The oauth2-proxy command line.
pub open spec fn proxy_args_doc(ing: IngressSpec) -> JsonView {
    let d = ing.domain@;
    json::jarr().push(json::jstr("--provider="@ + ing.sso.provider@)).push(
        json::jstr("--github-org="@ + ing.sso.org_name@),
    ).push(json::jstr("--http-address=0.0.0.0:4180"@)).push(
        json::jstr("--reverse-proxy=true"@),
    ).push(json::jstr("--cookie-domain=."@ + d)).push(json::jstr("--whitelist-domain=."@ + d)).push(
        json::jstr("--cookie-secure=true"@),
    ).push(json::jstr("--email-domain=*"@)).push(json::jstr("--upstream=static://202"@)).push(
        json::jstr("--redirect-url=https://auth."@ + d + "/oauth2/callback"@),
    ).push(json::jstr("--set-xauthrequest=true"@)).push(
        json::jstr("--pass-access-token=false"@),
    ).push(json::jstr("--skip-provider-button=false"@))
}

fn proxy_args(ing: &IngressSpec) -> (r: Json)
    ensures
        r@ == proxy_args_doc(*ing),
{
    let d = ing.domain.as_str();
    Json::array().push(Json::string(json::cat("--provider=", ing.sso.provider.as_str()))).push(
        Json::string(json::cat("--github-org=", ing.sso.org_name.as_str())),
    ).push(Json::text("--http-address=0.0.0.0:4180")).push(Json::text("--reverse-proxy=true")).push(
        Json::string(json::cat("--cookie-domain=.", d)),
    ).push(Json::string(json::cat("--whitelist-domain=.", d))).push(
        Json::text("--cookie-secure=true"),
    ).push(Json::text("--email-domain=*")).push(Json::text("--upstream=static://202")).push(
        Json::string(json::cat3("--redirect-url=https://auth.", d, "/oauth2/callback")),
    ).push(Json::text("--set-xauthrequest=true")).push(Json::text("--pass-access-token=false")).push(
        Json::text("--skip-provider-button=false"),
    )
}

/// oauth2-proxy: GitHub provider restricted to the SSO org; credentials read
/// from `sso.credentials_secret`. Fronts every UI via Traefik forward-auth.
pub open spec fn oauth2_proxy_deployment_doc(
    ing: IngressSpec,
    namespace: Seq<char>,
    owner: JsonView,
) -> JsonView {
    let secret = ing.sso.credentials_secret@;
    json::jobj().with("apiVersion"@, json::jstr("apps/v1"@)).with(
        "kind"@,
        json::jstr("Deployment"@),
    ).with("metadata"@, proxy_meta_doc(namespace, owner)).with(
        "spec"@,
        json::jobj().with("replicas"@, json::jint(1)).with(
            "selector"@,
            json::jobj().with("matchLabels"@, proxy_labels_doc()),
        ).with(
            "template"@,
            json::jobj().with("metadata"@, json::jobj().with("labels"@, proxy_labels_doc())).with(
                "spec"@,
                json::jobj().with(
                    "containers"@,
                    json::jarr().push(
                        json::jobj().with("name"@, json::jstr(OAUTH2_PROXY_NAME@)).with(
                            "image"@,
                            json::jstr(cv::OAUTH2_PROXY_IMAGE@),
                        ).with("args"@, proxy_args_doc(ing)).with(
                            "env"@,
                            json::jarr().push(
                                resources::secret_env_doc(
                                    "OAUTH2_PROXY_CLIENT_ID"@,
                                    secret,
                                    "client-id"@,
                                ),
                            ).push(
                                resources::secret_env_doc(
                                    "OAUTH2_PROXY_CLIENT_SECRET"@,
                                    secret,
                                    "client-secret"@,
                                ),
                            ).push(
                                resources::secret_env_doc(
                                    "OAUTH2_PROXY_COOKIE_SECRET"@,
                                    secret,
                                    "cookie-secret"@,
                                ),
                            ),
                        ).with(
                            "ports"@,
                            json::jarr().push(
                                json::jobj().with("containerPort"@, json::jint(4180)).with(
                                    "name"@,
                                    json::jstr("http"@),
                                ),
                            ),
                        ).with(
                            "resources"@,
                            resources::resources_doc("10m"@, "32Mi"@, "200m"@, "128Mi"@),
                        ),
                    ),
                ),
            ),
        ),
    )
}

pub fn oauth2_proxy_deployment(ing: &IngressSpec, namespace: &str, owner: &Json) -> (r: Json)
    ensures
        r@ == oauth2_proxy_deployment_doc(*ing, namespace@, owner@),
{
    let secret = ing.sso.credentials_secret.as_str();
    let env = Json::array().push(
        resources::secret_env("OAUTH2_PROXY_CLIENT_ID", secret, "client-id"),
    ).push(resources::secret_env("OAUTH2_PROXY_CLIENT_SECRET", secret, "client-secret")).push(
        resources::secret_env("OAUTH2_PROXY_COOKIE_SECRET", secret, "cookie-secret"),
    );
    let container = Json::object().with("name", Json::text(OAUTH2_PROXY_NAME)).with(
        "image",
        Json::text(cv::OAUTH2_PROXY_IMAGE),
    ).with("args", proxy_args(ing)).with("env", env).with(
        "ports",
        Json::array().push(
            Json::object().with("containerPort", Json::integer(4180)).with(
                "name",
                Json::text("http"),
            ),
        ),
    ).with("resources", resources::resource_limits("10m", "32Mi", "200m", "128Mi"));
    Json::object().with("apiVersion", Json::text("apps/v1")).with(
        "kind",
        Json::text("Deployment"),
    ).with("metadata", proxy_meta(namespace, owner)).with(
        "spec",
        Json::object().with("replicas", Json::integer(1)).with(
            "selector",
            Json::object().with("matchLabels", proxy_labels()),
        ).with(
            "template",
            Json::object().with("metadata", Json::object().with("labels", proxy_labels())).with(
                "spec",
                Json::object().with("containers", Json::array().push(container)),
            ),
        ),
    )
}

/// ClusterIP Service in front of oauth2-proxy on port 4180.
pub open spec fn oauth2_proxy_service_doc(namespace: Seq<char>, owner: JsonView) -> JsonView {
    json::jobj().with("apiVersion"@, json::jstr("v1"@)).with("kind"@, json::jstr("Service"@)).with(
        "metadata"@,
        proxy_meta_doc(namespace, owner),
    ).with(
        "spec"@,
        json::jobj().with("type"@, json::jstr("ClusterIP"@)).with("selector"@, proxy_labels_doc()).with(
            "ports"@,
            json::jarr().push(
                json::jobj().with("name"@, json::jstr("http"@)).with("port"@, json::jint(4180)).with(
                    "targetPort"@,
                    json::jstr("http"@),
                ),
            ),
        ),
    )
}

pub fn oauth2_proxy_service(namespace: &str, owner: &Json) -> (r: Json)
    ensures
        r@ == oauth2_proxy_service_doc(namespace@, owner@),
{
    Json::object().with("apiVersion", Json::text("v1")).with("kind", Json::text("Service")).with(
        "metadata",
        proxy_meta(namespace, owner),
    ).with(
        "spec",
        Json::object().with("type", Json::text("ClusterIP")).with("selector", proxy_labels()).with(
            "ports",
            Json::array().push(
                Json::object().with("name", Json::text("http")).with("port", Json::integer(4180)).with(
                    "targetPort",
                    Json::text("http"),
                ),
            ),
        ),
    )
}

/// A Traefik Middleware named `name` with the given `spec`.
pub open spec fn middleware_doc(
    name: Seq<char>,
    namespace: Seq<char>,
    owner: JsonView,
    spec: JsonView,
) -> JsonView {
    json::jobj().with("apiVersion"@, json::jstr("traefik.io/v1alpha1"@)).with(
        "kind"@,
        json::jstr("Middleware"@),
    ).with("metadata"@, resources::meta_doc(name, namespace, owner)).with("spec"@, spec)
}

fn middleware_body(name: &str, namespace: &str, owner: &Json, spec: Json) -> (r: Json)
    ensures
        r@ == middleware_doc(name@, namespace@, owner@, spec@),
{
    Json::object().with("apiVersion", Json::text("traefik.io/v1alpha1")).with(
        "kind",
        Json::text("Middleware"),
    ).with("metadata", resources::object_meta(name, namespace, owner.copy())).with("spec", spec)
}

/// `http://oauth2-proxy.<namespace>.svc.cluster.local:4180/oauth2/auth`
pub open spec fn forward_auth_address(namespace: Seq<char>) -> Seq<char> {
    "http://"@ + resources::service_host(OAUTH2_PROXY_NAME@, namespace) + ":4180/oauth2/auth"@
}

/// Traefik forward-auth: protected Ingresses delegate auth to oauth2-proxy.
pub open spec fn forward_auth_middleware_doc(namespace: Seq<char>, owner: JsonView) -> JsonView {
    middleware_doc(
        MIDDLEWARE_NAME@,
        namespace,
        owner,
        json::jobj().with(
            "forwardAuth"@,
            json::jobj().with("address"@, json::jstr(forward_auth_address(namespace))).with(
                "trustForwardHeader"@,
                JsonView::Bool(true),
            ).with(
                "authResponseHeaders"@,
                json::jarr().push(json::jstr("X-Auth-Request-User"@)).push(
                    json::jstr("X-Auth-Request-Email"@),
                ),
            ),
        ),
    )
}

pub fn forward_auth_middleware(namespace: &str, owner: &Json) -> (r: Json)
    ensures
        r@ == forward_auth_middleware_doc(namespace@, owner@),
{
    let host = resources::service_host_name(OAUTH2_PROXY_NAME, namespace);
    let address = json::cat3("http://", host.as_str(), ":4180/oauth2/auth");
    let spec = Json::object().with(
        "forwardAuth",
        Json::object().with("address", Json::string(address)).with(
            "trustForwardHeader",
            Json::boolean(true),
        ).with(
            "authResponseHeaders",
            Json::array().push(Json::text("X-Auth-Request-User")).push(
                Json::text("X-Auth-Request-Email"),
            ),
        ),
    );
    middleware_body(MIDDLEWARE_NAME, namespace, owner, spec)
}

/// Traefik `errors` middleware: a 401/403 from forward-auth is answered with
/// oauth2-proxy's sign-in page; `{url}` is Traefik's placeholder for the
/// original request URL.
pub open spec fn auth_errors_middleware_doc(namespace: Seq<char>, owner: JsonView) -> JsonView {
    middleware_doc(
        ERRORS_MIDDLEWARE_NAME@,
        namespace,
        owner,
        json::jobj().with(
            "errors"@,
            json::jobj().with("status"@, json::jarr().push(json::jstr("401-403"@))).with(
                "service"@,
                json::jobj().with("name"@, json::jstr(OAUTH2_PROXY_NAME@)).with(
                    "port"@,
                    json::jint(4180),
                ),
            ).with("query"@, json::jstr("/oauth2/sign_in?rd={url}"@)),
        ),
    )
}

pub fn auth_errors_middleware(namespace: &str, owner: &Json) -> (r: Json)
    ensures
        r@ == auth_errors_middleware_doc(namespace@, owner@),
{
    let spec = Json::object().with(
        "errors",
        Json::object().with("status", Json::array().push(Json::text("401-403"))).with(
            "service",
            Json::object().with("name", Json::text(OAUTH2_PROXY_NAME)).with(
                "port",
                Json::integer(4180),
            ),
        ).with("query", Json::text("/oauth2/sign_in?rd={url}")),
    );
    middleware_body(ERRORS_MIDDLEWARE_NAME, namespace, owner, spec)
}

/// One Ingress rule routing `host` to `service:port`.
pub open spec fn route_doc(host: Seq<char>, service: Seq<char>, port: int) -> JsonView {
    json::jobj().with("host"@, json::jstr(host)).with(
        "http"@,
        json::jobj().with(
            "paths"@,
            json::jarr().push(
                json::jobj().with("path"@, json::jstr("/"@)).with(
                    "pathType"@,
                    json::jstr("Prefix"@),
                ).with(
                    "backend"@,
                    json::jobj().with(
                        "service"@,
                        json::jobj().with("name"@, json::jstr(service)).with(
                            "port"@,
                            json::jobj().with("number"@, json::jint(port)),
                        ),
                    ),
                ),
            ),
        ),
    )
}

/// `{ host, http: { paths: [{ path: "/", pathType: Prefix, backend: service:port }] } }`
pub fn route(host: String, service: &str, port: i64) -> (r: Json)
    ensures
        r@ == route_doc(host@, service@, port as int),
{
    Json::object().with("host", Json::string(host)).with(
        "http",
        Json::object().with(
            "paths",
            Json::array().push(
                Json::object().with("path", Json::text("/")).with("pathType", Json::text("Prefix")).with(
                    "backend",
                    Json::object().with(
                        "service",
                        Json::object().with("name", Json::text(service)).with(
                            "port",
                            Json::object().with("number", Json::integer(port)),
                        ),
                    ),
                ),
            ),
        ),
    )
}

/// Annotation key selecting Traefik's entrypoints.
pub open spec fn entrypoints_key() -> Seq<char> {
    "traefik.ingress.kubernetes.io/router.entrypoints"@
}

/// Annotation key selecting Traefik's middlewares.
pub open spec fn middlewares_key() -> Seq<char> {
    "traefik.ingress.kubernetes.io/router.middlewares"@
}

/// A TLS Ingress named `name` serving `host` (wildcard certificate) from
/// `service:port`, on the `websecure` entrypoint and behind no middleware.
pub open spec fn host_ingress_doc(
    name: Seq<char>,
    namespace: Seq<char>,
    owner: JsonView,
    host: Seq<char>,
    service: Seq<char>,
    port: int,
) -> JsonView {
    json::jobj().with("apiVersion"@, json::jstr("networking.k8s.io/v1"@)).with(
        "kind"@,
        json::jstr("Ingress"@),
    ).with(
        "metadata"@,
        resources::meta_doc(name, namespace, owner).with(
            "annotations"@,
            json::jobj().with(entrypoints_key(), json::jstr("websecure"@)),
        ),
    ).with(
        "spec"@,
        json::jobj().with(
            "tls"@,
            json::jarr().push(
                json::jobj().with("hosts"@, json::jarr().push(json::jstr(host))).with(
                    "secretName"@,
                    json::jstr(WILDCARD_TLS_SECRET@),
                ),
            ),
        ).with("rules"@, json::jarr().push(route_doc(host, service, port))),
    )
}

/// Build the single-host TLS Ingress described by [`host_ingress_doc`].
pub fn host_ingress(
    name: &str,
    namespace: &str,
    owner: &Json,
    host: &str,
    service: &str,
    port: i64,
) -> (r: Json)
    ensures
        r@ == host_ingress_doc(name@, namespace@, owner@, host@, service@, port as int),
{
    Json::object().with("apiVersion", Json::text("networking.k8s.io/v1")).with(
        "kind",
        Json::text("Ingress"),
    ).with(
        "metadata",
        resources::object_meta(name, namespace, owner.copy()).with(
            "annotations",
            Json::object().with(
                "traefik.ingress.kubernetes.io/router.entrypoints",
                Json::text("websecure"),
            ),
        ),
    ).with(
        "spec",
        Json::object().with(
            "tls",
            Json::array().push(
                Json::object().with("hosts", Json::array().push(Json::text(host))).with(
                    "secretName",
                    Json::text(WILDCARD_TLS_SECRET),
                ),
            ),
        ).with("rules", Json::array().push(route(host.to_string(), service, port))),
    )
}

/// The auth host itself, NOT behind the middleware (it performs the login).
pub open spec fn auth_ingress_doc(ing: IngressSpec, namespace: Seq<char>, owner: JsonView) -> JsonView {
    host_ingress_doc(
        "stardelt-auth"@,
        namespace,
        owner,
        "auth."@ + ing.domain@,
        OAUTH2_PROXY_NAME@,
        4180,
    )
}

pub fn auth_ingress(ing: &IngressSpec, namespace: &str, owner: &Json) -> (r: Json)
    ensures
        r@ == auth_ingress_doc(*ing, namespace@, owner@),
{
    let host = json::cat("auth.", ing.domain.as_str());
    host_ingress("stardelt-auth", namespace, owner, host.as_str(), OAUTH2_PROXY_NAME, 4180)
}

/// The middleware chain of the UIs Ingress: errors first, so it wraps
/// forward-auth and turns its 401/403 into the sign-in redirect.
pub open spec fn middleware_chain(namespace: Seq<char>) -> Seq<char> {
    namespace + "-"@ + ERRORS_MIDDLEWARE_NAME@ + "@kubernetescrd,"@ + namespace + "-"@
        + MIDDLEWARE_NAME@ + "@kubernetescrd"@
}

/// All protected UIs, sharing the wildcard certificate and the middlewares.
pub open spec fn uis_ingress_doc(ing: IngressSpec, namespace: Seq<char>, owner: JsonView) -> JsonView {
    let d = ing.domain@;
    json::jobj().with("apiVersion"@, json::jstr("networking.k8s.io/v1"@)).with(
        "kind"@,
        json::jstr("Ingress"@),
    ).with(
        "metadata"@,
        resources::meta_doc("stardelt-uis"@, namespace, owner).with(
            "annotations"@,
            json::jobj().with(entrypoints_key(), json::jstr("websecure"@)).with(
                middlewares_key(),
                json::jstr(middleware_chain(namespace)),
            ),
        ),
    ).with(
        "spec"@,
        json::jobj().with(
            "tls"@,
            json::jarr().push(
                json::jobj().with(
                    "hosts"@,
                    json::jarr().push(json::jstr("nova."@ + d)).push(
                        json::jstr("superset."@ + d),
                    ).push(json::jstr("airflow."@ + d)).push(json::jstr("trino."@ + d)),
                ).with("secretName"@, json::jstr(WILDCARD_TLS_SECRET@)),
            ),
        ).with(
            "rules"@,
            json::jarr().push(route_doc("nova."@ + d, "nova"@, 8080)).push(
                route_doc("superset."@ + d, "superset"@, 8088),
            ).push(route_doc("airflow."@ + d, "airflow-api-server"@, 8080)).push(
                route_doc("trino."@ + d, "trino"@, 8080),
            ),
        ),
    )
}

pub fn uis_ingress(ing: &IngressSpec, namespace: &str, owner: &Json) -> (r: Json)
    ensures
        r@ == uis_ingress_doc(*ing, namespace@, owner@),
{
    let d = ing.domain.as_str();
    let mut chain = json::cat3(namespace, "-", ERRORS_MIDDLEWARE_NAME);
    chain.append("@kubernetescrd,");
    chain.append(namespace);
    chain.append("-");
    chain.append(MIDDLEWARE_NAME);
    chain.append("@kubernetescrd");
    let annotations = Json::object().with(
        "traefik.ingress.kubernetes.io/router.entrypoints",
        Json::text("websecure"),
    ).with("traefik.ingress.kubernetes.io/router.middlewares", Json::string(chain));
    let hosts = Json::array().push(Json::string(json::cat("nova.", d))).push(
        Json::string(json::cat("superset.", d)),
    ).push(Json::string(json::cat("airflow.", d))).push(Json::string(json::cat("trino.", d)));
    let rules = Json::array().push(route(json::cat("nova.", d), "nova", 8080)).push(
        route(json::cat("superset.", d), "superset", 8088),
    ).push(route(json::cat("airflow.", d), "airflow-api-server", 8080)).push(
        route(json::cat("trino.", d), "trino", 8080),
    );
    Json::object().with("apiVersion", Json::text("networking.k8s.io/v1")).with(
        "kind",
        Json::text("Ingress"),
    ).with(
        "metadata",
        resources::object_meta("stardelt-uis", namespace, owner.copy()).with(
            "annotations",
            annotations,
        ),
    ).with(
        "spec",
        Json::object().with(
            "tls",
            Json::array().push(
                Json::object().with("hosts", hosts).with(
                    "secretName",
                    Json::text(WILDCARD_TLS_SECRET),
                ),
            ),
        ).with("rules", rules),
    )
}

/// The auth host is never behind the forward-auth chain (it performs the
/// login), while the protected UIs always are, errors middleware first.
pub proof fn lemma_auth_host_unprotected(ing: IngressSpec, namespace: Seq<char>, owner: JsonView)
    ensures
        json::get_path(
            auth_ingress_doc(ing, namespace, owner),
            seq!["metadata"@, "annotations"@, middlewares_key()],
        ) is None,
        json::get_path(
            uis_ingress_doc(ing, namespace, owner),
            seq!["metadata"@, "annotations"@, middlewares_key()],
        ) == Some(json::jstr(middleware_chain(namespace))),
{
    reveal_strlit("traefik.ingress.kubernetes.io/router.entrypoints");
    reveal_strlit("traefik.ingress.kubernetes.io/router.middlewares");
    reveal_strlit("apiVersion");
    reveal_strlit("kind");
    reveal_strlit("metadata");
    reveal_strlit("name");
    reveal_strlit("namespace");
    reveal_strlit("labels");
    reveal_strlit("ownerReferences");
    reveal_strlit("annotations");
    assert(entrypoints_key()[37] == 'e' && middlewares_key()[37] == 'm');
    assert("apiVersion"@.len() == 10 && "kind"@.len() == 4 && "metadata"@.len() == 8);
    assert("name"@.len() == 4 && "namespace"@.len() == 9 && "labels"@.len() == 6);
    assert("ownerReferences"@.len() == 15 && "annotations"@.len() == 11);
    reveal_with_fuel(json::get_path, 4);
    reveal_with_fuel(json::key_pos_from, 6);
    let p = seq!["metadata"@, "annotations"@, middlewares_key()];
    assert(p.skip(1) =~= seq!["annotations"@, middlewares_key()]);
    assert(p.skip(1).skip(1) =~= seq![middlewares_key()]);
    assert(p.skip(1).skip(1).skip(1) =~= Seq::<Seq<char>>::empty());
}

/// The host of an Ingress rule, and the service name and port number its
/// first path routes to.
pub open spec fn rule_route(rule: JsonView) -> Option<(Seq<char>, Seq<char>, int)> {
    match (rule.get("host"@), json::get_path(rule, seq!["http"@, "paths"@])) {
        (Some(JsonView::Str(h)), Some(paths)) => match paths.at(0) {
            Some(p) => match (
                json::get_path(p, seq!["backend"@, "service"@, "name"@]),
                json::get_path(p, seq!["backend"@, "service"@, "port"@, "number"@]),
            ) {
                (Some(JsonView::Str(n)), Some(JsonView::Int(port))) => Some((h, n, port)),
                _ => None,
            },
            None => None,
        },
        _ => None,
    }
}

/// A route sends its host to its service and port.
pub proof fn lemma_route_doc(host: Seq<char>, service: Seq<char>, port: int)
    ensures
        rule_route(route_doc(host, service, port)) == Some((host, service, port)),
{
    reveal_strlit("host");
    reveal_strlit("http");
    reveal_strlit("paths");
    reveal_strlit("path");
    reveal_strlit("pathType");
    reveal_strlit("backend");
    reveal_strlit("service");
    reveal_strlit("name");
    reveal_strlit("port");
    reveal_strlit("number");
    assert("host"@.len() == 4 && "http"@.len() == 4 && "host"@[1] == 'o' && "http"@[1] == 't');
    assert("path"@.len() == 4 && "pathType"@.len() == 8 && "backend"@.len() == 7);
    assert("name"@.len() == 4 && "port"@.len() == 4 && "name"@[0] == 'n' && "port"@[0] == 'p');
    assert("service"@.len() == 7 && "number"@.len() == 6 && "paths"@.len() == 5);
    let po = json::jobj().with("number"@, json::jint(port));
    json::lemma_with_get(json::jobj(), "number"@, json::jint(port), "number"@);
    let sv0 = json::jobj().with("name"@, json::jstr(service));
    let sv = sv0.with("port"@, po);
    json::lemma_with_get(json::jobj(), "name"@, json::jstr(service), "name"@);
    json::lemma_with_get(json::jobj(), "name"@, json::jstr(service), "port"@);
    json::lemma_with_get(sv0, "port"@, po, "name"@);
    json::lemma_with_get(sv0, "port"@, po, "port"@);
    let b = json::jobj().with("service"@, sv);
    json::lemma_with_get(json::jobj(), "service"@, sv, "service"@);
    let p0 = json::jobj().with("path"@, json::jstr("/"@));
    let p1 = p0.with("pathType"@, json::jstr("Prefix"@));
    let p = p1.with("backend"@, b);
    json::lemma_with_get(json::jobj(), "path"@, json::jstr("/"@), "backend"@);
    json::lemma_with_get(p0, "pathType"@, json::jstr("Prefix"@), "backend"@);
    json::lemma_with_get(p1, "backend"@, b, "backend"@);
    let paths = json::jarr().push(p);
    let h = json::jobj().with("paths"@, paths);
    json::lemma_with_get(json::jobj(), "paths"@, paths, "paths"@);
    let r0 = json::jobj().with("host"@, json::jstr(host));
    let r = r0.with("http"@, h);
    json::lemma_with_get(json::jobj(), "host"@, json::jstr(host), "host"@);
    json::lemma_with_get(json::jobj(), "host"@, json::jstr(host), "http"@);
    json::lemma_with_get(r0, "http"@, h, "host"@);
    json::lemma_with_get(r0, "http"@, h, "http"@);
    assert(r == route_doc(host, service, port));
    reveal_with_fuel(json::get_path, 5);
    let a = seq!["http"@, "paths"@];
    assert(a.skip(1) =~= seq!["paths"@] && a.skip(1).skip(1) =~= Seq::<Seq<char>>::empty());
    let bn = seq!["backend"@, "service"@, "name"@];
    assert(bn.skip(1) =~= seq!["service"@, "name"@] && bn.skip(1).skip(1) =~= seq!["name"@]);
    assert(bn.skip(1).skip(1).skip(1) =~= Seq::<Seq<char>>::empty());
    let bp = seq!["backend"@, "service"@, "port"@, "number"@];
    assert(bp.skip(1) =~= seq!["service"@, "port"@, "number"@]);
    assert(bp.skip(1).skip(1) =~= seq!["port"@, "number"@]);
    assert(bp.skip(1).skip(1).skip(1) =~= seq!["number"@]);
    assert(bp.skip(1).skip(1).skip(1).skip(1) =~= Seq::<Seq<char>>::empty());
    assert(paths.at(0) == Some(p));
}

/// The UIs Ingress serves each UI at `<component>.<domain>` and routes it to
/// that component's own service: Nova to `nova:8080`, Superset to
/// `superset:8088`, Airflow to `airflow-api-server:8080` and Trino to
/// `trino:8080`, and has no other rule.
pub proof fn lemma_uis_routes(ing: IngressSpec, namespace: Seq<char>, owner: JsonView)
    ensures
        ({
            let d = ing.domain@;
            &&& json::get_path(uis_ingress_doc(ing, namespace, owner), seq!["spec"@, "rules"@]) matches Some(
                JsonView::Arr(rs),
            )
            &&& rs.len() == 4
            &&& rule_route(rs[0]) == Some(("nova."@ + d, "nova"@, 8080int))
            &&& rule_route(rs[1]) == Some(("superset."@ + d, "superset"@, 8088int))
            &&& rule_route(rs[2]) == Some(("airflow."@ + d, "airflow-api-server"@, 8080int))
            &&& rule_route(rs[3]) == Some(("trino."@ + d, "trino"@, 8080int))
        }),
{
    reveal_strlit("apiVersion");
    reveal_strlit("kind");
    reveal_strlit("metadata");
    reveal_strlit("spec");
    reveal_strlit("tls");
    reveal_strlit("rules");
    assert("apiVersion"@.len() == 10 && "metadata"@.len() == 8 && "tls"@.len() == 3);
    assert("kind"@.len() == 4 && "kind"@[0] == 'k' && "spec"@.len() == 4 && "spec"@[0] == 's');
    assert("rules"@.len() == 5);
    let d = ing.domain@;
    let doc = uis_ingress_doc(ing, namespace, owner);
    let rules = json::jarr().push(route_doc("nova."@ + d, "nova"@, 8080int)).push(
        route_doc("superset."@ + d, "superset"@, 8088int),
    ).push(route_doc("airflow."@ + d, "airflow-api-server"@, 8080int)).push(
        route_doc("trino."@ + d, "trino"@, 8080int),
    );
    let tls = json::jarr().push(
        json::jobj().with(
            "hosts"@,
            json::jarr().push(json::jstr("nova."@ + d)).push(json::jstr("superset."@ + d)).push(
                json::jstr("airflow."@ + d),
            ).push(json::jstr("trino."@ + d)),
        ).with("secretName"@, json::jstr(WILDCARD_TLS_SECRET@)),
    );
    let sp0 = json::jobj().with("tls"@, tls);
    let sp = sp0.with("rules"@, rules);
    json::lemma_with_get(json::jobj(), "tls"@, tls, "rules"@);
    json::lemma_with_get(sp0, "rules"@, rules, "rules"@);
    let meta = resources::meta_doc("stardelt-uis"@, namespace, owner).with(
        "annotations"@,
        json::jobj().with(entrypoints_key(), json::jstr("websecure"@)).with(
            middlewares_key(),
            json::jstr(middleware_chain(namespace)),
        ),
    );
    let d0 = json::jobj().with("apiVersion"@, json::jstr("networking.k8s.io/v1"@));
    let d1 = d0.with("kind"@, json::jstr("Ingress"@));
    let d2 = d1.with("metadata"@, meta);
    json::lemma_with_get(json::jobj(), "apiVersion"@, json::jstr("networking.k8s.io/v1"@), "spec"@);
    json::lemma_with_get(d0, "kind"@, json::jstr("Ingress"@), "spec"@);
    json::lemma_with_get(d1, "metadata"@, meta, "spec"@);
    json::lemma_with_get(d2, "spec"@, sp, "spec"@);
    assert(doc == d2.with("spec"@, sp));
    reveal_with_fuel(json::get_path, 3);
    let path = seq!["spec"@, "rules"@];
    assert(path.skip(1) =~= seq!["rules"@] && path.skip(1).skip(1) =~= Seq::<Seq<char>>::empty());
    assert(json::get_path(doc, path) == Some(rules));
    lemma_route_doc("nova."@ + d, "nova"@, 8080int);
    lemma_route_doc("superset."@ + d, "superset"@, 8088);
    lemma_route_doc("airflow."@ + d, "airflow-api-server"@, 8080int);
    lemma_route_doc("trino."@ + d, "trino"@, 8080int);
}

} // verus!
