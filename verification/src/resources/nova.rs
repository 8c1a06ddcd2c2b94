//! Nova — UI + backend Deployment and its ClusterIP Service.
//!
//! Nova proxies Trino and Lakekeeper, so its environment points at the
//! in-cluster service DNS. With SSO it authenticates against Keycloak.
use vstd::prelude::*;

use crate::api::PlatformInstance;
use crate::json;
use crate::json::{Json, JsonView};
use crate::resources;
use crate::resources::keycloak;
use crate::resources::keycloak_bootstrap;
use crate::resources::keycloak_bootstrap::{CLIENT_SECRET_KEY, NOVA_OIDC_SECRET};

verus! {

pub const NAME: &'static str = "nova";

pub open spec fn selector_labels_doc() -> JsonView {
    json::jobj().with("app.kubernetes.io/name"@, json::jstr("nova"@))
}

fn selector_labels() -> (r: Json)
    ensures
        r@ == selector_labels_doc(),
{
    Json::object().with("app.kubernetes.io/name", Json::text("nova"))
}

/// The environment Nova always gets: service URLs, warehouse and dev user.
pub open spec fn base_env_doc(namespace: Seq<char>) -> JsonView {
    json::jarr().push(
        resources::value_env_doc(
            "NOVA_TRINO_URL"@,
            "http://"@ + resources::service_host("trino"@, namespace) + ":8080"@,
        ),
    ).push(
        resources::value_env_doc(
            "NOVA_LAKEKEEPER_URL"@,
            "http://"@ + resources::service_host("lakekeeper"@, namespace) + ":8181"@,
        ),
    ).push(resources::value_env_doc("NOVA_WAREHOUSE_NAME"@, "warehouse"@)).push(
        resources::value_env_doc("NOVA_DEV_USER"@, "stardelt-dev"@),
    ).push(resources::value_env_doc("RUST_LOG"@, "info,tower_http=info"@))
}

/// Nova's environment: with SSO, the OIDC issuer, client id, client secret
/// (from the `nova-oidc` Secret) and public URL follow the base entries.
pub open spec fn env_doc(pi: PlatformInstance) -> JsonView {
    let base = base_env_doc(pi.spec.namespace@);
    match pi.spec.sso {
        Some(sso) => base.push(
            resources::value_env_doc("NOVA_OIDC_ISSUER"@, keycloak::issuer_url_text(sso)),
        ).push(resources::value_env_doc("NOVA_OIDC_CLIENT_ID"@, sso.nova_client_id@)).push(
            resources::secret_env_doc(
                "NOVA_OIDC_CLIENT_SECRET"@,
                NOVA_OIDC_SECRET@,
                CLIENT_SECRET_KEY@,
            ),
        ).push(resources::value_env_doc("NOVA_PUBLIC_URL"@, "https://nova."@ + sso.domain@)),
        None => base,
    }
}

/// The Nova Deployment.
pub open spec fn deployment_doc(pi: PlatformInstance, owner: JsonView) -> JsonView {
    let ns = pi.spec.namespace@;
    json::jobj().with("apiVersion"@, json::jstr("apps/v1"@)).with(
        "kind"@,
        json::jstr("Deployment"@),
    ).with("metadata"@, resources::meta_doc(NAME@, ns, owner)).with(
        "spec"@,
        json::jobj().with("replicas"@, json::jint(1)).with(
            "selector"@,
            json::jobj().with("matchLabels"@, selector_labels_doc()),
        ).with(
            "template"@,
            json::jobj().with(
                "metadata"@,
                json::jobj().with(
                    "labels"@,
                    json::jobj().with("app.kubernetes.io/name"@, json::jstr("nova"@)).with(
                        "app.kubernetes.io/part-of"@,
                        json::jstr("stardelt"@),
                    ),
                ),
            ).with(
                "spec"@,
                json::jobj().with(
                    "containers"@,
                    json::jarr().push(
                        json::jobj().with("name"@, json::jstr("nova"@)).with(
                            "image"@,
                            json::jstr(pi.spec.components.nova.image@),
                        ).with("imagePullPolicy"@, json::jstr("IfNotPresent"@)).with(
                            "ports"@,
                            json::jarr().push(
                                json::jobj().with("containerPort"@, json::jint(8080)).with(
                                    "name"@,
                                    json::jstr("http"@),
                                ),
                            ),
                        ).with("env"@, env_doc(pi)).with(
                            "readinessProbe"@,
                            json::jobj().with(
                                "httpGet"@,
                                json::jobj().with("path"@, json::jstr("/api/health"@)).with(
                                    "port"@,
                                    json::jstr("http"@),
                                ),
                            ).with("initialDelaySeconds"@, json::jint(2)).with(
                                "periodSeconds"@,
                                json::jint(5),
                            ),
                        ).with(
                            "resources"@,
                            resources::resources_doc("50m"@, "64Mi"@, "1"@, "256Mi"@),
                        ),
                    ),
                ),
            ),
        ),
    )
}

fn env(pi: &PlatformInstance) -> (r: Json)
    ensures
        r@ == env_doc(*pi),
{
    let ns = pi.spec.namespace.as_str();
    let trino = resources::service_host_name("trino", ns);
    let lakekeeper = resources::service_host_name("lakekeeper", ns);
    let base = Json::array().push(
        resources::value_env("NOVA_TRINO_URL", json::cat3("http://", trino.as_str(), ":8080").as_str()),
    ).push(
        resources::value_env(
            "NOVA_LAKEKEEPER_URL",
            json::cat3("http://", lakekeeper.as_str(), ":8181").as_str(),
        ),
    ).push(resources::value_env("NOVA_WAREHOUSE_NAME", "warehouse")).push(
        resources::value_env("NOVA_DEV_USER", "stardelt-dev"),
    ).push(resources::value_env("RUST_LOG", "info,tower_http=info"));
    match &pi.spec.sso {
        Some(sso) => {
            let issuer = keycloak::issuer_url(sso);
            base.push(resources::value_env("NOVA_OIDC_ISSUER", issuer.as_str())).push(
                resources::value_env("NOVA_OIDC_CLIENT_ID", sso.nova_client_id.as_str()),
            ).push(
                resources::secret_env("NOVA_OIDC_CLIENT_SECRET", NOVA_OIDC_SECRET, CLIENT_SECRET_KEY),
            ).push(
                resources::value_env(
                    "NOVA_PUBLIC_URL",
                    json::cat("https://nova.", sso.domain.as_str()).as_str(),
                ),
            )
        },
        None => base,
    }
}

pub fn deployment(pi: &PlatformInstance, owner: Json) -> (r: Json)
    ensures
        r@ == deployment_doc(*pi, owner@),
{
    let ns = pi.spec.namespace.as_str();
    let container = Json::object().with("name", Json::text("nova")).with(
        "image",
        Json::string(pi.spec.components.nova.image.clone()),
    ).with("imagePullPolicy", Json::text("IfNotPresent")).with(
        "ports",
        Json::array().push(
            Json::object().with("containerPort", Json::integer(8080)).with(
                "name",
                Json::text("http"),
            ),
        ),
    ).with("env", env(pi)).with(
        "readinessProbe",
        Json::object().with(
            "httpGet",
            Json::object().with("path", Json::text("/api/health")).with("port", Json::text("http")),
        ).with("initialDelaySeconds", Json::integer(2)).with("periodSeconds", Json::integer(5)),
    ).with("resources", resources::resource_limits("50m", "64Mi", "1", "256Mi"));
    Json::object().with("apiVersion", Json::text("apps/v1")).with(
        "kind",
        Json::text("Deployment"),
    ).with("metadata", resources::object_meta(NAME, ns, owner)).with(
        "spec",
        Json::object().with("replicas", Json::integer(1)).with(
            "selector",
            Json::object().with("matchLabels", selector_labels()),
        ).with(
            "template",
            Json::object().with(
                "metadata",
                Json::object().with(
                    "labels",
                    Json::object().with("app.kubernetes.io/name", Json::text("nova")).with(
                        "app.kubernetes.io/part-of",
                        Json::text("stardelt"),
                    ),
                ),
            ).with("spec", Json::object().with("containers", Json::array().push(container))),
        ),
    )
}

/// The Service's labels: the standard labels plus Nova's name label.
pub open spec fn service_labels_doc() -> JsonView {
    resources::labels_doc().with("app.kubernetes.io/name"@, json::jstr("nova"@))
}

fn service_labels() -> (r: Json)
    ensures
        r@ == service_labels_doc(),
{
    resources::labels().with("app.kubernetes.io/name", Json::text("nova"))
}

/// The Nova ClusterIP Service on port 8080.
pub open spec fn service_doc(pi: PlatformInstance, owner: JsonView) -> JsonView {
    json::jobj().with("apiVersion"@, json::jstr("v1"@)).with("kind"@, json::jstr("Service"@)).with(
        "metadata"@,
        json::jobj().with("name"@, json::jstr(NAME@)).with(
            "namespace"@,
            json::jstr(pi.spec.namespace@),
        ).with("labels"@, service_labels_doc()).with("ownerReferences"@, json::jarr().push(owner)),
    ).with(
        "spec"@,
        json::jobj().with("type"@, json::jstr("ClusterIP"@)).with("selector"@, selector_labels_doc()).with(
            "ports"@,
            json::jarr().push(
                json::jobj().with("name"@, json::jstr("http"@)).with("port"@, json::jint(8080)).with(
                    "targetPort"@,
                    json::jstr("http"@),
                ),
            ),
        ),
    )
}

pub fn service(pi: &PlatformInstance, owner: Json) -> (r: Json)
    ensures
        r@ == service_doc(*pi, owner@),
{
    Json::object().with("apiVersion", Json::text("v1")).with("kind", Json::text("Service")).with(
        "metadata",
        Json::object().with("name", Json::text(NAME)).with(
            "namespace",
            Json::string(pi.spec.namespace.clone()),
        ).with("labels", service_labels()).with("ownerReferences", Json::array().push(owner)),
    ).with(
        "spec",
        Json::object().with("type", Json::text("ClusterIP")).with("selector", selector_labels()).with(
            "ports",
            Json::array().push(
                Json::object().with("name", Json::text("http")).with("port", Json::integer(8080)).with(
                    "targetPort",
                    Json::text("http"),
                ),
            ),
        ),
    )
}

/// With SSO, Nova reads its OIDC client secret from the `nova-oidc` Secret
/// under the key that Secret defines; the realm bootstrap Job reads the very
/// same key, so Nova and Keycloak agree on the client secret.
pub proof fn lemma_oidc_secret_wiring(pi: PlatformInstance, uid: Seq<char>, owner: JsonView)
    requires
        pi.spec.sso is Some,
    ensures
        env_doc(pi)->Arr_0[7] == resources::secret_env_doc(
            "NOVA_OIDC_CLIENT_SECRET"@,
            NOVA_OIDC_SECRET@,
            CLIENT_SECRET_KEY@,
        ),
        keycloak_bootstrap::env_doc(pi.spec.namespace@, pi.spec.sso->0)->Arr_0[8]
            == resources::secret_env_doc("NOVA_CLIENT_SECRET"@, NOVA_OIDC_SECRET@, CLIENT_SECRET_KEY@),
        keycloak_bootstrap::nova_oidc_secret_doc(pi.spec.namespace@, uid, owner).get(
            "data"@,
        )->0.get(CLIENT_SECRET_KEY@) is Some,
{
    keycloak_bootstrap::lemma_nova_oidc_secret_stable(pi.spec.namespace@, pi.spec.namespace@, uid, owner, owner);
    reveal_with_fuel(json::key_pos_from, 2);
}

/// The environment list of a Deployment's first container.
pub open spec fn container_env(deployment: JsonView) -> Option<JsonView> {
    match json::get_path(deployment, seq!["spec"@, "template"@, "spec"@, "containers"@]) {
        Some(cs) => match cs.at(0) {
            Some(c) => c.get("env"@),
            None => None,
        },
        None => None,
    }
}

/// With SSO, Nova's public URL is the host the UIs Ingress serves it on:
/// the Nova container's environment has a `NOVA_PUBLIC_URL` entry, and
/// every such entry holds `https://nova.<sso domain>`.
pub proof fn lemma_nova_public_url(pi: PlatformInstance, owner: JsonView)
    requires
        pi.spec.sso is Some,
    ensures
        ({
            let url = "https://nova."@ + pi.spec.sso->0.domain@;
            let key = "NOVA_PUBLIC_URL"@;
            &&& container_env(deployment_doc(pi, owner)) matches Some(JsonView::Arr(es))
            &&& exists|i: int| 0 <= i < es.len() && (#[trigger] es[i]).get("name"@) == Some(json::jstr(key))
            &&& forall|i: int|
                0 <= i < es.len() && (#[trigger] es[i]).get("name"@) == Some(json::jstr(key))
                    ==> es[i].get("value"@) == Some(json::jstr(url))
        }),
{
    let sso = pi.spec.sso->0;
    let ns = pi.spec.namespace@;
    reveal_strlit("apiVersion");
    reveal_strlit("kind");
    reveal_strlit("metadata");
    reveal_strlit("spec");
    reveal_strlit("replicas");
    reveal_strlit("selector");
    reveal_strlit("template");
    reveal_strlit("containers");
    reveal_strlit("name");
    reveal_strlit("image");
    reveal_strlit("imagePullPolicy");
    reveal_strlit("ports");
    reveal_strlit("env");
    reveal_strlit("readinessProbe");
    reveal_strlit("resources");
    reveal_strlit("value");
    reveal_strlit("valueFrom");
    reveal_strlit("NOVA_TRINO_URL");
    reveal_strlit("NOVA_LAKEKEEPER_URL");
    reveal_strlit("NOVA_WAREHOUSE_NAME");
    reveal_strlit("NOVA_DEV_USER");
    reveal_strlit("RUST_LOG");
    reveal_strlit("NOVA_OIDC_ISSUER");
    reveal_strlit("NOVA_OIDC_CLIENT_ID");
    reveal_strlit("NOVA_OIDC_CLIENT_SECRET");
    reveal_strlit("NOVA_PUBLIC_URL");
    assert("apiVersion"@.len() == 10 && "metadata"@.len() == 8 && "replicas"@.len() == 8);
    assert("kind"@.len() == 4 && "kind"@[0] == 'k' && "spec"@.len() == 4 && "spec"@[0] == 's');
    assert("selector"@.len() == 8 && "template"@.len() == 8 && "containers"@.len() == 10);
    assert("selector"@[0] == 's' && "template"@[0] == 't');
    assert("name"@.len() == 4 && "image"@.len() == 5 && "imagePullPolicy"@.len() == 15);
    assert("ports"@.len() == 5 && "env"@.len() == 3 && "readinessProbe"@.len() == 14);
    assert("resources"@.len() == 9 && "value"@.len() == 5 && "valueFrom"@.len() == 9);
    assert("NOVA_TRINO_URL"@.len() == 14 && "NOVA_LAKEKEEPER_URL"@.len() == 19);
    assert("NOVA_WAREHOUSE_NAME"@.len() == 19 && "NOVA_DEV_USER"@.len() == 13 && "RUST_LOG"@.len() == 8);
    assert("NOVA_OIDC_ISSUER"@.len() == 16 && "NOVA_OIDC_CLIENT_ID"@.len() == 19);
    assert("NOVA_OIDC_CLIENT_SECRET"@.len() == 23 && "NOVA_PUBLIC_URL"@.len() == 15);
    // The environment entries.
    let env = env_doc(pi);
    let es = env->Arr_0;
    assert(es.len() == 9);
    assert forall|i: int| 0 <= i < 9 && i != 7 implies ({
        let e = #[trigger] es[i];
        &&& e->Obj_0.len() == 2
        &&& e->Obj_0[0].0 == "name"@
        &&& e->Obj_0[1].0 == "value"@
    }) by {}
    assert(es[7] == resources::secret_env_doc("NOVA_OIDC_CLIENT_SECRET"@, keycloak_bootstrap::NOVA_OIDC_SECRET@, keycloak_bootstrap::CLIENT_SECRET_KEY@));
    assert forall|i: int| 0 <= i < 9 implies ({
        let e = #[trigger] es[i];
        &&& e is Obj
        &&& e->Obj_0.len() == 2
        &&& e->Obj_0[0].0 == "name"@
        &&& e->Obj_0[1].0 != "name"@
        &&& e->Obj_0[0].1 is Str
        &&& (e->Obj_0[0].1->Str_0 == "NOVA_PUBLIC_URL"@ <==> i == 8)
    }) by {
        let e = es[i];
        json::lemma_key_pos_from(e->Obj_0, "name"@, 0);
    }
    assert forall|i: int| 0 <= i < 9 implies (#[trigger] es[i]).get("name"@) == Some(es[i]->Obj_0[0].1) by {
        reveal_with_fuel(json::key_pos_from, 2);
    }
    assert(es[8] == resources::value_env_doc("NOVA_PUBLIC_URL"@, "https://nova."@ + pi.spec.sso->0.domain@));
    assert(es[8].get("value"@) == Some(JsonView::Str("https://nova."@ + pi.spec.sso->0.domain@))) by {
        reveal_with_fuel(json::key_pos_from, 3);
    }
    // The container.
    let c0 = json::jobj().with("name"@, json::jstr("nova"@));
    let c1 = c0.with("image"@, json::jstr(pi.spec.components.nova.image@));
    let c2 = c1.with("imagePullPolicy"@, json::jstr("IfNotPresent"@));
    let ports = json::jarr().push(
        json::jobj().with("containerPort"@, json::jint(8080)).with("name"@, json::jstr("http"@)),
    );
    let c3 = c2.with("ports"@, ports);
    let c4 = c3.with("env"@, env);
    let probe = json::jobj().with(
        "httpGet"@,
        json::jobj().with("path"@, json::jstr("/api/health"@)).with("port"@, json::jstr("http"@)),
    ).with("initialDelaySeconds"@, json::jint(2)).with("periodSeconds"@, json::jint(5));
    let c5 = c4.with("readinessProbe"@, probe);
    let res = resources::resources_doc("50m"@, "64Mi"@, "1"@, "256Mi"@);
    let c = c5.with("resources"@, res);
    json::lemma_with_get(json::jobj(), "name"@, json::jstr("nova"@), "env"@);
    json::lemma_with_get(c0, "image"@, json::jstr(pi.spec.components.nova.image@), "env"@);
    json::lemma_with_get(c1, "imagePullPolicy"@, json::jstr("IfNotPresent"@), "env"@);
    json::lemma_with_get(c2, "ports"@, ports, "env"@);
    json::lemma_with_get(c3, "env"@, env, "env"@);
    json::lemma_with_get(c4, "readinessProbe"@, probe, "env"@);
    json::lemma_with_get(c5, "resources"@, res, "env"@);
    let containers = json::jarr().push(c);
    let ts = json::jobj().with("containers"@, containers);
    json::lemma_with_get(json::jobj(), "containers"@, containers, "containers"@);
    let tmeta = json::jobj().with(
        "labels"@,
        json::jobj().with("app.kubernetes.io/name"@, json::jstr("nova"@)).with(
            "app.kubernetes.io/part-of"@,
            json::jstr("stardelt"@),
        ),
    );
    let t0 = json::jobj().with("metadata"@, tmeta);
    let t = t0.with("spec"@, ts);
    json::lemma_with_get(json::jobj(), "metadata"@, tmeta, "spec"@);
    json::lemma_with_get(t0, "spec"@, ts, "spec"@);
    let sel = json::jobj().with("matchLabels"@, selector_labels_doc());
    let s0 = json::jobj().with("replicas"@, json::jint(1));
    let s1 = s0.with("selector"@, sel);
    let sp = s1.with("template"@, t);
    json::lemma_with_get(json::jobj(), "replicas"@, json::jint(1), "template"@);
    json::lemma_with_get(s0, "selector"@, sel, "template"@);
    json::lemma_with_get(s1, "template"@, t, "template"@);
    let d0 = json::jobj().with("apiVersion"@, json::jstr("apps/v1"@));
    let d1 = d0.with("kind"@, json::jstr("Deployment"@));
    let d2 = d1.with("metadata"@, resources::meta_doc(NAME@, ns, owner));
    json::lemma_with_get(json::jobj(), "apiVersion"@, json::jstr("apps/v1"@), "spec"@);
    json::lemma_with_get(d0, "kind"@, json::jstr("Deployment"@), "spec"@);
    json::lemma_with_get(d1, "metadata"@, resources::meta_doc(NAME@, ns, owner), "spec"@);
    json::lemma_with_get(d2, "spec"@, sp, "spec"@);
    assert(deployment_doc(pi, owner) == d2.with("spec"@, sp));
    reveal_with_fuel(json::get_path, 5);
    let path = seq!["spec"@, "template"@, "spec"@, "containers"@];
    assert(path.skip(1) =~= seq!["template"@, "spec"@, "containers"@]);
    assert(path.skip(1).skip(1) =~= seq!["spec"@, "containers"@]);
    assert(path.skip(1).skip(1).skip(1) =~= seq!["containers"@]);
    assert(path.skip(1).skip(1).skip(1).skip(1) =~= Seq::<Seq<char>>::empty());
    assert(container_env(deployment_doc(pi, owner)) == Some(env));
    assert(es[8].get("name"@) == Some(json::jstr("NOVA_PUBLIC_URL"@)));
}

} // verus!
