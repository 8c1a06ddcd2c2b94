//! The `PlatformInstance` reconcile pass.
//!
//! A pass is a declarative, ordered walk of the core-stack dependency DAG
//! (object storage, catalog, query engine, orchestration, BI, UI). The walk is
//! planned up front as a list of operations: apply a manifest, check that a
//! step is ready, or mark a step's condition. [`Pass`] hands the caller one
//! [`Command`] at a time (apply, fetch, or patch the final status) and is
//! advanced with what the cluster answered. The first check that is not ready
//! records a `False` condition and ends the pass (requeue on the poll
//! interval); once every check has passed the pass records top-level `Ready`
//! (requeue on the resync interval).
use vstd::prelude::*;

use crate::api::platform_instance::{API_VERSION, KIND};
use crate::api::platform_instance::{IngressSpec, KeycloakSsoSpec};
use crate::api::PlatformInstance;
use crate::json;
use crate::json::{Json, JsonView};
use crate::readiness;
use crate::readiness::{Condition, ConditionView};
use crate::resources;
use crate::resources::flux::Chart;
use crate::resources::Gvk;
use crate::resources::{
    bootstrap, cnpg, flux, ingress, keycloak, keycloak_bootstrap, keycloak_pg, nova, secret,
};

verus! {

/// Outcome of a readiness check.
pub enum Gate {
    /// The step's resource is ready; continue with the next step.
    Ready,
    /// Not ready yet; the pass stops and records this reason.
    Pending(&'static str),
}

/// The pending reason of a gate, `None` when ready.
pub open spec fn gate_view(g: Gate) -> Option<Seq<char>> {
    match g {
        Gate::Ready => None,
        Gate::Pending(r) => Some(r@),
    }
}

/// The model of an optional document.
pub open spec fn opt_view(o: Option<Json>) -> Option<JsonView> {
    match o {
        Some(j) => Some(j@),
        None => None,
    }
}

/// Gate on an object's `Ready` condition: `NotFound` when absent,
/// `NotReady` when present without `Ready=True`.
pub open spec fn ready_gate(obj: Option<JsonView>) -> Option<Seq<char>> {
    match obj {
        Some(o) => if readiness::has_ready_true(o) {
            None
        } else {
            Some("NotReady"@)
        },
        None => Some("NotFound"@),
    }
}

pub fn gate_on_ready(obj: Option<Json>) -> (g: Gate)
    ensures
        gate_view(g) == ready_gate(opt_view(obj)),
{
    match obj {
        Some(o) => {
            if readiness::ready_condition_true(&o) {
                Gate::Ready
            } else {
                Gate::Pending("NotReady")
            }
        },
        None => Gate::Pending("NotFound"),
    }
}

/// How a fetched object is judged ready.
#[derive(Debug, Clone, Copy)]
pub enum Probe {
    /// `status.conditions[type=Ready].status == "True"` (Flux, CNPG, cert-manager).
    ReadyCondition,
    /// `status.succeeded >= 1` (a Job).
    JobSucceeded,
    /// `status.availableReplicas >= 1` (a Deployment).
    ReplicasAvailable,
}

/// `status.<key>` of an object when it is an integer, else 0.
pub open spec fn status_count(obj: Option<JsonView>, key: Seq<char>) -> int {
    match obj {
        Some(o) => match o.get("status"@) {
            Some(s) => match s.get(key) {
                Some(JsonView::Int(n)) => n,
                _ => 0,
            },
            None => 0,
        },
        None => 0,
    }
}

/// Why `obj` does not pass `probe`, or `None` when it passes.
pub open spec fn probe_reason(probe: Probe, obj: Option<JsonView>) -> Option<Seq<char>> {
    match probe {
        Probe::ReadyCondition => ready_gate(obj),
        Probe::JobSucceeded => if status_count(obj, "succeeded"@) >= 1 {
            None
        } else {
            Some("JobRunning"@)
        },
        Probe::ReplicasAvailable => if status_count(obj, "availableReplicas"@) >= 1 {
            None
        } else {
            Some("Starting"@)
        },
    }
}

fn status_count_of(obj: &Option<Json>, key: &str) -> (r: i64)
    ensures
        r as int == status_count(opt_view(*obj), key@),
{
    match obj {
        Some(o) => match o.get("status") {
            Some(s) => match s.get(key) {
                Some(v) => match v.as_int() {
                    Some(n) => n,
                    None => 0,
                },
                None => 0,
            },
            None => 0,
        },
        None => 0,
    }
}

/// Judge a fetched object.
pub fn probe_gate(probe: Probe, obj: Option<Json>) -> (g: Gate)
    ensures
        gate_view(g) == probe_reason(probe, opt_view(obj)),
{
    match probe {
        Probe::ReadyCondition => gate_on_ready(obj),
        Probe::JobSucceeded => {
            if status_count_of(&obj, "succeeded") >= 1 {
                Gate::Ready
            } else {
                Gate::Pending("JobRunning")
            }
        },
        Probe::ReplicasAvailable => {
            if status_count_of(&obj, "availableReplicas") >= 1 {
                Gate::Ready
            } else {
                Gate::Pending("Starting")
            }
        },
    }
}

/// Where an object lives: its group/version/kind, namespace (none when
/// cluster-scoped) and name.
#[derive(Debug, Clone)]
pub struct Target {
    pub gvk: Gvk,
    pub namespace: Option<String>,
    pub name: String,
}

pub struct TargetView {
    pub group: Seq<char>,
    pub version: Seq<char>,
    pub kind: Seq<char>,
    pub namespace: Option<Seq<char>>,
    pub name: Seq<char>,
}

impl View for Target {
    type V = TargetView;

    open spec fn view(&self) -> TargetView {
        TargetView {
            group: self.gvk.group@,
            version: self.gvk.version@,
            kind: self.gvk.kind@,
            namespace: match self.namespace {
                Some(n) => Some(n@),
                None => None,
            },
            name: self.name@,
        }
    }
}

pub open spec fn tv(
    group: Seq<char>,
    version: Seq<char>,
    kind: Seq<char>,
    namespace: Option<Seq<char>>,
    name: Seq<char>,
) -> TargetView {
    TargetView { group, version, kind, namespace, name }
}

fn target(gvk: Gvk, namespace: Option<&str>, name: &str) -> (r: Target)
    ensures
        r@ == tv(
            gvk.group@,
            gvk.version@,
            gvk.kind@,
            match namespace {
                Some(n) => Some(n@),
                None => None,
            },
            name@,
        ),
{
    Target {
        gvk,
        namespace: match namespace {
            Some(n) => Some(n.to_string()),
            None => None,
        },
        name: name.to_string(),
    }
}

fn copy_target(t: &Target) -> (r: Target)
    ensures
        r@ == t@,
{
    Target {
        gvk: Gvk {
            group: t.gvk.group.clone(),
            version: t.gvk.version.clone(),
            kind: t.gvk.kind.clone(),
        },
        namespace: match &t.namespace {
            Some(n) => Some(n.clone()),
            None => None,
        },
        name: t.name.clone(),
    }
}

/// One planned operation of a pass.
pub enum Op {
    /// Server-side apply `body` at `target`.
    Apply { target: Target, body: Json },
    /// Fetch `target` and judge it with `probe`; when it fails, the pass stops
    /// with condition `step` False, for reason `pending` when given, else the
    /// probe's own reason.
    Check { target: Target, probe: Probe, step: &'static str, pending: Option<&'static str> },
    /// Record condition `step` True with `reason`.
    Mark { step: &'static str, reason: &'static str },
}

pub enum OpView {
    Apply { target: TargetView, body: JsonView },
    Check { target: TargetView, probe: Probe, step: Seq<char>, pending: Option<Seq<char>> },
    Mark { step: Seq<char>, reason: Seq<char> },
}

impl View for Op {
    type V = OpView;

    open spec fn view(&self) -> OpView {
        match self {
            Op::Apply { target, body } => OpView::Apply { target: target@, body: body@ },
            Op::Check { target, probe, step, pending } => OpView::Check {
                target: target@,
                probe: *probe,
                step: step@,
                pending: match pending {
                    Some(p) => Some(p@),
                    None => None,
                },
            },
            Op::Mark { step, reason } => OpView::Mark { step: step@, reason: reason@ },
        }
    }
}

pub open spec fn ops_view(s: Seq<Op>) -> Seq<OpView> {
    s.map_values(|o: Op| o@)
}

/// The reason a check fails on `obs`, or `None` when it passes.
pub open spec fn check_reason(op: OpView, obs: Option<JsonView>) -> Option<Seq<char>> {
    match op {
        OpView::Check { probe, pending, .. } => match probe_reason(probe, obs) {
            Some(r) => match pending {
                Some(p) => Some(p),
                None => Some(r),
            },
            None => None,
        },
        _ => None,
    }
}

fn append_op(ops: &mut Vec<Op>, op: Op)
    ensures
        ops_view(final(ops)@) == ops_view(old(ops)@).push(op@),
{
    ops.push(op);
    assert(ops_view(ops@) =~= ops_view(old(ops)@).push(op@));
}

pub open spec fn apply_op(target: TargetView, body: JsonView) -> OpView {
    OpView::Apply { target, body }
}

pub open spec fn check_op(target: TargetView, probe: Probe, step: Seq<char>, pending: Option<Seq<char>>) -> OpView {
    OpView::Check { target, probe, step, pending }
}

pub open spec fn mark_op(step: Seq<char>, reason: Seq<char>) -> OpView {
    OpView::Mark { step, reason }
}

/// Target of a namespaced object.
pub open spec fn nt(group: Seq<char>, version: Seq<char>, kind: Seq<char>, ns: Seq<char>, name: Seq<char>) -> TargetView {
    tv(group, version, kind, Some(ns), name)
}

/// Apply a native object (type meta forced).
pub open spec fn typed_apply(group: Seq<char>, version: Seq<char>, kind: Seq<char>, ns: Seq<char>, name: Seq<char>, body: JsonView) -> OpView {
    apply_op(nt(group, version, kind, ns, name), resources::typed_body_doc(body, group, version, kind))
}

/// Apply a foreign CRD (type meta filled in where missing).
pub open spec fn dynamic_apply(group: Seq<char>, version: Seq<char>, kind: Seq<char>, ns: Seq<char>, name: Seq<char>, body: JsonView) -> OpView {
    apply_op(nt(group, version, kind, ns, name), resources::dynamic_body_doc(body, group, version, kind))
}

/// The namespace manifest.
pub open spec fn namespace_doc(ns: Seq<char>) -> JsonView {
    json::jobj().with("apiVersion"@, json::jstr("v1"@)).with("kind"@, json::jstr("Namespace"@)).with(
        "metadata"@,
        json::jobj().with("name"@, json::jstr(ns)).with("labels"@, resources::labels_doc()),
    )
}

/// The target namespace, with the standard labels (server-side apply is
/// idempotent, so this creates it when absent).
pub fn namespace_body(ns: &str) -> (r: Json)
    ensures
        r@ == namespace_doc(ns@),
{
    Json::object().with("apiVersion", Json::text("v1")).with("kind", Json::text("Namespace")).with(
        "metadata",
        Json::object().with("name", Json::text(ns)).with("labels", resources::labels()),
    )
}

/// Step 0: the target namespace (cluster-scoped).
pub open spec fn namespace_ops(ns: Seq<char>) -> Seq<OpView> {
    seq![
        apply_op(
            tv(""@, "v1"@, "Namespace"@, None, ns),
            resources::typed_body_doc(namespace_doc(ns), ""@, "v1"@, "Namespace"@),
        ),
    ]
}

/// Applying the `i`th upstream HelmRepository.
pub open spec fn repo_apply(ns: Seq<char>, owner: JsonView, i: int) -> OpView {
    dynamic_apply(
        "source.toolkit.fluxcd.io"@,
        "v1"@,
        "HelmRepository"@,
        ns,
        flux::repos_view()[i].0,
        resources::helm_repository_doc(flux::repos_view()[i].0, ns, flux::repos_view()[i].1, owner),
    )
}

/// Step 1: the six HelmRepositories, then `HelmReposReady`.
pub open spec fn repo_ops(ns: Seq<char>, owner: JsonView) -> Seq<OpView> {
    Seq::new(6, |i: int| repo_apply(ns, owner, i)).push(mark_op("HelmReposReady"@, "Applied"@))
}

/// A HelmRelease step: apply, gate on its `Ready` condition, mark `step`.
pub open spec fn release_ops(
    pi: PlatformInstance,
    chart: Chart,
    deps: Seq<Seq<char>>,
    owner: JsonView,
    embedded: JsonView,
    step: Seq<char>,
) -> Seq<OpView> {
    let ns = pi.spec.namespace@;
    let t = nt("helm.toolkit.fluxcd.io"@, "v2"@, "HelmRelease"@, ns, chart.release@);
    seq![
        apply_op(t, resources::dynamic_body_doc(
            flux::helm_release_doc(pi, chart, deps, owner, flux::values_doc(pi, chart.release@, embedded)),
            "helm.toolkit.fluxcd.io"@, "v2"@, "HelmRelease"@,
        )),
        check_op(t, Probe::ReadyCondition, step, None),
        mark_op(step, "Ready"@),
    ]
}

/// Step 3: the `lakekeeper-pg` Cluster, gated on `Ready`.
pub open spec fn postgres_ops(pi: PlatformInstance, owner: JsonView) -> Seq<OpView> {
    let ns = pi.spec.namespace@;
    let t = nt("postgresql.cnpg.io"@, "v1"@, "Cluster"@, ns, cnpg::CLUSTER_NAME@);
    seq![
        apply_op(t, resources::dynamic_body_doc(cnpg::lakekeeper_pg_doc(pi, owner), "postgresql.cnpg.io"@, "v1"@, "Cluster"@)),
        check_op(t, Probe::ReadyCondition, "PostgresReady"@, None),
        mark_op("PostgresReady"@, "Ready"@),
    ]
}

/// Step 5: the `ozone-s3-creds` Secret.
pub open spec fn secret_ops(pi: PlatformInstance, owner: JsonView) -> Seq<OpView> {
    seq![
        typed_apply(""@, "v1"@, "Secret"@, pi.spec.namespace@, secret::SECRET_NAME@, secret::secret_doc(pi, owner)),
        mark_op("S3CredentialsReady"@, "Applied"@),
    ]
}

/// Step 7: the lakekeeper-bootstrap Job, gated on success.
pub open spec fn warehouse_ops(pi: PlatformInstance, owner: JsonView) -> Seq<OpView> {
    let ns = pi.spec.namespace@;
    seq![
        typed_apply("batch"@, "v1"@, "Job"@, ns, bootstrap::JOB_NAME@, bootstrap::job_doc(pi, owner)),
        check_op(nt("batch"@, "v1"@, "Job"@, ns, bootstrap::JOB_NAME@), Probe::JobSucceeded, "WarehouseReady"@, None),
        mark_op("WarehouseReady"@, "Ready"@),
    ]
}

/// Step 10.5: Keycloak SSO: its Postgres, the Nova OIDC and admin Secrets,
/// the chart, the realm bootstrap Job and the auth Ingress, gated stepwise.
pub open spec fn keycloak_ops(pi: PlatformInstance, sso: KeycloakSsoSpec, owner: JsonView) -> Seq<OpView> {
    let ns = pi.spec.namespace@;
    let uid = match pi.metadata.uid {
        Some(u) => u@,
        None => Seq::empty(),
    };
    let pg = nt("postgresql.cnpg.io"@, "v1"@, "Cluster"@, ns, keycloak_pg::CLUSTER_NAME@);
    let hr = nt("helm.toolkit.fluxcd.io"@, "v2"@, "HelmRelease"@, ns, keycloak::RELEASE@);
    let job = nt("batch"@, "v1"@, "Job"@, ns, keycloak_bootstrap::JOB_NAME@);
    seq![
        dynamic_apply("postgresql.cnpg.io"@, "v1"@, "Cluster"@, ns, keycloak_pg::CLUSTER_NAME@, keycloak_pg::keycloak_pg_doc(pi, owner)),
        check_op(pg, Probe::ReadyCondition, "KeycloakReady"@, Some("KeycloakPostgresNotReady"@)),
        dynamic_apply(""@, "v1"@, "Secret"@, ns, keycloak_bootstrap::NOVA_OIDC_SECRET@, keycloak_bootstrap::nova_oidc_secret_doc(ns, uid, owner)),
        dynamic_apply(""@, "v1"@, "Secret"@, ns, keycloak::ADMIN_SECRET@, keycloak::admin_secret_doc(ns, uid, owner)),
        dynamic_apply("source.toolkit.fluxcd.io"@, "v1"@, "HelmRepository"@, ns, keycloak::CODECENTRIC_REPO@, keycloak::codecentric_repository_doc(ns, owner)),
        dynamic_apply("helm.toolkit.fluxcd.io"@, "v2"@, "HelmRelease"@, ns, keycloak::RELEASE@, keycloak::release_doc(ns, owner)),
        check_op(hr, Probe::ReadyCondition, "KeycloakReady"@, Some("KeycloakInstalling"@)),
        typed_apply("batch"@, "v1"@, "Job"@, ns, keycloak_bootstrap::JOB_NAME@, keycloak_bootstrap::job_doc(pi, sso, owner)),
        check_op(job, Probe::JobSucceeded, "KeycloakReady"@, Some("RealmBootstrapping"@)),
        dynamic_apply("networking.k8s.io"@, "v1"@, "Ingress"@, ns, "stardelt-auth"@, keycloak::auth_ingress_doc(sso, ns, owner)),
        mark_op("KeycloakReady"@, "Ready"@),
    ]
}

/// Step 11: Nova Deployment + Service, gated on an available replica.
pub open spec fn nova_ops(pi: PlatformInstance, owner: JsonView) -> Seq<OpView> {
    let ns = pi.spec.namespace@;
    seq![
        typed_apply("apps"@, "v1"@, "Deployment"@, ns, nova::NAME@, nova::deployment_doc(pi, owner)),
        typed_apply(""@, "v1"@, "Service"@, ns, nova::NAME@, nova::service_doc(pi, owner)),
        check_op(nt("apps"@, "v1"@, "Deployment"@, ns, nova::NAME@), Probe::ReplicasAvailable, "NovaReady"@, None),
        mark_op("NovaReady"@, "Ready"@),
    ]
}

/// Step 12: cert-manager, the issuer and wildcard certificate, oauth2-proxy,
/// the Traefik middlewares and the two Ingresses; gated on cert-manager and
/// finally on the certificate.
pub open spec fn ingress_ops(pi: PlatformInstance, ing: IngressSpec, owner: JsonView) -> Seq<OpView> {
    let ns = pi.spec.namespace@;
    let cm = nt("helm.toolkit.fluxcd.io"@, "v2"@, "HelmRelease"@, ns, "cert-manager"@);
    let cert = nt("cert-manager.io"@, "v1"@, "Certificate"@, ns, ingress::CERTIFICATE_NAME@);
    seq![
        dynamic_apply("source.toolkit.fluxcd.io"@, "v1"@, "HelmRepository"@, ns, ingress::JETSTACK_REPO@, ingress::jetstack_repository_doc(ns, owner)),
        dynamic_apply("helm.toolkit.fluxcd.io"@, "v2"@, "HelmRelease"@, ns, "cert-manager"@, ingress::cert_manager_release_doc(ns, owner)),
        check_op(cm, Probe::ReadyCondition, "IngressReady"@, Some("CertManagerInstalling"@)),
        apply_op(
            tv("cert-manager.io"@, "v1"@, "ClusterIssuer"@, None, ingress::CLUSTER_ISSUER_NAME@),
            resources::dynamic_body_doc(ingress::cluster_issuer_doc(ing, owner), "cert-manager.io"@, "v1"@, "ClusterIssuer"@),
        ),
        dynamic_apply("cert-manager.io"@, "v1"@, "Certificate"@, ns, ingress::CERTIFICATE_NAME@, ingress::certificate_doc(ing, ns, owner)),
        dynamic_apply("apps"@, "v1"@, "Deployment"@, ns, ingress::OAUTH2_PROXY_NAME@, ingress::oauth2_proxy_deployment_doc(ing, ns, owner)),
        dynamic_apply(""@, "v1"@, "Service"@, ns, ingress::OAUTH2_PROXY_NAME@, ingress::oauth2_proxy_service_doc(ns, owner)),
        dynamic_apply("traefik.io"@, "v1alpha1"@, "Middleware"@, ns, ingress::MIDDLEWARE_NAME@, ingress::forward_auth_middleware_doc(ns, owner)),
        dynamic_apply("traefik.io"@, "v1alpha1"@, "Middleware"@, ns, ingress::ERRORS_MIDDLEWARE_NAME@, ingress::auth_errors_middleware_doc(ns, owner)),
        dynamic_apply("networking.k8s.io"@, "v1"@, "Ingress"@, ns, "stardelt-auth"@, ingress::auth_ingress_doc(ing, ns, owner)),
        dynamic_apply("networking.k8s.io"@, "v1"@, "Ingress"@, ns, "stardelt-uis"@, ingress::uis_ingress_doc(ing, ns, owner)),
        check_op(cert, Probe::ReadyCondition, "IngressReady"@, Some("CertificateIssuing"@)),
        mark_op("IngressReady"@, "Ready"@),
    ]
}

/// The parsed, namespace-substituted embedded values of the charts that have
/// them.
pub struct EmbeddedValues {
    pub seaweedfs: Json,
    pub lakekeeper: Json,
    pub trino: Json,
    pub airflow: Json,
    pub superset: Json,
}

/// `ev` holds the parsed, `namespace`-substituted embedded values of each
/// chart.
pub open spec fn embedded_parsed(ev: EmbeddedValues, namespace: Seq<char>) -> bool {
    &&& flux::parsed_values_view("seaweedfs"@, namespace) == Some(ev.seaweedfs@)
    &&& flux::parsed_values_view("lakekeeper"@, namespace) == Some(ev.lakekeeper@)
    &&& flux::parsed_values_view("trino"@, namespace) == Some(ev.trino@)
    &&& flux::parsed_values_view("airflow"@, namespace) == Some(ev.airflow@)
    &&& flux::parsed_values_view("superset"@, namespace) == Some(ev.superset@)
}

/// Every chart's embedded values parse for `namespace`.
pub open spec fn embedded_parse_ok(namespace: Seq<char>) -> bool {
    &&& flux::parsed_values_view("seaweedfs"@, namespace) is Some
    &&& flux::parsed_values_view("lakekeeper"@, namespace) is Some
    &&& flux::parsed_values_view("trino"@, namespace) is Some
    &&& flux::parsed_values_view("airflow"@, namespace) is Some
    &&& flux::parsed_values_view("superset"@, namespace) is Some
}

impl EmbeddedValues {
    /// Substitute `namespace` into each chart's embedded values and parse
    /// them; `None` when any of them fails to parse.
    pub fn parse(namespace: &str) -> (r: Option<EmbeddedValues>)
        ensures
            r is Some <==> embedded_parse_ok(namespace@),
            r matches Some(ev) ==> embedded_parsed(ev, namespace@),
    {
        let seaweedfs = match flux::parsed_values(&Chart::seaweedfs(), namespace) {
            Some(v) => v,
            None => return None,
        };
        let lakekeeper = match flux::parsed_values(&Chart::lakekeeper(), namespace) {
            Some(v) => v,
            None => return None,
        };
        let trino = match flux::parsed_values(&Chart::trino(), namespace) {
            Some(v) => v,
            None => return None,
        };
        let airflow = match flux::parsed_values(&Chart::airflow(), namespace) {
            Some(v) => v,
            None => return None,
        };
        let superset = match flux::parsed_values(&Chart::superset(), namespace) {
            Some(v) => v,
            None => return None,
        };
        Some(EmbeddedValues { seaweedfs, lakekeeper, trino, airflow, superset })
    }
}

pub open spec fn cnpg_chart() -> Chart {
    Chart { release: "cnpg", repo: "cnpg", chart: "cloudnative-pg" }
}

pub open spec fn seaweedfs_chart() -> Chart {
    Chart { release: "seaweedfs", repo: "seaweedfs", chart: "seaweedfs" }
}

pub open spec fn lakekeeper_chart() -> Chart {
    Chart { release: "lakekeeper", repo: "lakekeeper", chart: "lakekeeper" }
}

pub open spec fn trino_chart() -> Chart {
    Chart { release: "trino", repo: "trino", chart: "trino" }
}

pub open spec fn airflow_chart() -> Chart {
    Chart { release: "airflow", repo: "apache-airflow", chart: "airflow" }
}

pub open spec fn superset_chart() -> Chart {
    Chart { release: "superset", repo: "superset", chart: "superset" }
}

/// Every operation of a pass, in dependency order:
/// namespace, HelmRepositories, CNPG operator, lakekeeper-pg, SeaweedFS,
/// S3 credentials, Lakekeeper, warehouse bootstrap, Trino, Airflow and
/// Superset (when enabled), Keycloak (with `spec.sso`), Nova, and the ingress
/// stack (with `spec.ingress`).
#[verifier::opaque]
pub open spec fn plan_view(pi: PlatformInstance, owner: JsonView, ev: EmbeddedValues) -> Seq<OpView> {
    let ns = pi.spec.namespace@;
    namespace_ops(ns) + repo_ops(ns, owner)
        + release_ops(pi, cnpg_chart(), seq![], owner, json::jobj(), "CNPGOperatorReady"@)
        + postgres_ops(pi, owner)
        + release_ops(pi, seaweedfs_chart(), seq![], owner, ev.seaweedfs@, "SeaweedFSReady"@)
        + secret_ops(pi, owner)
        + release_ops(pi, lakekeeper_chart(), seq!["seaweedfs"@], owner, ev.lakekeeper@, "LakekeeperReady"@)
        + warehouse_ops(pi, owner)
        + release_ops(pi, trino_chart(), seq!["lakekeeper"@], owner, ev.trino@, "TrinoReady"@)
        + airflow_part(pi, owner, ev)
        + superset_part(pi, owner, ev)
        + keycloak_part(pi, owner)
        + nova_ops(pi, owner)
        + ingress_part(pi, owner)
}

/// Airflow, when enabled.
pub open spec fn airflow_part(pi: PlatformInstance, owner: JsonView, ev: EmbeddedValues) -> Seq<OpView> {
    if pi.spec.components.airflow_enabled {
        release_ops(pi, airflow_chart(), seq!["lakekeeper"@], owner, ev.airflow@, "AirflowReady"@)
    } else {
        Seq::empty()
    }
}

/// Superset, when enabled.
pub open spec fn superset_part(pi: PlatformInstance, owner: JsonView, ev: EmbeddedValues) -> Seq<OpView> {
    if pi.spec.components.superset_enabled {
        release_ops(pi, superset_chart(), seq!["trino"@], owner, ev.superset@, "SupersetReady"@)
    } else {
        Seq::empty()
    }
}

/// Keycloak, with `spec.sso`.
pub open spec fn keycloak_part(pi: PlatformInstance, owner: JsonView) -> Seq<OpView> {
    match pi.spec.sso {
        Some(sso) => keycloak_ops(pi, sso, owner),
        None => Seq::empty(),
    }
}

/// The ingress stack, with `spec.ingress`.
pub open spec fn ingress_part(pi: PlatformInstance, owner: JsonView) -> Seq<OpView> {
    match pi.spec.ingress {
        Some(ing) => ingress_ops(pi, ing, owner),
        None => Seq::empty(),
    }
}

pub fn core_secret_gvk() -> (r: Gvk)
    ensures
        r.group@ == ""@,
        r.version@ == "v1"@,
        r.kind@ == "Secret"@,
{
    resources::gvk("", "v1", "Secret")
}

pub fn flux_apps_deployment_gvk() -> (r: Gvk)
    ensures
        r.group@ == "apps"@,
        r.version@ == "v1"@,
        r.kind@ == "Deployment"@,
{
    resources::gvk("apps", "v1", "Deployment")
}

pub fn core_service_gvk() -> (r: Gvk)
    ensures
        r.group@ == ""@,
        r.version@ == "v1"@,
        r.kind@ == "Service"@,
{
    resources::gvk("", "v1", "Service")
}

pub fn networking_ingress_gvk() -> (r: Gvk)
    ensures
        r.group@ == "networking.k8s.io"@,
        r.version@ == "v1"@,
        r.kind@ == "Ingress"@,
{
    resources::gvk("networking.k8s.io", "v1", "Ingress")
}

pub fn batch_job_gvk() -> (r: Gvk)
    ensures
        r.group@ == "batch"@,
        r.version@ == "v1"@,
        r.kind@ == "Job"@,
{
    resources::gvk("batch", "v1", "Job")
}

/// The owner reference stamped on every child object (enables garbage
/// collection and watch requeue).
pub open spec fn owner_doc(pi: PlatformInstance) -> JsonView {
    json::jobj().with("apiVersion"@, json::jstr(API_VERSION@)).with("kind"@, json::jstr(KIND@)).with(
        "name"@,
        json::jstr(pi.metadata.name@),
    ).with(
        "uid"@,
        json::jstr(
            match pi.metadata.uid {
                Some(u) => u@,
                None => Seq::empty(),
            },
        ),
    ).with("controller"@, JsonView::Bool(true)).with("blockOwnerDeletion"@, JsonView::Bool(true))
}

/// Build the owner reference for child objects.
pub fn owner_ref(pi: &PlatformInstance) -> (r: Json)
    ensures
        r@ == owner_doc(*pi),
{
    let uid = match &pi.metadata.uid {
        Some(u) => u.clone(),
        None => String::new(),
    };
    Json::object().with("apiVersion", Json::text(API_VERSION)).with("kind", Json::text(KIND)).with(
        "name",
        Json::string(pi.metadata.name.clone()),
    ).with("uid", Json::string(uid)).with("controller", Json::boolean(true)).with(
        "blockOwnerDeletion",
        Json::boolean(true),
    )
}

fn add_namespace(ops: &mut Vec<Op>, ns: &str)
    ensures
        ops_view(final(ops)@) == ops_view(old(ops)@) + namespace_ops(ns@),
{
    let g = resources::gvk("", "v1", "Namespace");
    let body = resources::typed_body(namespace_body(ns), &g);
    append_op(ops, Op::Apply { target: target(g, None, ns), body });
    assert(ops_view(ops@) =~= ops_view(old(ops)@) + namespace_ops(ns@));
}

fn add_repos(ops: &mut Vec<Op>, ns: &str, owner: &Json)
    ensures
        ops_view(final(ops)@) == ops_view(old(ops)@) + repo_ops(ns@, owner@),
{
    let repos = flux::repos();
    let ghost start = ops_view(ops@);
    let mut i: usize = 0;
    while i < repos.len()
        invariant
            i <= repos@.len(),
            repos@.len() == 6,
            forall|j: int|
                0 <= j < repos@.len() ==> (#[trigger] repos@[j].name@, repos@[j].url@)
                    == flux::repos_view()[j],
            ops_view(ops@) == start + Seq::new(i as nat, |j: int| repo_apply(ns@, owner@, j)),
        decreases repos.len() - i,
    {
        let repo = &repos[i];
        let g = flux::helm_repository_gvk();
        let body = resources::dynamic_body(flux::helm_repository(repo, ns, owner), &g);
        let op = Op::Apply { target: target(g, Some(ns), repo.name), body };
        assert(op@ == repo_apply(ns@, owner@, i as int));
        append_op(ops, op);
        assert(ops_view(ops@) =~= start + Seq::new((i + 1) as nat, |j: int| repo_apply(ns@, owner@, j)));
        i = i + 1;
    }
    append_op(ops, Op::Mark { step: "HelmReposReady", reason: "Applied" });
    assert(ops_view(ops@) =~= start + repo_ops(ns@, owner@));
}

fn add_release(
    ops: &mut Vec<Op>,
    pi: &PlatformInstance,
    chart: Chart,
    deps: &[&str],
    owner: &Json,
    embedded: Json,
    step: &'static str,
)
    ensures
        ops_view(final(ops)@) == ops_view(old(ops)@) + release_ops(
            *pi,
            chart,
            flux::names_view(deps@),
            owner@,
            embedded@,
            step@,
        ),
{
    let ns = pi.spec.namespace.as_str();
    let g = flux::helm_release_gvk();
    let body = resources::dynamic_body(flux::helm_release(pi, &chart, deps, owner, embedded), &g);
    append_op(ops, Op::Apply { target: target(g, Some(ns), chart.release), body });
    append_op(
        ops,
        Op::Check {
            target: target(flux::helm_release_gvk(), Some(ns), chart.release),
            probe: Probe::ReadyCondition,
            step,
            pending: None,
        },
    );
    append_op(ops, Op::Mark { step, reason: "Ready" });
    assert(ops_view(ops@) =~= ops_view(old(ops)@) + release_ops(
        *pi,
        chart,
        flux::names_view(deps@),
        owner@,
        embedded@,
        step@,
    ));
}

fn add_postgres(ops: &mut Vec<Op>, pi: &PlatformInstance, owner: &Json)
    ensures
        ops_view(final(ops)@) == ops_view(old(ops)@) + postgres_ops(*pi, owner@),
{
    let ns = pi.spec.namespace.as_str();
    let g = cnpg::gvk();
    let body = resources::dynamic_body(cnpg::build(pi, owner.copy()), &g);
    append_op(ops, Op::Apply { target: target(g, Some(ns), cnpg::CLUSTER_NAME), body });
    append_op(
        ops,
        Op::Check {
            target: target(cnpg::gvk(), Some(ns), cnpg::CLUSTER_NAME),
            probe: Probe::ReadyCondition,
            step: "PostgresReady",
            pending: None,
        },
    );
    append_op(ops, Op::Mark { step: "PostgresReady", reason: "Ready" });
    assert(ops_view(ops@) =~= ops_view(old(ops)@) + postgres_ops(*pi, owner@));
}

fn add_secret(ops: &mut Vec<Op>, pi: &PlatformInstance, owner: &Json)
    ensures
        ops_view(final(ops)@) == ops_view(old(ops)@) + secret_ops(*pi, owner@),
{
    let ns = pi.spec.namespace.as_str();
    let g = core_secret_gvk();
    let body = resources::typed_body(secret::build(pi, owner.copy()), &g);
    append_op(ops, Op::Apply { target: target(g, Some(ns), secret::SECRET_NAME), body });
    append_op(ops, Op::Mark { step: "S3CredentialsReady", reason: "Applied" });
    assert(ops_view(ops@) =~= ops_view(old(ops)@) + secret_ops(*pi, owner@));
}

fn add_warehouse(ops: &mut Vec<Op>, pi: &PlatformInstance, owner: &Json)
    ensures
        ops_view(final(ops)@) == ops_view(old(ops)@) + warehouse_ops(*pi, owner@),
{
    let ns = pi.spec.namespace.as_str();
    let g = batch_job_gvk();
    let body = resources::typed_body(bootstrap::build(pi, owner.copy()), &g);
    append_op(ops, Op::Apply { target: target(g, Some(ns), bootstrap::JOB_NAME), body });
    append_op(
        ops,
        Op::Check {
            target: target(batch_job_gvk(), Some(ns), bootstrap::JOB_NAME),
            probe: Probe::JobSucceeded,
            step: "WarehouseReady",
            pending: None,
        },
    );
    append_op(ops, Op::Mark { step: "WarehouseReady", reason: "Ready" });
    assert(ops_view(ops@) =~= ops_view(old(ops)@) + warehouse_ops(*pi, owner@));
}

fn add_dynamic(ops: &mut Vec<Op>, g: Gvk, ns: &str, name: &str, body: Json)
    ensures
        ops_view(final(ops)@) == ops_view(old(ops)@).push(
            dynamic_apply(g.group@, g.version@, g.kind@, ns@, name@, body@),
        ),
{
    let body = resources::dynamic_body(body, &g);
    append_op(ops, Op::Apply { target: target(g, Some(ns), name), body });
}

fn add_typed(ops: &mut Vec<Op>, g: Gvk, ns: &str, name: &str, body: Json)
    ensures
        ops_view(final(ops)@) == ops_view(old(ops)@).push(
            typed_apply(g.group@, g.version@, g.kind@, ns@, name@, body@),
        ),
{
    let body = resources::typed_body(body, &g);
    append_op(ops, Op::Apply { target: target(g, Some(ns), name), body });
}

fn add_check(
    ops: &mut Vec<Op>,
    g: Gvk,
    ns: &str,
    name: &str,
    probe: Probe,
    step: &'static str,
    pending: Option<&'static str>,
)
    ensures
        ops_view(final(ops)@) == ops_view(old(ops)@).push(
            check_op(
                nt(g.group@, g.version@, g.kind@, ns@, name@),
                probe,
                step@,
                match pending {
                    Some(p) => Some(p@),
                    None => None,
                },
            ),
        ),
{
    append_op(ops, Op::Check { target: target(g, Some(ns), name), probe, step, pending });
}

fn add_keycloak(ops: &mut Vec<Op>, pi: &PlatformInstance, sso: &KeycloakSsoSpec, owner: &Json)
    ensures
        ops_view(final(ops)@) == ops_view(old(ops)@) + keycloak_ops(*pi, *sso, owner@),
{
    let ns = pi.spec.namespace.as_str();
    let uid = match &pi.metadata.uid {
        Some(u) => u.clone(),
        None => String::new(),
    };
    add_dynamic(ops, keycloak_pg::gvk(), ns, keycloak_pg::CLUSTER_NAME, keycloak_pg::build(pi, owner.copy()));
    add_check(
        ops,
        keycloak_pg::gvk(),
        ns,
        keycloak_pg::CLUSTER_NAME,
        Probe::ReadyCondition,
        "KeycloakReady",
        Some("KeycloakPostgresNotReady"),
    );
    add_dynamic(
        ops,
        core_secret_gvk(),
        ns,
        keycloak_bootstrap::NOVA_OIDC_SECRET,
        keycloak_bootstrap::nova_oidc_secret(ns, uid.as_str(), owner),
    );
    add_dynamic(
        ops,
        core_secret_gvk(),
        ns,
        keycloak::ADMIN_SECRET,
        keycloak::admin_secret(ns, uid.as_str(), owner),
    );
    add_dynamic(
        ops,
        flux::helm_repository_gvk(),
        ns,
        keycloak::CODECENTRIC_REPO,
        keycloak::codecentric_repository(ns, owner),
    );
    add_dynamic(ops, flux::helm_release_gvk(), ns, keycloak::RELEASE, keycloak::release(ns, owner));
    add_check(
        ops,
        flux::helm_release_gvk(),
        ns,
        keycloak::RELEASE,
        Probe::ReadyCondition,
        "KeycloakReady",
        Some("KeycloakInstalling"),
    );
    add_typed(
        ops,
        batch_job_gvk(),
        ns,
        keycloak_bootstrap::JOB_NAME,
        keycloak_bootstrap::build(pi, sso, owner.copy()),
    );
    add_check(
        ops,
        batch_job_gvk(),
        ns,
        keycloak_bootstrap::JOB_NAME,
        Probe::JobSucceeded,
        "KeycloakReady",
        Some("RealmBootstrapping"),
    );
    add_dynamic(ops, keycloak::ingress_gvk(), ns, "stardelt-auth", keycloak::auth_ingress(sso, ns, owner));
    append_op(ops, Op::Mark { step: "KeycloakReady", reason: "Ready" });
    assert(ops_view(ops@) =~= ops_view(old(ops)@) + keycloak_ops(*pi, *sso, owner@));
}

fn add_nova(ops: &mut Vec<Op>, pi: &PlatformInstance, owner: &Json)
    ensures
        ops_view(final(ops)@) == ops_view(old(ops)@) + nova_ops(*pi, owner@),
{
    let ns = pi.spec.namespace.as_str();
    add_typed(ops, flux_apps_deployment_gvk(), ns, nova::NAME, nova::deployment(pi, owner.copy()));
    add_typed(ops, core_service_gvk(), ns, nova::NAME, nova::service(pi, owner.copy()));
    add_check(
        ops,
        flux_apps_deployment_gvk(),
        ns,
        nova::NAME,
        Probe::ReplicasAvailable,
        "NovaReady",
        None,
    );
    append_op(ops, Op::Mark { step: "NovaReady", reason: "Ready" });
    assert(ops_view(ops@) =~= ops_view(old(ops)@) + nova_ops(*pi, owner@));
}

fn add_ingress(ops: &mut Vec<Op>, pi: &PlatformInstance, ing: &IngressSpec, owner: &Json)
    ensures
        ops_view(final(ops)@) == ops_view(old(ops)@) + ingress_ops(*pi, *ing, owner@),
{
    let ns = pi.spec.namespace.as_str();
    add_dynamic(ops, flux::helm_repository_gvk(), ns, ingress::JETSTACK_REPO, ingress::jetstack_repository(ns, owner));
    add_dynamic(ops, flux::helm_release_gvk(), ns, "cert-manager", ingress::cert_manager_release(ns, owner));
    add_check(
        ops,
        flux::helm_release_gvk(),
        ns,
        "cert-manager",
        Probe::ReadyCondition,
        "IngressReady",
        Some("CertManagerInstalling"),
    );
    let g = ingress::cluster_issuer_gvk();
    let body = resources::dynamic_body(ingress::cluster_issuer(ing, owner), &g);
    append_op(ops, Op::Apply { target: target(g, None, ingress::CLUSTER_ISSUER_NAME), body });
    add_dynamic(ops, ingress::certificate_gvk(), ns, ingress::CERTIFICATE_NAME, ingress::certificate(ing, ns, owner));
    add_dynamic(
        ops,
        flux_apps_deployment_gvk(),
        ns,
        ingress::OAUTH2_PROXY_NAME,
        ingress::oauth2_proxy_deployment(ing, ns, owner),
    );
    add_dynamic(
        ops,
        core_service_gvk(),
        ns,
        ingress::OAUTH2_PROXY_NAME,
        ingress::oauth2_proxy_service(ns, owner),
    );
    add_dynamic(ops, ingress::middleware_gvk(), ns, ingress::MIDDLEWARE_NAME, ingress::forward_auth_middleware(ns, owner));
    add_dynamic(
        ops,
        ingress::middleware_gvk(),
        ns,
        ingress::ERRORS_MIDDLEWARE_NAME,
        ingress::auth_errors_middleware(ns, owner),
    );
    add_dynamic(
        ops,
        networking_ingress_gvk(),
        ns,
        "stardelt-auth",
        ingress::auth_ingress(ing, ns, owner),
    );
    add_dynamic(
        ops,
        networking_ingress_gvk(),
        ns,
        "stardelt-uis",
        ingress::uis_ingress(ing, ns, owner),
    );
    add_check(
        ops,
        ingress::certificate_gvk(),
        ns,
        ingress::CERTIFICATE_NAME,
        Probe::ReadyCondition,
        "IngressReady",
        Some("CertificateIssuing"),
    );
    append_op(ops, Op::Mark { step: "IngressReady", reason: "Ready" });
    assert(ops_view(ops@) =~= ops_view(old(ops)@) + ingress_ops(*pi, *ing, owner@));
}

/// Plan every operation of a pass over `pi`.
pub fn plan(pi: &PlatformInstance, owner: &Json, values: EmbeddedValues) -> (r: Vec<Op>)
    ensures
        ops_view(r@) == plan_view(*pi, owner@, values),
{
    let ghost ev = values;
    let EmbeddedValues { seaweedfs, lakekeeper, trino, airflow, superset } = values;
    let ns = pi.spec.namespace.as_str();
    let mut ops: Vec<Op> = Vec::new();
    let none: Vec<&str> = Vec::new();
    add_namespace(&mut ops, ns);
    add_repos(&mut ops, ns, owner);
    proof {
        assert(flux::names_view(none@) =~= Seq::<Seq<char>>::empty());
    }
    add_release(&mut ops, pi, Chart::cnpg(), none.as_slice(), owner, Json::object(), "CNPGOperatorReady");
    add_postgres(&mut ops, pi, owner);
    add_release(&mut ops, pi, Chart::seaweedfs(), none.as_slice(), owner, seaweedfs, "SeaweedFSReady");
    add_secret(&mut ops, pi, owner);
    let after_seaweedfs: Vec<&str> = vec!["seaweedfs"];
    let after_lakekeeper: Vec<&str> = vec!["lakekeeper"];
    let after_trino: Vec<&str> = vec!["trino"];
    proof {
        assert(flux::names_view(after_seaweedfs@) =~= seq!["seaweedfs"@]);
        assert(flux::names_view(after_lakekeeper@) =~= seq!["lakekeeper"@]);
        assert(flux::names_view(after_trino@) =~= seq!["trino"@]);
    }
    add_release(&mut ops, pi, Chart::lakekeeper(), after_seaweedfs.as_slice(), owner, lakekeeper, "LakekeeperReady");
    add_warehouse(&mut ops, pi, owner);
    add_release(&mut ops, pi, Chart::trino(), after_lakekeeper.as_slice(), owner, trino, "TrinoReady");
    let ghost before_optional = ops_view(ops@);
    if pi.spec.components.airflow_enabled {
        add_release(&mut ops, pi, Chart::airflow(), after_lakekeeper.as_slice(), owner, airflow, "AirflowReady");
    }
    let ghost after_airflow = ops_view(ops@);
    if pi.spec.components.superset_enabled {
        add_release(&mut ops, pi, Chart::superset(), after_trino.as_slice(), owner, superset, "SupersetReady");
    }
    let ghost after_superset = ops_view(ops@);
    match &pi.spec.sso {
        Some(sso) => add_keycloak(&mut ops, pi, sso, owner),
        None => {},
    }
    let ghost after_keycloak = ops_view(ops@);
    add_nova(&mut ops, pi, owner);
    let ghost after_nova = ops_view(ops@);
    match &pi.spec.ingress {
        Some(ing) => add_ingress(&mut ops, pi, ing, owner),
        None => {},
    }
    proof {
        assert(after_airflow =~= before_optional + airflow_part(*pi, owner@, ev));
        assert(after_superset =~= after_airflow + superset_part(*pi, owner@, ev));
        assert(after_keycloak =~= after_superset + keycloak_part(*pi, owner@));
        assert(ops_view(ops@) =~= after_nova + ingress_part(*pi, owner@));
        reveal(plan_view);
        assert(ops_view(ops@) =~= plan_view(*pi, owner@, ev));
    }
    ops
}

/// A pass begins by applying the target namespace.
pub proof fn lemma_plan_head(pi: PlatformInstance, owner: JsonView, ev: EmbeddedValues)
    ensures
        plan_view(pi, owner, ev).len() > 0,
        plan_view(pi, owner, ev)[0] == namespace_ops(pi.spec.namespace@)[0],
        plan_view(pi, owner, ev)[0] is Apply,
{
    reveal(plan_view);
}

/// The conditions after recording `step` with `ready`/`reason` at `now`.
pub open spec fn record_view(
    cs: Seq<ConditionView>,
    step: Seq<char>,
    ready: bool,
    reason: Seq<char>,
    now: Seq<char>,
) -> Seq<ConditionView> {
    readiness::upserted(cs, readiness::condition_view(step, ready, reason, step + ": "@ + reason, now))
}

/// Record a step's condition stamped with `now`; the message is
/// `<type>: <reason>`.
pub fn record_at(conditions: &mut Vec<Condition>, type_: &str, ready: bool, reason: &str, now: &str)
    ensures
        readiness::conditions_view(final(conditions)@) == record_view(
            readiness::conditions_view(old(conditions)@),
            type_@,
            ready,
            reason@,
            now@,
        ),
{
    let message = json::cat3(type_, ": ", reason);
    readiness::upsert(conditions, readiness::condition_at(type_, ready, reason, message, now.to_string()));
}

/// Record a step's condition stamped with the current time.
pub fn record(conditions: &mut Vec<Condition>, type_: &str, ready: bool, reason: &str)
    ensures
        exists|now: Seq<char>|
            readiness::conditions_view(final(conditions)@) == record_view(
                readiness::conditions_view(old(conditions)@),
                type_@,
                ready,
                reason@,
                now,
            ),
{
    let message = json::cat3(type_, ": ", reason);
    let c = readiness::condition(type_, ready, reason, message);
    let ghost cs = readiness::conditions_view(conditions@);
    readiness::upsert(conditions, c);
    assert(c@ == readiness::condition_view(type_@, ready, reason@, message@, c@.last_transition_time));
    assert(readiness::conditions_view(conditions@) == record_view(cs, type_@, ready, reason@, c@.last_transition_time));
}

/// The type of the first condition at or after `i` that is `False` and is
/// not the top-level `Ready` (which only summarizes the steps), if any.
pub open spec fn pending_from(cs: Seq<ConditionView>, i: int) -> Option<Seq<char>>
    decreases cs.len() - i,
{
    if i < 0 || i >= cs.len() {
        None
    } else if cs[i].status == "False"@ && cs[i].type_ != "Ready"@ {
        Some(cs[i].type_)
    } else {
        pending_from(cs, i + 1)
    }
}

/// The phase summary: `Ready`, or `Reconciling: <pending step>`, the
/// pending step being the first `False` step condition
/// (`Reconciling: Reconciling` when there is none).
pub open spec fn phase_view(cs: Seq<ConditionView>, all_ready: bool) -> Seq<char> {
    if all_ready {
        "Ready"@
    } else {
        "Reconciling: "@ + match pending_from(cs, 0) {
            Some(t) => t,
            None => "Reconciling"@,
        }
    }
}

/// The conditions of a finished pass: the top-level `Ready` upserted.
pub open spec fn finished_conditions(cs: Seq<ConditionView>, all_ready: bool, now: Seq<char>) -> Seq<ConditionView> {
    readiness::upserted(
        cs,
        readiness::condition_view(
            "Ready"@,
            all_ready,
            if all_ready {
                "AllComponentsReady"@
            } else {
                "Progressing"@
            },
            phase_view(cs, all_ready),
            now,
        ),
    )
}

/// A condition as it appears in `status.conditions`.
pub open spec fn condition_doc(c: ConditionView) -> JsonView {
    json::jobj().with("type"@, json::jstr(c.type_)).with("status"@, json::jstr(c.status)).with(
        "reason"@,
        json::jstr(c.reason),
    ).with("message"@, json::jstr(c.message)).with(
        "lastTransitionTime"@,
        json::jstr(c.last_transition_time),
    )
}

pub open spec fn conditions_doc(cs: Seq<ConditionView>) -> JsonView
    decreases cs.len(),
{
    if cs.len() == 0 {
        json::jarr()
    } else {
        conditions_doc(cs.drop_last()).push(condition_doc(cs.last()))
    }
}

/// The status patch of a finished pass.
pub open spec fn status_patch_doc(
    phase: Seq<char>,
    all_ready: bool,
    generation: i64,
    cs: Seq<ConditionView>,
) -> JsonView {
    json::jobj().with("apiVersion"@, json::jstr(API_VERSION@)).with("kind"@, json::jstr(KIND@)).with(
        "status"@,
        json::jobj().with("phase"@, json::jstr(phase)).with(
            "ready"@,
            json::jstr(readiness::status_text(all_ready)),
        ).with("observedGeneration"@, json::jint(generation as int)).with(
            "conditions"@,
            conditions_doc(cs),
        ),
    )
}

fn condition_json(c: &Condition) -> (r: Json)
    ensures
        r@ == condition_doc(c@),
{
    Json::object().with("type", Json::string(c.type_.clone())).with(
        "status",
        Json::string(c.status.clone()),
    ).with("reason", Json::string(c.reason.clone())).with(
        "message",
        Json::string(c.message.clone()),
    ).with("lastTransitionTime", Json::string(c.last_transition_time.clone()))
}

fn conditions_json(cs: &Vec<Condition>) -> (r: Json)
    ensures
        r@ == conditions_doc(readiness::conditions_view(cs@)),
{
    let ghost cv = readiness::conditions_view(cs@);
    let mut out = Json::array();
    let mut i: usize = 0;
    while i < cs.len()
        invariant
            i <= cs@.len(),
            cv == readiness::conditions_view(cs@),
            out@ == conditions_doc(cv.take(i as int)),
        decreases cs.len() - i,
    {
        out = out.push(condition_json(&cs[i]));
        assert(cv.take(i + 1).drop_last() =~= cv.take(i as int));
        i = i + 1;
    }
    assert(cv.take(cs@.len() as int) =~= cv);
    out
}

fn phase(cs: &Vec<Condition>, all_ready: bool) -> (r: String)
    ensures
        r@ == phase_view(readiness::conditions_view(cs@), all_ready),
{
    if all_ready {
        return "Ready".to_string();
    }
    proof {
        reveal_strlit("Reconciling: Reconciling");
        reveal_strlit("Reconciling: ");
        reveal_strlit("Reconciling");
    }
    let ghost cv = readiness::conditions_view(cs@);
    let f = "False".to_string();
    let ready = "Ready".to_string();
    let mut i: usize = 0;
    while i < cs.len()
        invariant
            i <= cs@.len(),
            cv == readiness::conditions_view(cs@),
            f@ == "False"@,
            ready@ == "Ready"@,
            !all_ready,
            pending_from(cv, i as int) == pending_from(cv, 0),
        decreases cs.len() - i,
    {
        assert(cv[i as int] == cs@[i as int]@);
        if cs[i].status == f && cs[i].type_ != ready {
            assert(cv.len() == cs@.len());
            assert(pending_from(cv, i as int) == Some(cv[i as int].type_));
            return json::cat("Reconciling: ", cs[i].type_.as_str());
        }
        i = i + 1;
    }
    "Reconciling: Reconciling".to_string()
}

/// Finish a pass: upsert the top-level `Ready` condition and build the
/// status patch (phase, ready flag, observed generation, conditions).
pub fn finish(conditions: &mut Vec<Condition>, all_ready: bool, generation: i64, now: &str) -> (r: Json)
    ensures
        readiness::conditions_view(final(conditions)@) == finished_conditions(
            readiness::conditions_view(old(conditions)@),
            all_ready,
            now@,
        ),
        r@ == status_patch_doc(
            phase_view(readiness::conditions_view(old(conditions)@), all_ready),
            all_ready,
            generation,
            readiness::conditions_view(final(conditions)@),
        ),
{
    proof {
        reveal_strlit("Reconciling: Reconciling");
        reveal_strlit("Reconciling: ");
        reveal_strlit("Reconciling");
    }
    let ph = phase(conditions, all_ready);
    let c = readiness::condition_at(
        "Ready",
        all_ready,
        if all_ready {
            "AllComponentsReady"
        } else {
            "Progressing"
        },
        ph.clone(),
        now.to_string(),
    );
    readiness::upsert(conditions, c);
    let status = Json::object().with("phase", Json::string(ph)).with(
        "ready",
        Json::text(
            if all_ready {
                "True"
            } else {
                "False"
            },
        ),
    ).with("observedGeneration", Json::integer(generation)).with(
        "conditions",
        conditions_json(conditions),
    );
    Json::object().with("apiVersion", Json::text(API_VERSION)).with("kind", Json::text(KIND)).with(
        "status",
        status,
    )
}

/// The requeue interval: resync once ready, poll while waiting.
pub open spec fn requeue_view(all_ready: bool, resync_secs: u64, poll_secs: u64) -> u64 {
    if all_ready {
        resync_secs
    } else {
        poll_secs
    }
}

/// First position at or after `i` that is not a `Mark`.
pub open spec fn settle_next(ops: Seq<OpView>, i: int) -> int
    decreases ops.len() - i,
{
    if 0 <= i < ops.len() && ops[i] is Mark {
        settle_next(ops, i + 1)
    } else {
        i
    }
}

/// The conditions after recording every `Mark` from `i` on, up to the next
/// non-`Mark` operation.
pub open spec fn settle_conditions(ops: Seq<OpView>, i: int, cs: Seq<ConditionView>, now: Seq<char>) -> Seq<ConditionView>
    decreases ops.len() - i,
{
    if 0 <= i < ops.len() && ops[i] is Mark {
        settle_conditions(ops, i + 1, record_view(cs, ops[i]->Mark_step, true, ops[i]->Mark_reason, now), now)
    } else {
        cs
    }
}

pub proof fn lemma_settle_next(ops: Seq<OpView>, i: int)
    requires
        0 <= i <= ops.len(),
    ensures
        i <= settle_next(ops, i) <= ops.len(),
        settle_next(ops, i) < ops.len() ==> !(ops[settle_next(ops, i)] is Mark),
        forall|j: int| i <= j < settle_next(ops, i) ==> #[trigger] ops[j] is Mark,
    decreases ops.len() - i,
{
    if i < ops.len() && ops[i] is Mark {
        lemma_settle_next(ops, i + 1);
    }
}

/// Recording marks keeps every `True` entry and makes each recorded step
/// `True`; it also keeps condition types unique.
pub proof fn lemma_settle_conditions(ops: Seq<OpView>, i: int, cs: Seq<ConditionView>, now: Seq<char>)
    requires
        0 <= i <= ops.len(),
    ensures
        forall|t: Seq<char>|
            readiness::has_true(cs, t) ==> readiness::has_true(
                #[trigger] settle_conditions(ops, i, cs, now),
                t,
            ),
        forall|j: int|
            i <= j < settle_next(ops, i) ==> readiness::has_true(
                settle_conditions(ops, i, cs, now),
                (#[trigger] ops[j])->Mark_step,
            ),
        readiness::unique_types(cs) ==> readiness::unique_types(settle_conditions(ops, i, cs, now)),
    decreases ops.len() - i,
{
    lemma_settle_next(ops, i);
    if i < ops.len() && ops[i] is Mark {
        let step = ops[i]->Mark_step;
        let c = readiness::condition_view(step, true, ops[i]->Mark_reason, step + ": "@ + ops[i]->Mark_reason, now);
        let cs1 = record_view(cs, step, true, ops[i]->Mark_reason, now);
        lemma_settle_conditions(ops, i + 1, cs1, now);
        assert forall|t: Seq<char>| readiness::has_true(cs, t) implies readiness::has_true(
            #[trigger] settle_conditions(ops, i, cs, now),
            t,
        ) by {
            readiness::lemma_upsert_has_true(cs, c, t);
            if t == step {
                readiness::lemma_upsert_has_true(cs, c, step);
            }
        }
        readiness::lemma_upsert_has_true(cs, c, step);
        if readiness::unique_types(cs) {
            readiness::lemma_upsert_unique(cs, c);
        }
    }
}

/// Finishing keeps every `True` entry other than `Ready`, and unique types.
pub proof fn lemma_finished_conditions(cs: Seq<ConditionView>, all_ready: bool, now: Seq<char>)
    ensures
        forall|t: Seq<char>|
            (all_ready || t != "Ready"@) && readiness::has_true(cs, t) ==> readiness::has_true(
                #[trigger] finished_conditions(cs, all_ready, now),
                t,
            ),
        readiness::unique_types(cs) ==> readiness::unique_types(finished_conditions(cs, all_ready, now)),
{
    let c = readiness::condition_view(
        "Ready"@,
        all_ready,
        if all_ready {
            "AllComponentsReady"@
        } else {
            "Progressing"@
        },
        phase_view(cs, all_ready),
        now,
    );
    assert forall|t: Seq<char>|
        (all_ready || t != "Ready"@) && readiness::has_true(cs, t) implies readiness::has_true(
        #[trigger] finished_conditions(cs, all_ready, now),
        t,
    ) by {
        readiness::lemma_upsert_has_true(cs, c, t);
    }
    if readiness::unique_types(cs) {
        readiness::lemma_upsert_unique(cs, c);
    }
}

/// The step an operation records, if any.
pub open spec fn op_step(op: OpView) -> Option<Seq<char>> {
    match op {
        OpView::Check { step, .. } => Some(step),
        OpView::Mark { step, .. } => Some(step),
        OpView::Apply { .. } => None,
    }
}

/// No operation records the top-level `Ready`, and no operation after a
/// mark records that mark's step again.
pub open spec fn steps_once(ops: Seq<OpView>) -> bool {
    &&& forall|i: int| 0 <= i < ops.len() ==> op_step(#[trigger] ops[i]) != Some("Ready"@)
    &&& forall|i: int, j: int|
        0 <= i < j < ops.len() && (#[trigger] ops[i]) is Mark ==> op_step(#[trigger] ops[j]) != Some(
            ops[i]->Mark_step,
        )
}

/// The rest of a pass from operation `k` (not a mark) with conditions `cs`,
/// where the check at each position `i` observed `obs[i]` and the pass was
/// advanced past position `i` at time `times[i]`: whether it ends ready, the
/// conditions before the top-level `Ready` is recorded, and the time it
/// ended.
pub open spec fn run_from(
    ops: Seq<OpView>,
    k: int,
    cs: Seq<ConditionView>,
    obs: Seq<Option<JsonView>>,
    times: Seq<Seq<char>>,
) -> (bool, Seq<ConditionView>, Seq<char>)
    decreases ops.len() - k,
{
    if 0 <= k < ops.len() {
        match check_reason(ops[k], obs[k]) {
            Some(r) => (false, record_view(cs, ops[k]->Check_step, false, r, times[k]), times[k]),
            None => {
                let k2 = settle_next(ops, k + 1);
                let cs2 = settle_conditions(ops, k + 1, cs, times[k]);
                if k < k2 < ops.len() {
                    run_from(ops, k2, cs2, obs, times)
                } else {
                    (true, cs2, times[k])
                }
            },
        }
    } else {
        (true, cs, Seq::empty())
    }
}

/// Whether a whole pass ends ready.
pub open spec fn pass_ready(
    ops: Seq<OpView>,
    cs: Seq<ConditionView>,
    obs: Seq<Option<JsonView>>,
    times: Seq<Seq<char>>,
) -> bool {
    run_from(ops, 0, cs, obs, times).0
}

/// The conditions a whole pass writes.
pub open spec fn pass_conditions(
    ops: Seq<OpView>,
    cs: Seq<ConditionView>,
    obs: Seq<Option<JsonView>>,
    times: Seq<Seq<char>>,
) -> Seq<ConditionView> {
    let (ready, c, t) = run_from(ops, 0, cs, obs, times);
    finished_conditions(c, ready, t)
}

/// The status patch a whole pass writes.
pub open spec fn pass_status(
    ops: Seq<OpView>,
    cs: Seq<ConditionView>,
    obs: Seq<Option<JsonView>>,
    times: Seq<Seq<char>>,
    generation: i64,
) -> JsonView {
    let (ready, c, t) = run_from(ops, 0, cs, obs, times);
    status_patch_doc(phase_view(c, ready), ready, generation, finished_conditions(c, ready, t))
}

/// `a` and `b` agree below `n`.
pub open spec fn agree_below<A>(a: Seq<A>, b: Seq<A>, n: int) -> bool {
    forall|i: int| 0 <= i < n ==> #[trigger] a[i] == b[i]
}

/// The condition a step records, up to its time.
pub open spec fn step_condition(step: Seq<char>, ready: bool, reason: Seq<char>) -> ConditionView {
    readiness::condition_view(step, ready, reason, step + ": "@ + reason, Seq::empty())
}

/// `cs` already carries `c` up to its time: the first entry of `c`'s type
/// has `c`'s status, reason and message.
pub open spec fn carries(cs: Seq<ConditionView>, c: ConditionView) -> bool {
    let p = readiness::type_pos(cs, c.type_);
    &&& 0 <= p < cs.len()
    &&& cs[p].status == c.status
    &&& cs[p].reason == c.reason
    &&& cs[p].message == c.message
}

/// `cs` carries every mark from `i` up to the next non-mark.
pub open spec fn carries_marks(ops: Seq<OpView>, i: int, cs: Seq<ConditionView>) -> bool
    decreases ops.len() - i,
{
    if 0 <= i < ops.len() && ops[i] is Mark {
        &&& carries(cs, step_condition(ops[i]->Mark_step, true, ops[i]->Mark_reason))
        &&& carries_marks(ops, i + 1, cs)
    } else {
        true
    }
}

/// `cs` carries every condition the rest of a pass from `k` records.
pub open spec fn carries_run(ops: Seq<OpView>, k: int, cs: Seq<ConditionView>, obs: Seq<Option<JsonView>>) -> bool
    decreases ops.len() - k,
{
    if 0 <= k < ops.len() {
        match check_reason(ops[k], obs[k]) {
            Some(r) => carries(cs, step_condition(ops[k]->Check_step, false, r)),
            None => {
                let k2 = settle_next(ops, k + 1);
                &&& carries_marks(ops, k + 1, cs)
                &&& (k < k2 < ops.len() ==> carries_run(ops, k2, cs, obs))
            },
        }
    } else {
        true
    }
}

proof fn lemma_carries_upsert_same(cs: Seq<ConditionView>, c: ConditionView)
    ensures
        carries(readiness::upserted(cs, c), c),
{
    readiness::lemma_upsert_effect(cs, c);
}

proof fn lemma_carries_upsert_other(cs: Seq<ConditionView>, c: ConditionView, d: ConditionView)
    requires
        carries(cs, d),
        c.type_ != d.type_,
    ensures
        carries(readiness::upserted(cs, c), d),
{
    let r = readiness::upserted(cs, c);
    readiness::lemma_upsert_effect(cs, c);
    readiness::lemma_type_pos_from(cs, d.type_, 0);
    let p = readiness::type_pos(cs, d.type_);
    assert(r[p] == cs[p]);
    assert forall|j: int| 0 <= j < p implies #[trigger] r[j].type_ != d.type_ by {
        if cs[j].type_ != c.type_ {
            assert(r[j] == cs[j]);
        } else {
            readiness::lemma_type_pos_from(cs, c.type_, 0);
        }
    }
    readiness::lemma_type_pos_first(r, d.type_, p);
}

proof fn lemma_carries_noop(cs: Seq<ConditionView>, c: ConditionView)
    requires
        carries(cs, c),
    ensures
        readiness::upserted(cs, c) == cs,
{
    readiness::lemma_type_pos_from(cs, c.type_, 0);
    assert(readiness::upserted(cs, c) =~= cs);
}

proof fn lemma_settle_noop(ops: Seq<OpView>, i: int, cs: Seq<ConditionView>, t: Seq<char>)
    requires
        carries_marks(ops, i, cs),
    ensures
        settle_conditions(ops, i, cs, t) == cs,
    decreases ops.len() - i,
{
    if 0 <= i < ops.len() && ops[i] is Mark {
        let step = ops[i]->Mark_step;
        let reason = ops[i]->Mark_reason;
        lemma_carries_noop(cs, readiness::condition_view(step, true, reason, step + ": "@ + reason, t));
        lemma_settle_noop(ops, i + 1, cs, t);
    }
}

proof fn lemma_run_noop(ops: Seq<OpView>, k: int, cs: Seq<ConditionView>, obs: Seq<Option<JsonView>>, ts: Seq<Seq<char>>)
    requires
        carries_run(ops, k, cs, obs),
    ensures
        run_from(ops, k, cs, obs, ts).1 == cs,
    decreases ops.len() - k,
{
    if 0 <= k < ops.len() {
        match check_reason(ops[k], obs[k]) {
            Some(r) => {
                let step = ops[k]->Check_step;
                lemma_carries_noop(cs, readiness::condition_view(step, false, r, step + ": "@ + r, ts[k]));
            },
            None => {
                let k2 = settle_next(ops, k + 1);
                lemma_settle_noop(ops, k + 1, cs, ts[k]);
                if k < k2 < ops.len() {
                    lemma_run_noop(ops, k2, cs, obs, ts);
                }
            },
        }
    }
}

proof fn lemma_settle_keeps(ops: Seq<OpView>, i: int, cs: Seq<ConditionView>, t: Seq<char>, d: ConditionView)
    requires
        carries(cs, d),
        forall|j: int| i <= j < ops.len() ==> op_step(#[trigger] ops[j]) != Some(d.type_),
    ensures
        carries(settle_conditions(ops, i, cs, t), d),
    decreases ops.len() - i,
{
    if 0 <= i < ops.len() && ops[i] is Mark {
        assert(op_step(ops[i]) != Some(d.type_));
        let step = ops[i]->Mark_step;
        let reason = ops[i]->Mark_reason;
        let c = readiness::condition_view(step, true, reason, step + ": "@ + reason, t);
        lemma_carries_upsert_other(cs, c, d);
        lemma_settle_keeps(ops, i + 1, readiness::upserted(cs, c), t, d);
    }
}

proof fn lemma_run_keeps(
    ops: Seq<OpView>,
    k: int,
    cs: Seq<ConditionView>,
    obs: Seq<Option<JsonView>>,
    ts: Seq<Seq<char>>,
    d: ConditionView,
)
    requires
        0 <= k,
        carries(cs, d),
        forall|j: int| k <= j < ops.len() ==> op_step(#[trigger] ops[j]) != Some(d.type_),
    ensures
        carries(run_from(ops, k, cs, obs, ts).1, d),
    decreases ops.len() - k,
{
    if 0 <= k < ops.len() {
        match check_reason(ops[k], obs[k]) {
            Some(r) => {
                assert(op_step(ops[k]) != Some(d.type_));
                let step = ops[k]->Check_step;
                lemma_carries_upsert_other(cs, readiness::condition_view(step, false, r, step + ": "@ + r, ts[k]), d);
            },
            None => {
                let k2 = settle_next(ops, k + 1);
                lemma_settle_keeps(ops, k + 1, cs, ts[k], d);
                if k < k2 < ops.len() {
                    lemma_run_keeps(ops, k2, settle_conditions(ops, k + 1, cs, ts[k]), obs, ts, d);
                }
            },
        }
    }
}

proof fn lemma_settle_establishes(ops: Seq<OpView>, i: int, cs: Seq<ConditionView>, t: Seq<char>)
    requires
        0 <= i,
        steps_once(ops),
    ensures
        carries_marks(ops, i, settle_conditions(ops, i, cs, t)),
    decreases ops.len() - i,
{
    if 0 <= i < ops.len() && ops[i] is Mark {
        let step = ops[i]->Mark_step;
        let reason = ops[i]->Mark_reason;
        let c = readiness::condition_view(step, true, reason, step + ": "@ + reason, t);
        let cs1 = readiness::upserted(cs, c);
        lemma_carries_upsert_same(cs, c);
        assert forall|j: int| i + 1 <= j < ops.len() implies op_step(#[trigger] ops[j]) != Some(step) by {
            assert(ops[i] is Mark);
        }
        lemma_settle_keeps(ops, i + 1, cs1, t, step_condition(step, true, reason));
        lemma_settle_establishes(ops, i + 1, cs1, t);
    }
}

proof fn lemma_run_keeps_marks(
    ops: Seq<OpView>,
    i: int,
    k: int,
    cs: Seq<ConditionView>,
    obs: Seq<Option<JsonView>>,
    ts: Seq<Seq<char>>,
)
    requires
        0 <= i,
        settle_next(ops, i) <= k,
        steps_once(ops),
        carries_marks(ops, i, cs),
    ensures
        carries_marks(ops, i, run_from(ops, k, cs, obs, ts).1),
    decreases ops.len() - i,
{
    if 0 <= i < ops.len() && ops[i] is Mark {
        let step = ops[i]->Mark_step;
        lemma_settle_next(ops, i + 1);
        assert(i < k);
        assert forall|j: int| k <= j < ops.len() implies op_step(#[trigger] ops[j]) != Some(step) by {
            assert(ops[i] is Mark);
        }
        lemma_run_keeps(ops, k, cs, obs, ts, step_condition(step, true, ops[i]->Mark_reason));
        lemma_run_keeps_marks(ops, i + 1, k, cs, obs, ts);
    }
}

proof fn lemma_run_establishes(ops: Seq<OpView>, k: int, cs: Seq<ConditionView>, obs: Seq<Option<JsonView>>, ts: Seq<Seq<char>>)
    requires
        0 <= k,
        steps_once(ops),
    ensures
        carries_run(ops, k, run_from(ops, k, cs, obs, ts).1, obs),
    decreases ops.len() - k,
{
    if 0 <= k < ops.len() {
        match check_reason(ops[k], obs[k]) {
            Some(r) => {
                let step = ops[k]->Check_step;
                lemma_carries_upsert_same(cs, readiness::condition_view(step, false, r, step + ": "@ + r, ts[k]));
            },
            None => {
                let k2 = settle_next(ops, k + 1);
                let cs2 = settle_conditions(ops, k + 1, cs, ts[k]);
                lemma_settle_establishes(ops, k + 1, cs, ts[k]);
                if k < k2 < ops.len() {
                    lemma_run_establishes(ops, k2, cs2, obs, ts);
                    lemma_run_keeps_marks(ops, k + 1, k2, cs2, obs, ts);
                }
            },
        }
    }
}

proof fn lemma_marks_carried_after_upsert(ops: Seq<OpView>, i: int, cs: Seq<ConditionView>, c: ConditionView)
    requires
        0 <= i,
        carries_marks(ops, i, cs),
        forall|j: int| i <= j < ops.len() ==> op_step(#[trigger] ops[j]) != Some(c.type_),
    ensures
        carries_marks(ops, i, readiness::upserted(cs, c)),
    decreases ops.len() - i,
{
    if 0 <= i < ops.len() && ops[i] is Mark {
        assert(op_step(ops[i]) != Some(c.type_));
        lemma_carries_upsert_other(cs, c, step_condition(ops[i]->Mark_step, true, ops[i]->Mark_reason));
        lemma_marks_carried_after_upsert(ops, i + 1, cs, c);
    }
}

proof fn lemma_run_carried_after_upsert(ops: Seq<OpView>, k: int, cs: Seq<ConditionView>, obs: Seq<Option<JsonView>>, c: ConditionView)
    requires
        0 <= k,
        carries_run(ops, k, cs, obs),
        forall|j: int| k <= j < ops.len() ==> op_step(#[trigger] ops[j]) != Some(c.type_),
    ensures
        carries_run(ops, k, readiness::upserted(cs, c), obs),
    decreases ops.len() - k,
{
    if 0 <= k < ops.len() {
        match check_reason(ops[k], obs[k]) {
            Some(r) => {
                assert(op_step(ops[k]) != Some(c.type_));
                lemma_carries_upsert_other(cs, c, step_condition(ops[k]->Check_step, false, r));
            },
            None => {
                let k2 = settle_next(ops, k + 1);
                lemma_marks_carried_after_upsert(ops, k + 1, cs, c);
                if k < k2 < ops.len() {
                    lemma_run_carried_after_upsert(ops, k2, cs, obs, c);
                }
            },
        }
    }
}

proof fn lemma_run_ready_same(
    ops: Seq<OpView>,
    k: int,
    cs1: Seq<ConditionView>,
    cs2: Seq<ConditionView>,
    obs: Seq<Option<JsonView>>,
    ts1: Seq<Seq<char>>,
    ts2: Seq<Seq<char>>,
)
    ensures
        run_from(ops, k, cs1, obs, ts1).0 == run_from(ops, k, cs2, obs, ts2).0,
    decreases ops.len() - k,
{
    if 0 <= k < ops.len() {
        match check_reason(ops[k], obs[k]) {
            Some(r) => {},
            None => {
                let k2 = settle_next(ops, k + 1);
                if k < k2 < ops.len() {
                    lemma_run_ready_same(
                        ops,
                        k2,
                        settle_conditions(ops, k + 1, cs1, ts1[k]),
                        settle_conditions(ops, k + 1, cs2, ts2[k]),
                        obs,
                        ts1,
                        ts2,
                    );
                }
            },
        }
    }
}

/// Upserting the top-level `Ready` does not change which step is pending.
proof fn lemma_pending_after_ready(cs: Seq<ConditionView>, c: ConditionView, i: int)
    requires
        c.type_ == "Ready"@,
        0 <= i,
    ensures
        pending_from(readiness::upserted(cs, c), i) == pending_from(cs, i),
    decreases readiness::upserted(cs, c).len() - i,
{
    let r = readiness::upserted(cs, c);
    readiness::lemma_upsert_effect(cs, c);
    if i < r.len() {
        lemma_pending_after_ready(cs, c, i + 1);
        if i < cs.len() && cs[i].type_ != c.type_ {
            assert(r[i] == cs[i]);
        }
    }
}

/// Status stability: a pass over an unchanged cluster (the same observed
/// objects) that starts from the conditions an earlier pass wrote writes
/// exactly the same conditions and status patch again, whatever the clock
/// says: every condition it records keeps its status, and so its
/// `lastTransitionTime`. The status patch therefore does not trigger
/// another reconcile.
pub proof fn lemma_pass_status_stable(
    ops: Seq<OpView>,
    cs0: Seq<ConditionView>,
    obs: Seq<Option<JsonView>>,
    times1: Seq<Seq<char>>,
    times2: Seq<Seq<char>>,
    generation: i64,
)
    requires
        steps_once(ops),
    ensures
        ({
            let written = pass_conditions(ops, cs0, obs, times1);
            &&& pass_ready(ops, written, obs, times2) == pass_ready(ops, cs0, obs, times1)
            &&& pass_conditions(ops, written, obs, times2) == written
            &&& pass_status(ops, written, obs, times2, generation) == pass_status(ops, cs0, obs, times1, generation)
        }),
{
    let (r1, c1, t1) = run_from(ops, 0, cs0, obs, times1);
    let ready_c = readiness::condition_view(
        "Ready"@,
        r1,
        if r1 {
            "AllComponentsReady"@
        } else {
            "Progressing"@
        },
        phase_view(c1, r1),
        t1,
    );
    let f1 = readiness::upserted(c1, ready_c);
    assert(f1 == finished_conditions(c1, r1, t1));
    lemma_run_establishes(ops, 0, cs0, obs, times1);
    assert forall|j: int| 0 <= j < ops.len() implies op_step(#[trigger] ops[j]) != Some(ready_c.type_) by {}
    lemma_run_carried_after_upsert(ops, 0, c1, obs, ready_c);
    lemma_run_noop(ops, 0, f1, obs, times2);
    lemma_run_ready_same(ops, 0, cs0, f1, obs, times1, times2);
    let (r2, c2, t2) = run_from(ops, 0, f1, obs, times2);
    assert(r2 == r1 && c2 == f1);
    lemma_pending_after_ready(c1, ready_c, 0);
    assert(phase_view(f1, r1) == phase_view(c1, r1));
    lemma_carries_upsert_same(c1, ready_c);
    let ready_c2 = readiness::condition_view(
        "Ready"@,
        r1,
        if r1 {
            "AllComponentsReady"@
        } else {
            "Progressing"@
        },
        phase_view(f1, r1),
        t2,
    );
    lemma_carries_noop(f1, ready_c2);
    assert(finished_conditions(c2, r2, t2) == f1);
}

/// Every step `ops` records is one of `names`.
pub open spec fn steps_within(ops: Seq<OpView>, names: Set<Seq<char>>) -> bool {
    forall|i: int|
        0 <= i < ops.len() ==> match op_step(#[trigger] ops[i]) {
            Some(n) => names.contains(n),
            None => true,
        }
}

/// The operations of one step `n`: whatever records a step records `n`,
/// and only the last operation may be a mark.
pub open spec fn step_part(ops: Seq<OpView>, n: Seq<char>) -> bool {
    &&& forall|i: int| 0 <= i < ops.len() && (#[trigger] op_step(ops[i])) is Some ==> op_step(ops[i]) == Some(n)
    &&& forall|i: int| 0 <= i < ops.len() - 1 ==> !((#[trigger] ops[i]) is Mark)
}

proof fn lemma_step_part(ops: Seq<OpView>, n: Seq<char>)
    requires
        step_part(ops, n),
        n != "Ready"@,
    ensures
        steps_once(ops),
        steps_within(ops, set![n]),
{
    assert forall|i: int| 0 <= i < ops.len() implies op_step(#[trigger] ops[i]) != Some("Ready"@) by {
        if op_step(ops[i]) is Some {
            assert(op_step(ops[i]) == Some(n));
        }
    }
    assert forall|i: int, j: int| 0 <= i < j < ops.len() && (#[trigger] ops[i]) is Mark implies op_step(
        #[trigger] ops[j],
    ) != Some(ops[i]->Mark_step) by {
        assert(!(ops[i] is Mark));
    }
    assert forall|i: int| 0 <= i < ops.len() implies match op_step(#[trigger] ops[i]) {
        Some(m) => set![n].contains(m),
        None => true,
    } by {
        if op_step(ops[i]) is Some {
            assert(op_step(ops[i]) == Some(n));
        }
    }
}

proof fn lemma_steps_concat(a: Seq<OpView>, b: Seq<OpView>, sa: Set<Seq<char>>, sb: Set<Seq<char>>)
    requires
        steps_once(a),
        steps_once(b),
        steps_within(a, sa),
        steps_within(b, sb),
        sa.disjoint(sb),
    ensures
        steps_once(a + b),
        steps_within(a + b, sa + sb),
{
    let c = a + b;
    assert forall|i: int| 0 <= i < c.len() implies op_step(#[trigger] c[i]) != Some("Ready"@) by {
        if i < a.len() {
            assert(c[i] == a[i]);
        } else {
            assert(c[i] == b[i - a.len()]);
        }
    }
    assert forall|i: int, j: int| 0 <= i < j < c.len() && (#[trigger] c[i]) is Mark implies op_step(
        #[trigger] c[j],
    ) != Some(c[i]->Mark_step) by {
        if j < a.len() {
            assert(c[i] == a[i] && c[j] == a[j]);
        } else if i >= a.len() {
            assert(c[i] == b[i - a.len()] && c[j] == b[j - a.len()]);
        } else {
            assert(c[i] == a[i] && c[j] == b[j - a.len()]);
            assert(op_step(a[i]) == Some(a[i]->Mark_step));
            assert(sa.contains(a[i]->Mark_step));
            if op_step(b[j - a.len()]) == Some(a[i]->Mark_step) {
                assert(sb.contains(a[i]->Mark_step));
            }
        }
    }
    assert forall|i: int| 0 <= i < c.len() implies match op_step(#[trigger] c[i]) {
        Some(m) => (sa + sb).contains(m),
        None => true,
    } by {
        if i < a.len() {
            assert(c[i] == a[i]);
        } else {
            assert(c[i] == b[i - a.len()]);
        }
    }
}

/// Adding the part for step `n` to a plan prefix whose steps are `names`.
proof fn lemma_steps_extend(a: Seq<OpView>, names: Set<Seq<char>>, p: Seq<OpView>, n: Seq<char>)
    requires
        steps_once(a),
        steps_within(a, names),
        step_part(p, n),
        n != "Ready"@,
        !names.contains(n),
    ensures
        steps_once(a + p),
        steps_within(a + p, names.insert(n)),
{
    lemma_step_part(p, n);
    assert(names.disjoint(set![n]));
    lemma_steps_concat(a, p, names, set![n]);
    assert(names + set![n] =~= names.insert(n));
}

proof fn lemma_release_part(
    pi: PlatformInstance,
    chart: Chart,
    deps: Seq<Seq<char>>,
    owner: JsonView,
    embedded: JsonView,
    step: Seq<char>,
)
    ensures
        step_part(release_ops(pi, chart, deps, owner, embedded, step), step),
{
    let p = release_ops(pi, chart, deps, owner, embedded, step);
    assert(p.len() == 3);
    assert(!(p[0] is Mark) && !(p[1] is Mark));
    assert(op_step(p[0]) is None && op_step(p[1]) == Some(step) && op_step(p[2]) == Some(step));
}

/// No operation of a pass records the top-level `Ready`, and none records a
/// step that was already marked: a pass records each step at most once.
pub proof fn lemma_plan_steps_once(pi: PlatformInstance, owner: JsonView, ev: EmbeddedValues)
    ensures
        steps_once(plan_view(pi, owner, ev)),
{
    reveal(plan_view);
    reveal_strlit("Ready");
    reveal_strlit("HelmReposReady");
    reveal_strlit("CNPGOperatorReady");
    reveal_strlit("PostgresReady");
    reveal_strlit("SeaweedFSReady");
    reveal_strlit("S3CredentialsReady");
    reveal_strlit("LakekeeperReady");
    reveal_strlit("WarehouseReady");
    reveal_strlit("TrinoReady");
    reveal_strlit("AirflowReady");
    reveal_strlit("SupersetReady");
    reveal_strlit("KeycloakReady");
    reveal_strlit("NovaReady");
    reveal_strlit("IngressReady");
    let helm = "HelmReposReady"@;
    let cnpg_s = "CNPGOperatorReady"@;
    let pg = "PostgresReady"@;
    let swfs = "SeaweedFSReady"@;
    let s3 = "S3CredentialsReady"@;
    let lk = "LakekeeperReady"@;
    let wh = "WarehouseReady"@;
    let tr = "TrinoReady"@;
    let af = "AirflowReady"@;
    let ss = "SupersetReady"@;
    let kc = "KeycloakReady"@;
    let nv = "NovaReady"@;
    let ig = "IngressReady"@;
    assert("Ready"@.len() == 5);
    assert(helm.len() == 14 && helm[0] == 'H');
    assert(cnpg_s.len() == 17);
    assert(pg.len() == 13 && pg[0] == 'P');
    assert(swfs.len() == 14 && swfs[0] == 'S');
    assert(s3.len() == 18);
    assert(lk.len() == 15);
    assert(wh.len() == 14 && wh[0] == 'W');
    assert(tr.len() == 10);
    assert(af.len() == 12 && af[0] == 'A');
    assert(ss.len() == 13 && ss[0] == 'S');
    assert(kc.len() == 13 && kc[0] == 'K');
    assert(nv.len() == 9);
    assert(ig.len() == 12 && ig[0] == 'I');
    let ns = pi.spec.namespace@;
    let p0 = namespace_ops(ns);
    assert(steps_once(p0)) by {
        assert forall|i: int, j: int| 0 <= i < j < p0.len() && (#[trigger] p0[i]) is Mark implies op_step(
            #[trigger] p0[j],
        ) != Some(p0[i]->Mark_step) by {}
    }
    assert(steps_within(p0, Set::empty())) by {
        assert forall|i: int| 0 <= i < p0.len() implies match op_step(#[trigger] p0[i]) {
            Some(m) => Set::<Seq<char>>::empty().contains(m),
            None => true,
        } by {
            assert(p0[i] is Apply);
        }
    }
    let names0 = Set::<Seq<char>>::empty();
    // The HelmRepositories.
    let p1 = repo_ops(ns, owner);
    assert(step_part(p1, helm)) by {
        assert forall|i: int| 0 <= i < p1.len() && (#[trigger] op_step(p1[i])) is Some implies op_step(p1[i])
            == Some(helm) by {
            if i < 6 {
                assert(p1[i] == repo_apply(ns, owner, i));
            }
        }
        assert forall|i: int| 0 <= i < p1.len() - 1 implies !((#[trigger] p1[i]) is Mark) by {
            assert(p1[i] == repo_apply(ns, owner, i));
        }
    }
    lemma_steps_extend(p0, names0, p1, helm);
    let a1 = p0 + p1;
    let names1 = names0.insert(helm);
    let p2 = release_ops(pi, cnpg_chart(), seq![], owner, json::jobj(), cnpg_s);
    lemma_release_part(pi, cnpg_chart(), seq![], owner, json::jobj(), cnpg_s);
    lemma_steps_extend(a1, names1, p2, cnpg_s);
    let a2 = a1 + p2;
    let names2 = names1.insert(cnpg_s);
    let p3 = postgres_ops(pi, owner);
    assert(step_part(p3, pg)) by {
        assert(p3.len() == 3);
        assert(op_step(p3[0]) is None && op_step(p3[1]) == Some(pg) && op_step(p3[2]) == Some(pg));
    }
    lemma_steps_extend(a2, names2, p3, pg);
    let a3 = a2 + p3;
    let names3 = names2.insert(pg);
    let p4 = release_ops(pi, seaweedfs_chart(), seq![], owner, ev.seaweedfs@, swfs);
    lemma_release_part(pi, seaweedfs_chart(), seq![], owner, ev.seaweedfs@, swfs);
    lemma_steps_extend(a3, names3, p4, swfs);
    let a4 = a3 + p4;
    let names4 = names3.insert(swfs);
    let p5 = secret_ops(pi, owner);
    assert(step_part(p5, s3)) by {
        assert(p5.len() == 2);
        assert(op_step(p5[0]) is None && op_step(p5[1]) == Some(s3));
    }
    lemma_steps_extend(a4, names4, p5, s3);
    let a5 = a4 + p5;
    let names5 = names4.insert(s3);
    let p6 = release_ops(pi, lakekeeper_chart(), seq!["seaweedfs"@], owner, ev.lakekeeper@, lk);
    lemma_release_part(pi, lakekeeper_chart(), seq!["seaweedfs"@], owner, ev.lakekeeper@, lk);
    lemma_steps_extend(a5, names5, p6, lk);
    let a6 = a5 + p6;
    let names6 = names5.insert(lk);
    let p7 = warehouse_ops(pi, owner);
    assert(step_part(p7, wh)) by {
        assert(p7.len() == 3);
        assert(op_step(p7[0]) is None && op_step(p7[1]) == Some(wh) && op_step(p7[2]) == Some(wh));
    }
    lemma_steps_extend(a6, names6, p7, wh);
    let a7 = a6 + p7;
    let names7 = names6.insert(wh);
    let p8 = release_ops(pi, trino_chart(), seq!["lakekeeper"@], owner, ev.trino@, tr);
    lemma_release_part(pi, trino_chart(), seq!["lakekeeper"@], owner, ev.trino@, tr);
    lemma_steps_extend(a7, names7, p8, tr);
    let a8 = a7 + p8;
    let names8 = names7.insert(tr);
    let p9 = airflow_part(pi, owner, ev);
    if pi.spec.components.airflow_enabled {
        lemma_release_part(pi, airflow_chart(), seq!["lakekeeper"@], owner, ev.airflow@, af);
    }
    lemma_steps_extend(a8, names8, p9, af);
    let a9 = a8 + p9;
    let names9 = names8.insert(af);
    let p10 = superset_part(pi, owner, ev);
    if pi.spec.components.superset_enabled {
        lemma_release_part(pi, superset_chart(), seq!["trino"@], owner, ev.superset@, ss);
    }
    lemma_steps_extend(a9, names9, p10, ss);
    let a10 = a9 + p10;
    let names10 = names9.insert(ss);
    let p11 = keycloak_part(pi, owner);
    assert(step_part(p11, kc)) by {
        match pi.spec.sso {
            Some(sso) => {
                assert(p11.len() == 11);
                assert forall|i: int| 0 <= i < p11.len() && (#[trigger] op_step(p11[i])) is Some implies op_step(
                    p11[i],
                ) == Some(kc) by {}
                assert forall|i: int| 0 <= i < p11.len() - 1 implies !((#[trigger] p11[i]) is Mark) by {}
            },
            None => {},
        }
    }
    lemma_steps_extend(a10, names10, p11, kc);
    let a11 = a10 + p11;
    let names11 = names10.insert(kc);
    let p12 = nova_ops(pi, owner);
    assert(step_part(p12, nv)) by {
        assert(p12.len() == 4);
        assert(op_step(p12[0]) is None && op_step(p12[1]) is None);
        assert(op_step(p12[2]) == Some(nv) && op_step(p12[3]) == Some(nv));
    }
    lemma_steps_extend(a11, names11, p12, nv);
    let a12 = a11 + p12;
    let names12 = names11.insert(nv);
    let p13 = ingress_part(pi, owner);
    assert(step_part(p13, ig)) by {
        match pi.spec.ingress {
            Some(ing) => {
                assert(p13.len() == 13);
                assert forall|i: int| 0 <= i < p13.len() && (#[trigger] op_step(p13[i])) is Some implies op_step(
                    p13[i],
                ) == Some(ig) by {}
                assert forall|i: int| 0 <= i < p13.len() - 1 implies !((#[trigger] p13[i]) is Mark) by {}
            },
            None => {},
        }
    }
    lemma_steps_extend(a12, names12, p13, ig);
    assert(plan_view(pi, owner, ev) == a12 + p13);
}

/// Record the marks from `start` on; returns the first non-mark position.
fn settle(ops: &Vec<Op>, start: usize, conditions: &mut Vec<Condition>, now: &str) -> (k: usize)
    requires
        start <= ops@.len(),
    ensures
        k == settle_next(ops_view(ops@), start as int),
        readiness::conditions_view(final(conditions)@) == settle_conditions(
            ops_view(ops@),
            start as int,
            readiness::conditions_view(old(conditions)@),
            now@,
        ),
{
    let ghost ov = ops_view(ops@);
    let ghost target_conds = settle_conditions(ov, start as int, readiness::conditions_view(conditions@), now@);
    let mut i = start;
    while i < ops.len()
        invariant
            start <= i <= ops@.len(),
            ov == ops_view(ops@),
            settle_next(ov, i as int) == settle_next(ov, start as int),
            settle_conditions(ov, i as int, readiness::conditions_view(conditions@), now@) == target_conds,
        ensures
            start <= i <= ops@.len(),
            settle_next(ov, i as int) == settle_next(ov, start as int),
            settle_conditions(ov, i as int, readiness::conditions_view(conditions@), now@) == target_conds,
            i < ops@.len() ==> !(ov[i as int] is Mark),
        decreases ops.len() - i,
    {
        match &ops[i] {
            Op::Mark { step, reason } => {
                assert(ov[i as int] == ops@[i as int]@);
                record_at(conditions, step, true, reason, now);
                i = i + 1;
            },
            _ => {
                assert(ov[i as int] == ops@[i as int]@);
                break;
            },
        }
    }
    assert(settle_next(ov, i as int) == i);
    i
}

/// How a finished pass ended.
pub struct Finish {
    /// Every step was ready.
    pub all_ready: bool,
    /// The status patch to apply.
    pub status: Json,
    /// Seconds until the next pass.
    pub requeue_secs: u64,
}

/// The next thing the caller must do.
pub enum Command {
    /// Server-side apply `body` at `target`, then advance the pass.
    Apply { target: Target, body: Json },
    /// Fetch the object at `target` (or learn that it is absent), then advance
    /// the pass with it.
    Fetch { target: Target },
    /// Apply `body` to the PlatformInstance's status subresource and requeue
    /// after `requeue_secs`; the pass is over.
    PatchStatus { name: String, body: Json, requeue_secs: u64 },
}

/// One reconcile pass over a PlatformInstance.
pub struct Pass {
    name: String,
    generation: i64,
    ops: Vec<Op>,
    next: usize,
    conditions: Vec<Condition>,
    done: Option<Finish>,
    resync_secs: u64,
    poll_secs: u64,
    trace: Ghost<Seq<Option<JsonView>>>,
    start: Ghost<Seq<ConditionView>>,
    times: Ghost<Seq<Seq<char>>>,
}

impl Pass {
    #[verifier::type_invariant]
    spec fn well_formed(self) -> bool {
        let ops = ops_view(self.ops@);
        &&& self.next <= ops.len()
        &&& self.trace@.len() == ops.len()
        &&& self.times@.len() == ops.len()
        &&& self.done is None ==> forall|obs: Seq<Option<JsonView>>, ts: Seq<Seq<char>>|
            agree_below(obs, self.trace@, self.next as int) && agree_below(ts, self.times@, self.next as int)
                ==> #[trigger] run_from(ops, 0, self.start@, obs, ts) == run_from(
                ops,
                self.next as int,
                readiness::conditions_view(self.conditions@),
                obs,
                ts,
            )
        &&& self.done matches Some(f) ==> {
            &&& f.all_ready == pass_ready(ops, self.start@, self.trace@, self.times@)
            &&& readiness::conditions_view(self.conditions@) == pass_conditions(ops, self.start@, self.trace@, self.times@)
            &&& f.status@ == pass_status(ops, self.start@, self.trace@, self.times@, self.generation)
        }
        &&& forall|i: int|
            0 <= i < self.next && (#[trigger] ops[i]) is Check ==> check_reason(
                ops[i],
                self.trace@[i],
            ) is None
        &&& (self.done is None || self.done->0.all_ready) ==> forall|i: int|
            0 <= i < self.next && (#[trigger] ops[i]) is Mark ==> readiness::has_true(
                readiness::conditions_view(self.conditions@),
                ops[i]->Mark_step,
            )
        &&& match self.done {
            None => self.next < ops.len() && !(ops[self.next as int] is Mark),
            Some(f) => if f.all_ready {
                self.next == ops.len()
            } else {
                &&& self.next < ops.len()
                &&& ops[self.next as int] is Check
                &&& check_reason(ops[self.next as int], self.trace@[self.next as int]) is Some
            },
        }
    }

    /// The planned operations.
    pub closed spec fn plan(self) -> Seq<OpView> {
        ops_view(self.ops@)
    }

    /// Position of the current operation.
    pub closed spec fn position(self) -> int {
        self.next as int
    }

    /// The object observed at each executed check.
    pub closed spec fn observed(self) -> Seq<Option<JsonView>> {
        self.trace@
    }

    /// The conditions recorded so far.
    pub closed spec fn conditions(self) -> Seq<ConditionView> {
        readiness::conditions_view(self.conditions@)
    }

    /// `Some((all_ready, status patch, requeue seconds))` once finished.
    pub closed spec fn outcome(self) -> Option<(bool, JsonView, u64)> {
        match self.done {
            Some(f) => Some((f.all_ready, f.status@, f.requeue_secs)),
            None => None,
        }
    }

    /// The conditions the pass started from.
    pub closed spec fn start_conditions(self) -> Seq<ConditionView> {
        self.start@
    }

    /// The time at which the pass was advanced past each position.
    pub closed spec fn times(self) -> Seq<Seq<char>> {
        self.times@
    }

    pub closed spec fn instance_name(self) -> Seq<char> {
        self.name@
    }

    pub closed spec fn generation(self) -> i64 {
        self.generation
    }

    pub closed spec fn resync(self) -> u64 {
        self.resync_secs
    }

    pub closed spec fn poll(self) -> u64 {
        self.poll_secs
    }

    /// The pass over `pi`, positioned at its first operation. Conditions are
    /// seeded from the object's current status so that unchanged statuses
    /// keep their `lastTransitionTime`.
    pub fn start(pi: PlatformInstance, values: EmbeddedValues, resync_secs: u64, poll_secs: u64) -> (r: Pass)
        ensures
            r.plan() == plan_view(pi, owner_doc(pi), values),
            r.position() == 0,
            r.outcome() is None,
            r.conditions() == match pi.status {
                Some(st) => readiness::conditions_view(st.conditions@),
                None => Seq::empty(),
            },
            r.instance_name() == pi.metadata.name@,
            r.generation() == match pi.metadata.generation {
                Some(g) => g,
                None => 0,
            },
            r.resync() == resync_secs,
            r.poll() == poll_secs,
            r.start_conditions() == r.conditions(),
            steps_once(r.plan()),
    {
        let owner = owner_ref(&pi);
        let ops = plan(&pi, &owner, values);
        let ghost ov = ops_view(ops@);
        proof {
            lemma_plan_head(pi, owner@, values);
            lemma_plan_steps_once(pi, owner@, values);
        }
        let generation = match pi.metadata.generation {
            Some(g) => g,
            None => 0,
        };
        let PlatformInstance { metadata, spec: _, status } = pi;
        let conditions = match status {
            Some(st) => st.conditions,
            None => Vec::new(),
        };
        let ghost trace = Seq::new(ov.len(), |i: int| None::<JsonView>);
        let ghost times = Seq::new(ov.len(), |i: int| Seq::<char>::empty());
        let ghost start = readiness::conditions_view(conditions@);
        Pass {
            name: metadata.name,
            generation,
            ops,
            next: 0,
            conditions,
            done: None,
            resync_secs,
            poll_secs,
            trace: Ghost(trace),
            start: Ghost(start),
            times: Ghost(times),
        }
    }

    /// The pass over `pi` with each chart's embedded values substituted for
    /// its namespace and parsed ([`EmbeddedValues::parse`]); `None` when they
    /// do not parse.
    pub fn begin(pi: PlatformInstance, resync_secs: u64, poll_secs: u64) -> (r: Option<Pass>)
        ensures
            r is Some <==> embedded_parse_ok(pi.spec.namespace@),
            r matches Some(p) ==> {
                &&& exists|ev: EmbeddedValues|
                    #[trigger] embedded_parsed(ev, pi.spec.namespace@) && p.plan() == plan_view(
                        pi,
                        owner_doc(pi),
                        ev,
                    )
                &&& p.position() == 0
                &&& p.outcome() is None
                &&& p.conditions() == match pi.status {
                    Some(st) => readiness::conditions_view(st.conditions@),
                    None => Seq::empty(),
                }
                &&& p.start_conditions() == p.conditions()
                &&& p.instance_name() == pi.metadata.name@
                &&& p.generation() == match pi.metadata.generation {
                    Some(g) => g,
                    None => 0,
                }
                &&& p.resync() == resync_secs
                &&& p.poll() == poll_secs
                &&& steps_once(p.plan())
            },
    {
        let ghost gpi = pi;
        match EmbeddedValues::parse(pi.spec.namespace.as_str()) {
            Some(ev) => {
                let ghost gev = ev;
                let p = Pass::start(pi, ev, resync_secs, poll_secs);
                assert(embedded_parsed(gev, gpi.spec.namespace@) && p.plan() == plan_view(gpi, owner_doc(gpi), gev));
                Some(p)
            },
            None => None,
        }
    }

    /// Whether the pass is over.
    pub fn is_finished(&self) -> (r: bool)
        ensures
            r == self.outcome() is Some,
    {
        self.done.is_some()
    }

    /// The next thing to do: the current operation's apply or fetch, or, once
    /// finished, the status patch.
    pub fn command(&self) -> (c: Command)
        ensures
            match self.outcome() {
                Some((all_ready, status, requeue)) => c matches Command::PatchStatus { name, body, requeue_secs }
                    && name@ == self.instance_name() && body@ == status && requeue_secs == requeue,
                None => match self.plan()[self.position()] {
                    OpView::Apply { target, body } => c matches Command::Apply { target: t, body: b }
                        && t@ == target && b@ == body,
                    OpView::Check { target, .. } => c matches Command::Fetch { target: t } && t@ == target,
                    OpView::Mark { .. } => false,
                },
            },
    {
        proof {
            use_type_invariant(self);
        }
        match &self.done {
            Some(f) => Command::PatchStatus {
                name: self.name.clone(),
                body: f.status.copy(),
                requeue_secs: f.requeue_secs,
            },
            None => {
                let op = &self.ops[self.next];
                assert(self.plan()[self.position()] == op@);
                match op {
                    Op::Apply { target, body } => Command::Apply { target: copy_target(target), body: body.copy() },
                    Op::Check { target, .. } => Command::Fetch { target: copy_target(target) },
                    Op::Mark { .. } => {
                        assert(false);
                        Command::Fetch { target: copy_target(&Target { gvk: resources::gvk("", "", ""), namespace: None, name: String::new() }) }
                    },
                }
            },
        }
    }
    /// Advance past the current operation. `observed` is what the fetch of a
    /// check returned (ignored for an apply) and `now` the current time. A
    /// passing check or an apply moves on, recording the step conditions
    /// that follow, and finishes the pass as ready after the last operation;
    /// a failing check records its step `False` with the reason and finishes
    /// the pass as not ready. A finished pass is unchanged.
    pub fn advance(self, observed: Option<Json>, now: &str) -> (r: Pass)
        ensures
            r.plan() == self.plan(),
            r.instance_name() == self.instance_name(),
            r.generation() == self.generation(),
            r.resync() == self.resync(),
            r.poll() == self.poll(),
            r.start_conditions() == self.start_conditions(),
            // A finished pass wrote what the whole pass over the observed
            // objects writes.
            r.outcome() matches Some((ready, status, _)) ==> {
                &&& ready == pass_ready(r.plan(), r.start_conditions(), r.observed(), r.times())
                &&& r.conditions() == pass_conditions(r.plan(), r.start_conditions(), r.observed(), r.times())
                &&& status == pass_status(
                    r.plan(),
                    r.start_conditions(),
                    r.observed(),
                    r.times(),
                    r.generation(),
                )
            },
            self.outcome() is Some ==> r.position() == self.position() && r.conditions()
                == self.conditions() && r.outcome() == self.outcome(),
            self.outcome() is None ==> ({
                let ops = self.plan();
                let k = self.position();
                let reason = check_reason(ops[k], opt_view(observed));
                if reason is None {
                    let k2 = settle_next(ops, k + 1);
                    let cs2 = settle_conditions(ops, k + 1, self.conditions(), now@);
                    &&& r.position() == k2
                    &&& if k2 == ops.len() {
                        &&& r.conditions() == finished_conditions(cs2, true, now@)
                        &&& r.outcome() == Some(
                            (
                                true,
                                status_patch_doc(
                                    phase_view(cs2, true),
                                    true,
                                    self.generation(),
                                    r.conditions(),
                                ),
                                self.resync(),
                            ),
                        )
                    } else {
                        &&& r.conditions() == cs2
                        &&& r.outcome() is None
                    }
                } else {
                    let cs2 = record_view(
                        self.conditions(),
                        ops[k]->Check_step,
                        false,
                        reason->0,
                        now@,
                    );
                    &&& r.position() == k
                    &&& r.conditions() == finished_conditions(cs2, false, now@)
                    &&& r.outcome() == Some(
                        (
                            false,
                            status_patch_doc(phase_view(cs2, false), false, self.generation(), r.conditions()),
                            self.poll(),
                        ),
                    )
                }
            }),
            // A pass only ends ready once every check of the plan has passed.
            r.outcome() matches Some((true, _, _)) ==> forall|i: int|
                0 <= i < r.plan().len() && (#[trigger] r.plan()[i]) is Check ==> check_reason(
                    r.plan()[i],
                    r.observed()[i],
                ) is None,
            // A pass that ends ready has recorded every step it marked as True.
            r.outcome() matches Some((true, _, _)) ==> forall|i: int|
                0 <= i < r.plan().len() && (#[trigger] r.plan()[i]) is Mark ==> readiness::has_true(
                    r.conditions(),
                    r.plan()[i]->Mark_step,
                ),
            // Condition types stay unique.
            readiness::unique_types(self.conditions()) ==> readiness::unique_types(r.conditions()),
            // A pass that ends not ready stopped at a check that failed, and
            // every earlier check passed.
            r.outcome() matches Some((false, _, _)) ==> {
                &&& 0 <= r.position() < r.plan().len()
                &&& r.plan()[r.position()] is Check
                &&& check_reason(r.plan()[r.position()], r.observed()[r.position()]) is Some
                &&& forall|i: int|
                    0 <= i < r.position() && (#[trigger] r.plan()[i]) is Check ==> check_reason(
                        r.plan()[i],
                        r.observed()[i],
                    ) is None
            },
    {
        proof {
            use_type_invariant(&self);
        }
        let Pass {
            name,
            generation,
            ops,
            next,
            mut conditions,
            done,
            resync_secs,
            poll_secs,
            trace,
            start,
            times,
        } = self;
        if done.is_some() {
            let r = Pass {
                name,
                generation,
                ops,
                next,
                conditions,
                done,
                resync_secs,
                poll_secs,
                trace,
                start,
                times,
            };
            proof {
                use_type_invariant(&r);
            }
            return r;
        }
        let ghost ov = ops_view(ops@);
        let ghost obs = opt_view(observed);
        let ghost k = next as int;
        let ghost old_conditions = conditions@;
        assert(ov.len() == ops@.len());
        assert(next < ops.len());
        assert(ov[k] == ops@[k]@);
        let mut passed = true;
        let mut reason: &'static str = "";
        let mut step: &'static str = "";
        let mut new_trace: Ghost<Seq<Option<JsonView>>> = trace;
        match &ops[next] {
            Op::Apply { .. } => {},
            Op::Check { probe, step: st, pending, .. } => {
                let g = probe_gate(*probe, observed);
                match g {
                    Gate::Ready => {},
                    Gate::Pending(r0) => {
                        passed = false;
                        reason = match pending {
                            Some(p) => *p,
                            None => r0,
                        };
                        step = *st;
                    },
                }
                new_trace = Ghost(trace@.update(k, obs));
            },
            Op::Mark { .. } => {
                assert(false);
            },
        }
        let new_times: Ghost<Seq<Seq<char>>> = Ghost(times@.update(k, now@));
        proof {
            assert(new_trace@[k] == obs || ov[k] is Apply);
            assert(check_reason(ov[k], new_trace@[k]) == check_reason(ov[k], obs));
        }
        if passed {
            assert(check_reason(ov[k], obs) is None);
            let k2 = settle(&ops, next + 1, &mut conditions, now);
            proof {
                lemma_settle_next(ov, k + 1);
            }
            let ghost cs2 = readiness::conditions_view(conditions@);
            proof {
                lemma_settle_conditions(ov, k + 1, readiness::conditions_view(old_conditions), now@);
                lemma_finished_conditions(cs2, true, now@);
            }
            let mut fin: Option<Finish> = None;
            if k2 == ops.len() {
                let status = finish(&mut conditions, true, generation, now);
                fin = Some(Finish { all_ready: true, status, requeue_secs: resync_secs });
            }
            assert forall|i: int| 0 <= i < k2 && (#[trigger] ov[i]) is Mark implies readiness::has_true(
                readiness::conditions_view(conditions@),
                ov[i]->Mark_step,
            ) by {
                if i < k {
                    assert(readiness::has_true(readiness::conditions_view(old_conditions), ov[i]->Mark_step));
                }
            }
            assert forall|i: int| 0 <= i < k2 && (#[trigger] ov[i]) is Check implies check_reason(
                ov[i],
                new_trace@[i],
            ) is None by {
                if i < k {
                    assert(new_trace@[i] == trace@[i]);
                } else if i == k {
                } else {
                    assert(ov[i] is Mark);
                }
            }
            proof {
                let cs_old = readiness::conditions_view(old_conditions);
                if k2 < ops.len() {
                    assert forall|o: Seq<Option<JsonView>>, t: Seq<Seq<char>>|
                        agree_below(o, new_trace@, k2 as int) && agree_below(t, new_times@, k2 as int)
                            implies #[trigger] run_from(ov, 0, start@, o, t) == run_from(
                        ov,
                        k2 as int,
                        cs2,
                        o,
                        t,
                    ) by {
                        assert forall|i: int| 0 <= i < k implies #[trigger] o[i] == trace@[i] by {
                            assert(o[i] == new_trace@[i]);
                        }
                        assert forall|i: int| 0 <= i < k implies #[trigger] t[i] == times@[i] by {
                            assert(t[i] == new_times@[i]);
                        }
                        assert(o[k] == new_trace@[k]);
                        assert(t[k] == now@);
                        assert(run_from(ov, 0, start@, o, t) == run_from(ov, k, cs_old, o, t));
                    }
                } else {
                    let o = new_trace@;
                    let t = new_times@;
                    assert forall|i: int| 0 <= i < k implies #[trigger] o[i] == trace@[i] by {}
                    assert forall|i: int| 0 <= i < k implies #[trigger] t[i] == times@[i] by {}
                    assert(run_from(ov, 0, start@, o, t) == run_from(ov, k, cs_old, o, t));
                    assert(run_from(ov, k, cs_old, o, t) == (true, cs2, now@));
                }
            }
            let r = Pass {
                name,
                generation,
                ops,
                next: k2,
                conditions,
                done: fin,
                resync_secs,
                poll_secs,
                trace: new_trace,
                start,
                times: new_times,
            };
            proof {
                use_type_invariant(&r);
            }
            r
        } else {
            assert(check_reason(ov[k], obs) == Some(reason@));
            assert(ov[k]->Check_step == step@);
            record_at(&mut conditions, step, false, reason, now);
            proof {
                if readiness::unique_types(readiness::conditions_view(old_conditions)) {
                    readiness::lemma_upsert_unique(
                        readiness::conditions_view(old_conditions),
                        readiness::condition_view(step@, false, reason@, step@ + ": "@ + reason@, now@),
                    );
                }
                lemma_finished_conditions(readiness::conditions_view(conditions@), false, now@);
            }
            let ghost cs_rec = readiness::conditions_view(conditions@);
            let status = finish(&mut conditions, false, generation, now);
            proof {
                let cs_old = readiness::conditions_view(old_conditions);
                let o = new_trace@;
                let t = new_times@;
                assert forall|i: int| 0 <= i < k implies #[trigger] o[i] == trace@[i] by {}
                assert forall|i: int| 0 <= i < k implies #[trigger] t[i] == times@[i] by {}
                assert(run_from(ov, 0, start@, o, t) == run_from(ov, k, cs_old, o, t));
                assert(run_from(ov, k, cs_old, o, t) == (false, cs_rec, now@));
            }
            let r = Pass {
                name,
                generation,
                ops,
                next,
                conditions,
                done: Some(Finish { all_ready: false, status, requeue_secs: poll_secs }),
                resync_secs,
                poll_secs,
                trace: new_trace,
                start,
                times: new_times,
            };
            proof {
                use_type_invariant(&r);
            }
            r
        }
    }
}

/// The fetched object reports `status.succeeded >= 1` (a finished Job).
pub open spec fn job_succeeded(obs: Option<JsonView>) -> bool {
    match obs {
        Some(o) => match o.get("status"@) {
            Some(st) => match st.get("succeeded"@) {
                Some(JsonView::Int(n)) => n >= 1,
                _ => false,
            },
            None => false,
        },
        None => false,
    }
}

/// A check of the realm bootstrap Job `keycloak-bootstrap` in `namespace`.
pub open spec fn is_realm_check(op: OpView, namespace: Seq<char>) -> bool {
    match op {
        OpView::Check { target, .. } => {
            &&& target.group == "batch"@
            &&& target.kind == "Job"@
            &&& target.namespace == Some(namespace)
            &&& target.name == "keycloak-bootstrap"@
        },
        _ => false,
    }
}

/// With `spec.sso`, a pass checks the realm bootstrap Job, and that check
/// passes exactly when the fetched Job reports `status.succeeded >= 1`
/// (conditions play no part: a Job has no `Ready` condition); when it does
/// not, the pass records `KeycloakReady` with reason `RealmBootstrapping`.
pub proof fn lemma_realm_job_gate(pi: PlatformInstance, owner: JsonView, ev: EmbeddedValues)
    requires
        pi.spec.sso is Some,
    ensures
        ({
            let ops = plan_view(pi, owner, ev);
            exists|i: int|
                0 <= i < ops.len() && #[trigger] is_realm_check(ops[i], pi.spec.namespace@) && ops[i]->Check_step
                    == "KeycloakReady"@ && forall|obs: Option<JsonView>|
                    (#[trigger] check_reason(ops[i], obs) is None <==> job_succeeded(obs)) && (!job_succeeded(obs)
                        ==> check_reason(ops[i], obs) == Some("RealmBootstrapping"@))
        }),
{
    reveal(plan_view);
    let ns = pi.spec.namespace@;
    let sso = pi.spec.sso->0;
    let ops = plan_view(pi, owner, ev);
    let pre = namespace_ops(ns) + repo_ops(ns, owner)
        + release_ops(pi, cnpg_chart(), seq![], owner, json::jobj(), "CNPGOperatorReady"@)
        + postgres_ops(pi, owner)
        + release_ops(pi, seaweedfs_chart(), seq![], owner, ev.seaweedfs@, "SeaweedFSReady"@)
        + secret_ops(pi, owner)
        + release_ops(pi, lakekeeper_chart(), seq!["seaweedfs"@], owner, ev.lakekeeper@, "LakekeeperReady"@)
        + warehouse_ops(pi, owner)
        + release_ops(pi, trino_chart(), seq!["lakekeeper"@], owner, ev.trino@, "TrinoReady"@)
        + airflow_part(pi, owner, ev)
        + superset_part(pi, owner, ev);
    let kc = keycloak_ops(pi, sso, owner);
    let rest = nova_ops(pi, owner) + ingress_part(pi, owner);
    assert(keycloak_part(pi, owner) == kc);
    assert(ops == pre + kc + rest);
    let i: int = pre.len() + 8int;
    assert(kc.len() == 11);
    assert((pre + kc + rest)[i] == kc[8]);
    let op = kc[8];
    assert(op == check_op(
        nt("batch"@, "v1"@, "Job"@, ns, keycloak_bootstrap::JOB_NAME@),
        Probe::JobSucceeded, "KeycloakReady"@,
        Some("RealmBootstrapping"@),
    ));
    assert(is_realm_check(ops[i], ns));
    assert forall|obs: Option<JsonView>|
        (#[trigger] check_reason(ops[i], obs) is None <==> job_succeeded(obs)) && (!job_succeeded(obs)
            ==> check_reason(ops[i], obs) == Some("RealmBootstrapping"@)) by {}
}

/// Every chart a pass releases is sourced from one of the HelmRepositories
/// the pass applies first: each chart's repository is among the repository
/// names (with the HelmRelease's `sourceRef.name` being that repository, see
/// `flux::lemma_helm_release_source`).
pub proof fn lemma_release_repos_applied()
    ensures
        forall|c: Chart|
            #![trigger c.repo]
            c == cnpg_chart() || c == seaweedfs_chart() || c == lakekeeper_chart() || c == trino_chart()
                || c == airflow_chart() || c == superset_chart() ==> exists|i: int|
                0 <= i < flux::repos_view().len() && (#[trigger] flux::repos_view()[i]).0 == c.repo@,
{
    let r = flux::repos_view();
    assert(r[0].0 == cnpg_chart().repo@);
    assert(r[1].0 == seaweedfs_chart().repo@);
    assert(r[2].0 == lakekeeper_chart().repo@);
    assert(r[3].0 == trino_chart().repo@);
    assert(r[4].0 == airflow_chart().repo@);
    assert(r[5].0 == superset_chart().repo@);
}

} // verus!
