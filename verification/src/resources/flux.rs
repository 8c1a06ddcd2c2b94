//! Flux `HelmRepository` and `HelmRelease` builders.
//!
//! The operator does not run Helm itself; it applies Flux custom resources and
//! lets Flux's source- and helm-controllers do the installs. Each chart's
//! values are an embedded YAML document (with the target namespace substituted
//! into its service-DNS references, then parsed) with the spec's knobs merged
//! over it.
use vstd::prelude::*;

use crate::api::platform_instance::chart_versions as cv;
use crate::api::PlatformInstance;
use crate::json;
use crate::json::{Json, JsonView};
use crate::resources;
use crate::resources::secret;
use crate::resources::Gvk;

verus! {

pub fn helm_repository_gvk() -> (r: Gvk)
    ensures
        r.group@ == "source.toolkit.fluxcd.io"@,
        r.version@ == "v1"@,
        r.kind@ == "HelmRepository"@,
{
    resources::gvk("source.toolkit.fluxcd.io", "v1", "HelmRepository")
}

pub fn helm_release_gvk() -> (r: Gvk)
    ensures
        r.group@ == "helm.toolkit.fluxcd.io"@,
        r.version@ == "v2"@,
        r.kind@ == "HelmRelease"@,
{
    resources::gvk("helm.toolkit.fluxcd.io", "v2", "HelmRelease")
}

/// One upstream Helm repository.
#[derive(Debug, Clone, Copy)]
pub struct Repo {
    pub name: &'static str,
    pub url: &'static str,
}

/// The six repositories, in install order.
pub open spec fn repos_view() -> Seq<(Seq<char>, Seq<char>)> {
    seq![
        ("cnpg"@, "https://cloudnative-pg.github.io/charts"@),
        ("seaweedfs"@, "https://seaweedfs.github.io/seaweedfs/helm"@),
        ("lakekeeper"@, "https://charts.lakekeeper.io"@),
        ("trino"@, "https://trinodb.github.io/charts"@),
        ("apache-airflow"@, "https://airflow.apache.org"@),
        ("superset"@, "https://apache.github.io/superset"@),
    ]
}

/// The six upstream repositories.
pub fn repos() -> (r: Vec<Repo>)
    ensures
        r@.len() == repos_view().len(),
        forall|i: int|
            0 <= i < r@.len() ==> (#[trigger] r@[i].name@, r@[i].url@) == repos_view()[i],
{
    let r = vec![
        Repo { name: "cnpg", url: "https://cloudnative-pg.github.io/charts" },
        Repo { name: "seaweedfs", url: "https://seaweedfs.github.io/seaweedfs/helm" },
        Repo { name: "lakekeeper", url: "https://charts.lakekeeper.io" },
        Repo { name: "trino", url: "https://trinodb.github.io/charts" },
        Repo { name: "apache-airflow", url: "https://airflow.apache.org" },
        Repo { name: "superset", url: "https://apache.github.io/superset" },
    ];
    assert forall|i: int| 0 <= i < r@.len() implies (#[trigger] r@[i].name@, r@[i].url@)
        == repos_view()[i] by {
        if i == 0 {
        } else if i == 1 {
        } else if i == 2 {
        } else if i == 3 {
        } else if i == 4 {
        } else {
        }
    }
    r
}

/// A `HelmRepository` for `repo` in the target namespace.
pub open spec fn helm_repository_doc(repo: Repo, namespace: Seq<char>, owner: JsonView) -> JsonView {
    resources::helm_repository_doc(repo.name@, namespace, repo.url@, owner)
}

/// Build a `HelmRepository` body for the target namespace.
pub fn helm_repository(repo: &Repo, namespace: &str, owner: &Json) -> (r: Json)
    ensures
        r@ == helm_repository_doc(*repo, namespace@, owner@),
{
    resources::helm_repository_body(repo.name, namespace, repo.url, owner.copy())
}

/// Identifies a chart and how to build its release.
#[derive(Debug, Clone, Copy)]
pub struct Chart {
    pub release: &'static str,
    pub repo: &'static str,
    pub chart: &'static str,
}

impl Chart {
    pub fn cnpg() -> (r: Chart)
        ensures
            r.release@ == "cnpg"@,
            r.repo@ == "cnpg"@,
            r.chart@ == "cloudnative-pg"@,
    {
        Chart { release: "cnpg", repo: "cnpg", chart: "cloudnative-pg" }
    }

    pub fn seaweedfs() -> (r: Chart)
        ensures
            r.release@ == "seaweedfs"@,
            r.repo@ == "seaweedfs"@,
            r.chart@ == "seaweedfs"@,
    {
        Chart { release: "seaweedfs", repo: "seaweedfs", chart: "seaweedfs" }
    }

    pub fn lakekeeper() -> (r: Chart)
        ensures
            r.release@ == "lakekeeper"@,
            r.repo@ == "lakekeeper"@,
            r.chart@ == "lakekeeper"@,
    {
        Chart { release: "lakekeeper", repo: "lakekeeper", chart: "lakekeeper" }
    }

    pub fn trino() -> (r: Chart)
        ensures
            r.release@ == "trino"@,
            r.repo@ == "trino"@,
            r.chart@ == "trino"@,
    {
        Chart { release: "trino", repo: "trino", chart: "trino" }
    }

    pub fn airflow() -> (r: Chart)
        ensures
            r.release@ == "airflow"@,
            r.repo@ == "apache-airflow"@,
            r.chart@ == "airflow"@,
    {
        Chart { release: "airflow", repo: "apache-airflow", chart: "airflow" }
    }

    pub fn superset() -> (r: Chart)
        ensures
            r.release@ == "superset"@,
            r.repo@ == "superset"@,
            r.chart@ == "superset"@,
    {
        Chart { release: "superset", repo: "superset", chart: "superset" }
    }
}

/// `o` if set, else the pinned `default`.
pub open spec fn pick(o: Option<String>, default: Seq<char>) -> Seq<char> {
    match o {
        Some(v) => v@,
        None => default,
    }
}

/// The chart version for `release`: the spec's override when set, else the
/// pinned version; empty for an unknown release.
pub open spec fn version_text(pi: PlatformInstance, release: Seq<char>) -> Seq<char> {
    let ov = pi.spec.chart_versions;
    if release == "cnpg"@ {
        pick(if ov is Some { ov->0.cnpg } else { None }, cv::CNPG@)
    } else if release == "seaweedfs"@ {
        pick(if ov is Some { ov->0.seaweedfs } else { None }, cv::SEAWEEDFS@)
    } else if release == "lakekeeper"@ {
        pick(if ov is Some { ov->0.lakekeeper } else { None }, cv::LAKEKEEPER@)
    } else if release == "trino"@ {
        pick(if ov is Some { ov->0.trino } else { None }, cv::TRINO@)
    } else if release == "airflow"@ {
        pick(if ov is Some { ov->0.airflow } else { None }, cv::AIRFLOW@)
    } else if release == "superset"@ {
        pick(if ov is Some { ov->0.superset } else { None }, cv::SUPERSET@)
    } else {
        Seq::empty()
    }
}

fn pick_version(o: &Option<String>, default: &str) -> (r: String)
    ensures
        r@ == pick(*o, default@),
{
    match o {
        Some(v) => v.clone(),
        None => default.to_string(),
    }
}

fn same(a: &str, b: &str) -> (r: bool)
    ensures
        r == (a@ == b@),
{
    a.to_string() == b.to_string()
}

/// Resolve the pinned version for a chart, honoring per-instance overrides.
pub fn version(pi: &PlatformInstance, release: &str) -> (r: String)
    ensures
        r@ == version_text(*pi, release@),
{
    let none: Option<String> = None;
    let ov = &pi.spec.chart_versions;
    if same(release, "cnpg") {
        pick_version(
            match ov {
                Some(o) => &o.cnpg,
                None => &none,
            },
            cv::CNPG,
        )
    } else if same(release, "seaweedfs") {
        pick_version(
            match ov {
                Some(o) => &o.seaweedfs,
                None => &none,
            },
            cv::SEAWEEDFS,
        )
    } else if same(release, "lakekeeper") {
        pick_version(
            match ov {
                Some(o) => &o.lakekeeper,
                None => &none,
            },
            cv::LAKEKEEPER,
        )
    } else if same(release, "trino") {
        pick_version(
            match ov {
                Some(o) => &o.trino,
                None => &none,
            },
            cv::TRINO,
        )
    } else if same(release, "airflow") {
        pick_version(
            match ov {
                Some(o) => &o.airflow,
                None => &none,
            },
            cv::AIRFLOW,
        )
    } else if same(release, "superset") {
        pick_version(
            match ov {
                Some(o) => &o.superset,
                None => &none,
            },
            cv::SUPERSET,
        )
    } else {
        String::new()
    }
}

/// `s` with every non-overlapping occurrence of `pat` (scanning left to
/// right) replaced by `rep`, as `str::replace` does.
pub open spec fn replaced(s: Seq<char>, pat: Seq<char>, rep: Seq<char>) -> Seq<char>
    decreases s.len(),
{
    if pat.len() == 0 || s.len() < pat.len() {
        s
    } else if s.take(pat.len() as int) == pat {
        rep + replaced(s.skip(pat.len() as int), pat, rep)
    } else {
        seq![s[0]] + replaced(s.skip(1), pat, rep)
    }
}

/// Replace every occurrence of `pat` in `s` by `rep`.
pub fn replace_all(s: &str, pat: &str, rep: &str) -> (r: String)
    requires
        pat@.len() > 0,
    ensures
        r@ == replaced(s@, pat@, rep@),
{
    let n = s.unicode_len();
    let m = pat.unicode_len();
    let pat_s = pat.to_string();
    let mut out = String::new();
    let mut i: usize = 0;
    assert(s@.skip(0) =~= s@);
    assert(out@ + replaced(s@, pat@, rep@) =~= replaced(s@, pat@, rep@));
    while i < n
        invariant
            n == s@.len(),
            m == pat@.len(),
            m > 0,
            pat_s@ == pat@,
            i <= n,
            out@ + replaced(s@.skip(i as int), pat@, rep@) == replaced(s@, pat@, rep@),
        decreases n - i,
    {
        let ghost rest = s@.skip(i as int);
        if m <= n - i && s.substring_char(i, i + m).to_string() == pat_s {
            assert(rest.take(m as int) =~= s@.subrange(i as int, i + m));
            assert(rest.skip(m as int) =~= s@.skip(i + m));
            out.append(rep);
            assert(out@ + replaced(s@.skip(i + m), pat@, rep@) =~= replaced(s@, pat@, rep@));
            i = i + m;
        } else {
            let c = s.substring_char(i, i + 1);
            assert(c@ =~= seq![rest[0]]);
            assert(rest.skip(1) =~= s@.skip(i + 1));
            if m <= n - i {
                assert(rest.take(m as int) =~= s@.subrange(i as int, i + m));
            } else {
                assert(rest.skip(1).len() < m);
                assert(rest =~= seq![rest[0]] + rest.skip(1));
            }
            out.append(c);
            assert(out@ + replaced(s@.skip(i + 1), pat@, rep@) =~= replaced(s@, pat@, rep@));
            i = i + 1;
        }
    }
    assert(s@.skip(n as int) =~= Seq::<char>::empty());
    out
}

/// The service-DNS suffix the embedded values are written against.
pub open spec fn default_dns_suffix() -> Seq<char> {
    ".stardelt.svc.cluster.local"@
}

/// The embedded values text with the target namespace substituted for the
/// hardcoded `stardelt` in service-DNS references.
pub open spec fn embedded_values_text(yaml: Seq<char>, namespace: Seq<char>) -> Seq<char> {
    replaced(yaml, default_dns_suffix(), "."@ + namespace + ".svc.cluster.local"@)
}

/// Substitute the target namespace into an embedded values document. The
/// result is parsed as YAML by the caller.
pub fn embedded_values(yaml: &str, namespace: &str) -> (r: String)
    ensures
        r@ == embedded_values_text(yaml@, namespace@),
{
    proof {
        reveal_strlit(".stardelt.svc.cluster.local");
    }
    let rep = json::cat3(".", namespace, ".svc.cluster.local");
    replace_all(yaml, ".stardelt.svc.cluster.local", rep.as_str())
}

/// Embedded SeaweedFS values.
///
/// The five embedded values documents below are minimal stand-ins written for
/// this crate: they hold only the settings the operator's own logic touches
/// (service DNS names under `.stardelt.svc.cluster.local`, the keys the spec
/// knobs override) and are not the platform's full Helm values files, which
/// are not shipped with this crate.
pub const SEAWEEDFS_VALUES: &'static str = "master:
  replicas: 1
  data:
    type: persistentVolumeClaim
    size: 1Gi
volume:
  replicas: 1
filer:
  replicas: 1
  data:
    type: persistentVolumeClaim
    size: 1Gi
s3:
  enabled: true
  port: 8333
  enableAuth: true
  domainName: seaweedfs-s3.stardelt.svc.cluster.local
";

/// Embedded Lakekeeper values.
pub const LAKEKEEPER_VALUES: &'static str = "catalog:
  replicas: 1
  config:
    ICEBERG_REST__BASE_URI: http://lakekeeper.stardelt.svc.cluster.local:8181
externalDatabase:
  type: postgresql
  host_read: lakekeeper-pg-rw.stardelt.svc.cluster.local
  host_write: lakekeeper-pg-rw.stardelt.svc.cluster.local
  port: 5432
  database: lakekeeper
  userSecret:
    name: lakekeeper-pg-app
    key: username
  passwordSecret:
    name: lakekeeper-pg-app
    key: password
postgresql:
  enabled: false
helmWait: true
";

/// Embedded Trino values.
pub const TRINO_VALUES: &'static str = "server:
  workers: 1
env:
  - name: S3_ACCESS_KEY
    valueFrom:
      secretKeyRef:
        name: ozone-s3-creds
        key: access-key
  - name: S3_SECRET_KEY
    valueFrom:
      secretKeyRef:
        name: ozone-s3-creds
        key: secret-key
catalogs:
  lakehouse: |
    connector.name=iceberg
    iceberg.catalog.type=rest
    iceberg.rest-catalog.uri=http://lakekeeper.stardelt.svc.cluster.local:8181/catalog
    iceberg.rest-catalog.warehouse=warehouse
    fs.native-s3.enabled=true
    s3.endpoint=http://seaweedfs-s3.stardelt.svc.cluster.local:8333
    s3.region=us-east-1
    s3.path-style-access=true
    s3.aws-access-key=${ENV:S3_ACCESS_KEY}
    s3.aws-secret-key=${ENV:S3_SECRET_KEY}
";

/// Embedded Airflow values.
pub const AIRFLOW_VALUES: &'static str = "executor: KubernetesExecutor
postgresql:
  enabled: true
env:
  - name: TRINO_HOST
    value: trino.stardelt.svc.cluster.local
  - name: LAKEKEEPER_URL
    value: http://lakekeeper.stardelt.svc.cluster.local:8181/catalog
";

/// Embedded Superset values.
pub const SUPERSET_VALUES: &'static str = "bootstrapScript: |
  #!/bin/bash
  pip install trino
extraConfigs:
  datasources.yaml: |
    databases:
      - database_name: lakehouse
        sqlalchemy_uri: trino://superset@trino.stardelt.svc.cluster.local:8080/lakehouse
";

/// The embedded values document of a release, if it has one.
pub open spec fn values_document_text(release: Seq<char>) -> Option<Seq<char>> {
    if release == "seaweedfs"@ {
        Some(SEAWEEDFS_VALUES@)
    } else if release == "lakekeeper"@ {
        Some(LAKEKEEPER_VALUES@)
    } else if release == "trino"@ {
        Some(TRINO_VALUES@)
    } else if release == "airflow"@ {
        Some(AIRFLOW_VALUES@)
    } else if release == "superset"@ {
        Some(SUPERSET_VALUES@)
    } else {
        None
    }
}

/// The embedded values document of `chart` (none for the CNPG operator).
pub fn values_document(chart: &Chart) -> (r: Option<&'static str>)
    ensures
        match values_document_text(chart.release@) {
            Some(t) => r is Some && r->0@ == t,
            None => r is None,
        },
{
    if same(chart.release, "seaweedfs") {
        Some(SEAWEEDFS_VALUES)
    } else if same(chart.release, "lakekeeper") {
        Some(LAKEKEEPER_VALUES)
    } else if same(chart.release, "trino") {
        Some(TRINO_VALUES)
    } else if same(chart.release, "airflow") {
        Some(AIRFLOW_VALUES)
    } else if same(chart.release, "superset") {
        Some(SUPERSET_VALUES)
    } else {
        None
    }
}

/// A `serde_json` document, carried through opaque.
#[verifier::external_type_specification]
#[verifier::external_body]
pub struct ExJsonValue(serde_json::Value);

/// The document a `serde_json::Value` holds: objects with their entries in
/// the map's iteration order, numbers as their decimal text.
pub uninterp spec fn value_json(v: serde_json::Value) -> JsonView;

/// The document `serde_yaml::from_str::<serde_json::Value>` parses `text`
/// to (taken by [`value_json`]), or `None` when it rejects `text`.
pub uninterp spec fn yaml_document(text: Seq<char>) -> Option<JsonView>;

/// Calls `serde_yaml::from_str::<serde_json::Value>`. Claimed: it fails
/// exactly when the named parse rejects the text, and otherwise returns the
/// named document. Nothing more of YAML is stated.
#[verifier::external_body]
fn parse_yaml_value(text: &str) -> (r: Option<serde_json::Value>)
    ensures
        r is None <==> yaml_document(text@) is None,
        r matches Some(v) ==> yaml_document(text@) == Some(value_json(v)),
{
    serde_yaml::from_str::<serde_json::Value>(text).ok()
}

/// Converts a `serde_json::Value` into a [`Json`], one variant for one
/// (a number keeps its `Display` text, `serde_json::Number::to_string`).
/// Claimed: the result is the document the value holds.
#[verifier::external_body]
fn json_of_value(v: serde_json::Value) -> (r: Json)
    ensures
        r@ == value_json(v),
{
    match v {
        serde_json::Value::Null => Json::Null,
        serde_json::Value::Bool(b) => Json::Bool(b),
        serde_json::Value::Number(n) => Json::Num(n.to_string()),
        serde_json::Value::String(s) => Json::Str(s),
        serde_json::Value::Array(a) => Json::Arr(a.into_iter().map(json_of_value).collect()),
        serde_json::Value::Object(o) => Json::Obj(o.into_iter().map(|(k, x)| (k, json_of_value(x))).collect()),
    }
}

/// Parse a YAML document: `None` exactly when the parse rejects `text`.
pub fn parse_yaml(text: &str) -> (r: Option<Json>)
    ensures
        r is None <==> yaml_document(text@) is None,
        r matches Some(j) ==> yaml_document(text@) == Some(j@),
{
    match parse_yaml_value(text) {
        Some(v) => Some(json_of_value(v)),
        None => None,
    }
}

/// The model of an optional document.
pub open spec fn option_view(o: Option<Json>) -> Option<JsonView> {
    match o {
        Some(j) => Some(j@),
        None => None,
    }
}

/// The parsed, namespace-substituted embedded values of `release`: the
/// parse of its embedded document with `namespace` substituted (`None` when
/// the parse fails), or an empty object for a release without one.
pub open spec fn parsed_values_view(release: Seq<char>, namespace: Seq<char>) -> Option<JsonView> {
    match values_document_text(release) {
        Some(t) => yaml_document(embedded_values_text(t, namespace)),
        None => Some(json::jobj()),
    }
}

/// The embedded values of `chart` for `namespace`, substituted and parsed.
pub fn parsed_values(chart: &Chart, namespace: &str) -> (r: Option<Json>)
    ensures
        option_view(r) == parsed_values_view(chart.release@, namespace@),
{
    match values_document(chart) {
        Some(text) => {
            let substituted = embedded_values(text, namespace);
            parse_yaml(substituted.as_str())
        },
        None => Some(Json::object()),
    }
}

/// The spec knobs merged over the SeaweedFS defaults: volume size, S3
/// credentials and the bucket to create.
pub open spec fn seaweedfs_overlay_doc(pi: PlatformInstance) -> JsonView {
    let s3 = pi.spec.s3;
    json::jobj().with(
        "volume"@,
        json::jobj().with(
            "dataDirs"@,
            json::jarr().push(
                json::jobj().with("name"@, json::jstr("data"@)).with(
                    "type"@,
                    json::jstr("persistentVolumeClaim"@),
                ).with("size"@, json::jstr(pi.spec.storage.volume_size@)).with(
                    "maxVolumes"@,
                    json::jint(0),
                ),
            ),
        ),
    ).with(
        "s3"@,
        json::jobj().with(
            "credentials"@,
            json::jobj().with(
                "admin"@,
                json::jobj().with("accessKey"@, json::jstr(s3.access_key@)).with(
                    "secretKey"@,
                    json::jstr(s3.secret_key@),
                ),
            ),
        ).with(
            "createBuckets"@,
            json::jarr().push(
                json::jobj().with("name"@, json::jstr(s3.bucket@)).with(
                    "anonymousRead"@,
                    JsonView::Bool(false),
                ),
            ),
        ),
    )
}

fn seaweedfs_overlay(pi: &PlatformInstance) -> (r: Json)
    ensures
        r@ == seaweedfs_overlay_doc(*pi),
{
    let s3 = &pi.spec.s3;
    Json::object().with(
        "volume",
        Json::object().with(
            "dataDirs",
            Json::array().push(
                Json::object().with("name", Json::text("data")).with(
                    "type",
                    Json::text("persistentVolumeClaim"),
                ).with("size", Json::string(pi.spec.storage.volume_size.clone())).with(
                    "maxVolumes",
                    Json::integer(0),
                ),
            ),
        ),
    ).with(
        "s3",
        Json::object().with(
            "credentials",
            Json::object().with(
                "admin",
                Json::object().with("accessKey", Json::string(s3.access_key.clone())).with(
                    "secretKey",
                    Json::string(s3.secret_key.clone()),
                ),
            ),
        ).with(
            "createBuckets",
            Json::array().push(
                Json::object().with("name", Json::string(s3.bucket.clone())).with(
                    "anonymousRead",
                    Json::boolean(false),
                ),
            ),
        ),
    )
}

/// The spec knobs merged over the Trino defaults: the worker count.
pub open spec fn trino_overlay_doc(pi: PlatformInstance) -> JsonView {
    json::jobj().with(
        "server"@,
        json::jobj().with("workers"@, json::jint(pi.spec.components.trino.workers as int)),
    )
}

fn trino_overlay(pi: &PlatformInstance) -> (r: Json)
    ensures
        r@ == trino_overlay_doc(*pi),
{
    Json::object().with(
        "server",
        Json::object().with("workers", Json::integer(pi.spec.components.trino.workers as i64)),
    )
}

/// The per-instance values of `release` given its parsed embedded document.
pub open spec fn values_doc(pi: PlatformInstance, release: Seq<char>, embedded: JsonView) -> JsonView {
    if release == "cnpg"@ {
        json::jobj()
    } else if release == "seaweedfs"@ {
        json::merged(embedded, seaweedfs_overlay_doc(pi))
    } else if release == "lakekeeper"@ {
        embedded
    } else if release == "trino"@ {
        json::merged(embedded, trino_overlay_doc(pi))
    } else if release == "airflow"@ {
        embedded
    } else if release == "superset"@ {
        embedded
    } else {
        json::jobj()
    }
}

/// Compute the per-instance values for `chart`, merging spec knobs over the
/// embedded defaults (`embedded` is the parsed, namespace-substituted
/// document of [`values_document`]).
pub fn values_for(pi: &PlatformInstance, chart: &Chart, embedded: Json) -> (r: Json)
    ensures
        r@ == values_doc(*pi, chart.release@, embedded@),
{
    if same(chart.release, "cnpg") {
        Json::object()
    } else if same(chart.release, "seaweedfs") {
        json::merge(embedded, seaweedfs_overlay(pi))
    } else if same(chart.release, "lakekeeper") {
        embedded
    } else if same(chart.release, "trino") {
        json::merge(embedded, trino_overlay(pi))
    } else if same(chart.release, "airflow") {
        embedded
    } else if same(chart.release, "superset") {
        embedded
    } else {
        Json::object()
    }
}

/// `[{ name: d } for d in depends_on]`
pub open spec fn deps_doc(ds: Seq<Seq<char>>) -> JsonView
    decreases ds.len(),
{
    if ds.len() == 0 {
        json::jarr()
    } else {
        deps_doc(ds.drop_last()).push(json::jobj().with("name"@, json::jstr(ds.last())))
    }
}

/// The views of a list of names.
pub open spec fn names_view(ds: Seq<&str>) -> Seq<Seq<char>> {
    ds.map_values(|d: &str| d@)
}

fn deps(depends_on: &[&str]) -> (r: Json)
    ensures
        r@ == deps_doc(names_view(depends_on@)),
{
    let mut out = Json::array();
    let mut i: usize = 0;
    while i < depends_on.len()
        invariant
            i <= depends_on@.len(),
            out@ == deps_doc(names_view(depends_on@).take(i as int)),
        decreases depends_on.len() - i,
    {
        let d = depends_on[i];
        out = out.push(Json::object().with("name", Json::text(d)));
        proof {
            let vs = names_view(depends_on@);
            assert(vs.take(i + 1).drop_last() =~= vs.take(i as int));
            assert(vs.take(i + 1).last() == d@);
        }
        i = i + 1;
    }
    assert(names_view(depends_on@).take(depends_on@.len() as int) =~= names_view(depends_on@));
    out
}

/// A `HelmRelease` for `chart`: pinned (or overridden) version, sourced from
/// the chart's repository in the target namespace, ordered by Flux after
/// `depends_on`, with `values`.
pub open spec fn helm_release_doc(
    pi: PlatformInstance,
    chart: Chart,
    depends_on: Seq<Seq<char>>,
    owner: JsonView,
    values: JsonView,
) -> JsonView {
    let ns = pi.spec.namespace@;
    json::jobj().with("apiVersion"@, json::jstr("helm.toolkit.fluxcd.io/v2"@)).with(
        "kind"@,
        json::jstr("HelmRelease"@),
    ).with("metadata"@, resources::meta_doc(chart.release@, ns, owner)).with(
        "spec"@,
        json::jobj().with("interval"@, json::jstr("5m"@)).with("timeout"@, json::jstr("10m"@)).with(
            "releaseName"@,
            json::jstr(chart.release@),
        ).with(
            "chart"@,
            json::jobj().with(
                "spec"@,
                json::jobj().with("chart"@, json::jstr(chart.chart@)).with(
                    "version"@,
                    json::jstr(version_text(pi, chart.release@)),
                ).with(
                    "sourceRef"@,
                    json::jobj().with("kind"@, json::jstr("HelmRepository"@)).with(
                        "name"@,
                        json::jstr(chart.repo@),
                    ).with("namespace"@, json::jstr(ns)),
                ),
            ),
        ).with("install"@, json::jobj().with("createNamespace"@, JsonView::Bool(true))).with(
            "upgrade"@,
            json::jobj().with("remediation"@, json::jobj().with("retries"@, json::jint(3))),
        ).with("dependsOn"@, deps_doc(depends_on)).with("values"@, values),
    )
}

/// Build a `HelmRelease` body. `depends_on` names other HelmReleases in the
/// same namespace that Flux should order before this one (defense in depth;
/// the operator's own step gating is the source of truth). `embedded` is the
/// parsed embedded values document of the chart.
pub fn helm_release(
    pi: &PlatformInstance,
    chart: &Chart,
    depends_on: &[&str],
    owner: &Json,
    embedded: Json,
) -> (r: Json)
    ensures
        r@ == helm_release_doc(
            *pi,
            *chart,
            names_view(depends_on@),
            owner@,
            values_doc(*pi, chart.release@, embedded@),
        ),
{
    let ns = pi.spec.namespace.as_str();
    let values = values_for(pi, chart, embedded);
    Json::object().with("apiVersion", Json::text("helm.toolkit.fluxcd.io/v2")).with(
        "kind",
        Json::text("HelmRelease"),
    ).with("metadata", resources::object_meta(chart.release, ns, owner.copy())).with(
        "spec",
        Json::object().with("interval", Json::text("5m")).with("timeout", Json::text("10m")).with(
            "releaseName",
            Json::text(chart.release),
        ).with(
            "chart",
            Json::object().with(
                "spec",
                Json::object().with("chart", Json::text(chart.chart)).with(
                    "version",
                    Json::string(version(pi, chart.release)),
                ).with(
                    "sourceRef",
                    Json::object().with("kind", Json::text("HelmRepository")).with(
                        "name",
                        Json::text(chart.repo),
                    ).with("namespace", Json::text(ns)),
                ),
            ),
        ).with("install", Json::object().with("createNamespace", Json::boolean(true))).with(
            "upgrade",
            Json::object().with("remediation", Json::object().with("retries", Json::integer(3))),
        ).with("dependsOn", deps(depends_on)).with("values", values),
    )
}

/// Spec knobs override the embedded defaults: whatever the embedded Trino
/// values hold, the release values carry the spec's worker count at
/// `server.workers`.
pub proof fn lemma_trino_workers_override(pi: PlatformInstance, embedded: JsonView)
    ensures
        json::get_path(values_doc(pi, "trino"@, embedded), seq!["server"@, "workers"@]) == Some(
            json::jint(pi.spec.components.trino.workers as int),
        ),
{
    reveal_strlit("trino");
    reveal_strlit("cnpg");
    reveal_strlit("seaweedfs");
    reveal_strlit("lakekeeper");
    assert("trino"@.len() == 5 && "cnpg"@.len() == 4 && "seaweedfs"@.len() == 9);
    assert("lakekeeper"@.len() == 10);
    let path = seq!["server"@, "workers"@];
    let o = trino_overlay_doc(pi);
    reveal_with_fuel(json::get_path, 3);
    reveal_with_fuel(json::keys_unique_along, 3);
    reveal_with_fuel(json::key_pos_from, 2);
    assert(path.skip(1) =~= seq!["workers"@]);
    assert(path.skip(1).skip(1) =~= Seq::<Seq<char>>::empty());
    json::lemma_merged_overlay_leaf(embedded, o, path, json::jint(pi.spec.components.trino.workers as int));
}

/// The S3 credentials and bucket of the SeaweedFS release always match the
/// `ozone-s3-creds` Secret: whatever the embedded SeaweedFS values hold,
/// `s3.credentials.admin.accessKey`/`secretKey` are the Secret's
/// `access-key`/`secret-key`, and the one bucket created is its `bucket`.
pub proof fn lemma_s3_credentials_match(pi: PlatformInstance, embedded: JsonView, owner: JsonView)
    ensures
        ({
            let values = values_doc(pi, "seaweedfs"@, embedded);
            let data = secret::secret_data_doc(pi);
            &&& json::get_path(values, seq!["s3"@, "credentials"@, "admin"@, "accessKey"@])
                == data.get("access-key"@)
            &&& json::get_path(values, seq!["s3"@, "credentials"@, "admin"@, "secretKey"@])
                == data.get("secret-key"@)
            &&& json::get_path(values, seq!["s3"@, "createBuckets"@]) == Some(
                json::jarr().push(
                    json::jobj().with("name"@, data.get("bucket"@)->0).with(
                        "anonymousRead"@,
                        JsonView::Bool(false),
                    ),
                ),
            )
        }),
{
    reveal_strlit("seaweedfs");
    reveal_strlit("cnpg");
    reveal_strlit("s3");
    reveal_strlit("volume");
    reveal_strlit("credentials");
    reveal_strlit("createBuckets");
    reveal_strlit("accessKey");
    reveal_strlit("secretKey");
    reveal_strlit("access-key");
    reveal_strlit("secret-key");
    reveal_strlit("endpoint");
    reveal_strlit("bucket");
    reveal_strlit("region");
    reveal_with_fuel(json::get_path, 5);
    reveal_with_fuel(json::keys_unique_along, 5);
    reveal_with_fuel(json::key_pos_from, 6);
    assert("seaweedfs"@.len() == 9 && "cnpg"@.len() == 4);
    assert("access-key"@[0] == 'a' && "secret-key"@[0] == 's');
    assert("access-key"@.len() == 10 && "secret-key"@.len() == 10 && "endpoint"@.len() == 8);
    assert("bucket"@.len() == 6);
    assert("credentials"@.len() == 11 && "createBuckets"@.len() == 13);
    let o = seaweedfs_overlay_doc(pi);
    let pa = seq!["s3"@, "credentials"@, "admin"@, "accessKey"@];
    let ps = seq!["s3"@, "credentials"@, "admin"@, "secretKey"@];
    let pb = seq!["s3"@, "createBuckets"@];
    assert(pa.skip(1) =~= seq!["credentials"@, "admin"@, "accessKey"@]);
    assert(pa.skip(1).skip(1) =~= seq!["admin"@, "accessKey"@]);
    assert(pa.skip(1).skip(1).skip(1) =~= seq!["accessKey"@]);
    assert(pa.skip(1).skip(1).skip(1).skip(1) =~= Seq::<Seq<char>>::empty());
    assert(ps.skip(1) =~= seq!["credentials"@, "admin"@, "secretKey"@]);
    assert(ps.skip(1).skip(1) =~= seq!["admin"@, "secretKey"@]);
    assert(ps.skip(1).skip(1).skip(1) =~= seq!["secretKey"@]);
    assert(ps.skip(1).skip(1).skip(1).skip(1) =~= Seq::<Seq<char>>::empty());
    assert(pb.skip(1) =~= seq!["createBuckets"@]);
    assert(pb.skip(1).skip(1) =~= Seq::<Seq<char>>::empty());
    let s3 = o.get("s3"@)->0;
    let cr = s3.get("credentials"@)->0;
    let ad = cr.get("admin"@)->0;
    assert(o->Obj_0.len() == 2);
    assert(o->Obj_0[1].0 == "s3"@);
    assert(o->Obj_0[0].0 == "volume"@);
    assert("volume"@.len() == 6);
    assert("s3"@.len() == 2);
    assert("volume"@ != "s3"@);
    assert(json::key_pos_from(o->Obj_0, "s3"@, 1) == 1);
    assert(json::key_pos_from(o->Obj_0, "s3"@, 0) == 1);
    assert(json::key_pos(o->Obj_0, "s3"@) == 1);
    assert(o.get("s3"@) is Some);
    assert(s3->Obj_0[0].0 == "credentials"@);
    assert(json::key_pos(s3->Obj_0, "credentials"@) == 0);
    assert(s3.get("credentials"@) is Some);
    assert(cr.get("admin"@) is Some);
    assert(ad.get("accessKey"@) == Some(json::jstr(pi.spec.s3.access_key@)));
    assert("accessKey"@[0] == 'a' && "secretKey"@[0] == 's');
    assert(ad.get("secretKey"@) == Some(json::jstr(pi.spec.s3.secret_key@)));
    assert(json::keys_unique_along(ad, seq!["accessKey"@]));
    assert(json::keys_unique_along(cr, seq!["admin"@, "accessKey"@]));
    assert(json::keys_unique_along(s3, seq!["credentials"@, "admin"@, "accessKey"@]));
    assert(json::keys_unique_along(o, pa));
    json::lemma_merged_overlay_leaf(embedded, o, pa, json::jstr(pi.spec.s3.access_key@));
    json::lemma_merged_overlay_leaf(embedded, o, ps, json::jstr(pi.spec.s3.secret_key@));
    json::lemma_merged_overlay_leaf(
        embedded,
        o,
        pb,
        json::jarr().push(
            json::jobj().with("name"@, json::jstr(pi.spec.s3.bucket@)).with(
                "anonymousRead"@,
                JsonView::Bool(false),
            ),
        ),
    );
}

/// `str::replace` of a pattern by itself changes nothing.
pub proof fn lemma_replaced_identity(s: Seq<char>, pat: Seq<char>)
    ensures
        replaced(s, pat, pat) == s,
    decreases s.len(),
{
    if pat.len() == 0 || s.len() < pat.len() {
    } else if s.take(pat.len() as int) == pat {
        lemma_replaced_identity(s.skip(pat.len() as int), pat);
        assert(s =~= s.take(pat.len() as int) + s.skip(pat.len() as int));
    } else {
        lemma_replaced_identity(s.skip(1), pat);
        assert(s =~= seq![s[0]] + s.skip(1));
    }
}

/// Substituting the default namespace leaves the embedded values unchanged.
pub proof fn lemma_default_namespace_keeps_values(yaml: Seq<char>)
    ensures
        embedded_values_text(yaml, "stardelt"@) == yaml,
{
    reveal_strlit(".stardelt.svc.cluster.local");
    reveal_strlit(".");
    reveal_strlit("stardelt");
    reveal_strlit(".svc.cluster.local");
    assert("."@ + "stardelt"@ + ".svc.cluster.local"@ =~= default_dns_suffix());
    lemma_replaced_identity(yaml, default_dns_suffix());
}


/// A HelmRelease takes its chart from the HelmRepository named after the
/// chart's repository (`chart.repo`, which can differ from the chart's own
/// name), in the target namespace.
pub proof fn lemma_helm_release_source(
    pi: PlatformInstance,
    chart: Chart,
    depends_on: Seq<Seq<char>>,
    owner: JsonView,
    values: JsonView,
)
    ensures
        ({
            let r = helm_release_doc(pi, chart, depends_on, owner, values);
            let src = seq!["spec"@, "chart"@, "spec"@, "sourceRef"@];
            &&& json::get_path(r, src.push("name"@)) == Some(JsonView::Str(chart.repo@))
            &&& json::get_path(r, src.push("kind"@)) == Some(json::jstr("HelmRepository"@))
            &&& json::get_path(r, src.push("namespace"@)) == Some(json::jstr(pi.spec.namespace@))
        }),
{
    reveal_strlit("apiVersion");
    reveal_strlit("kind");
    reveal_strlit("metadata");
    reveal_strlit("spec");
    reveal_strlit("interval");
    reveal_strlit("timeout");
    reveal_strlit("releaseName");
    reveal_strlit("chart");
    reveal_strlit("install");
    reveal_strlit("upgrade");
    reveal_strlit("dependsOn");
    reveal_strlit("values");
    reveal_strlit("version");
    reveal_strlit("sourceRef");
    reveal_strlit("name");
    reveal_strlit("namespace");
    assert("apiVersion"@.len() == 10 && "metadata"@.len() == 8 && "interval"@.len() == 8);
    assert("kind"@.len() == 4 && "kind"@[0] == 'k' && "spec"@.len() == 4 && "spec"@[0] == 's');
    assert("name"@.len() == 4 && "name"@[0] == 'n' && "namespace"@.len() == 9);
    assert("timeout"@.len() == 7 && "releaseName"@.len() == 11 && "chart"@.len() == 5);
    assert("install"@.len() == 7 && "upgrade"@.len() == 7 && "dependsOn"@.len() == 9);
    assert("values"@.len() == 6 && "version"@.len() == 7 && "sourceRef"@.len() == 9);
    assert("sourceRef"@[0] == 's' && "dependsOn"@[0] == 'd' && "namespace"@[0] == 'n');
    let ns = pi.spec.namespace@;
    let r = helm_release_doc(pi, chart, depends_on, owner, values);
    // The sourceRef object.
    let sr0 = json::jobj().with("kind"@, json::jstr("HelmRepository"@));
    let sr1 = sr0.with("name"@, JsonView::Str(chart.repo@));
    let sr = sr1.with("namespace"@, json::jstr(ns));
    json::lemma_with_get(json::jobj(), "kind"@, json::jstr("HelmRepository"@), "kind"@);
    json::lemma_with_get(json::jobj(), "kind"@, json::jstr("HelmRepository"@), "name"@);
    json::lemma_with_get(json::jobj(), "kind"@, json::jstr("HelmRepository"@), "namespace"@);
    json::lemma_with_get(sr0, "name"@, JsonView::Str(chart.repo@), "kind"@);
    json::lemma_with_get(sr0, "name"@, JsonView::Str(chart.repo@), "name"@);
    json::lemma_with_get(sr0, "name"@, JsonView::Str(chart.repo@), "namespace"@);
    json::lemma_with_get(sr1, "namespace"@, json::jstr(ns), "kind"@);
    json::lemma_with_get(sr1, "namespace"@, json::jstr(ns), "name"@);
    json::lemma_with_get(sr1, "namespace"@, json::jstr(ns), "namespace"@);
    // The chart spec.
    let cs0 = json::jobj().with("chart"@, json::jstr(chart.chart@));
    let cs1 = cs0.with("version"@, json::jstr(version_text(pi, chart.release@)));
    let cs = cs1.with("sourceRef"@, sr);
    json::lemma_with_get(json::jobj(), "chart"@, json::jstr(chart.chart@), "sourceRef"@);
    json::lemma_with_get(cs0, "version"@, json::jstr(version_text(pi, chart.release@)), "sourceRef"@);
    json::lemma_with_get(cs1, "sourceRef"@, sr, "sourceRef"@);
    let ch = json::jobj().with("spec"@, cs);
    json::lemma_with_get(json::jobj(), "spec"@, cs, "spec"@);
    // The release spec.
    let s0 = json::jobj().with("interval"@, json::jstr("5m"@));
    let s1 = s0.with("timeout"@, json::jstr("10m"@));
    let s2 = s1.with("releaseName"@, json::jstr(chart.release@));
    let s3 = s2.with("chart"@, ch);
    let s4 = s3.with("install"@, json::jobj().with("createNamespace"@, JsonView::Bool(true)));
    let s5 = s4.with(
        "upgrade"@,
        json::jobj().with("remediation"@, json::jobj().with("retries"@, json::jint(3))),
    );
    let s6 = s5.with("dependsOn"@, deps_doc(depends_on));
    let s = s6.with("values"@, values);
    json::lemma_with_get(json::jobj(), "interval"@, json::jstr("5m"@), "chart"@);
    json::lemma_with_get(s0, "timeout"@, json::jstr("10m"@), "chart"@);
    json::lemma_with_get(s1, "releaseName"@, json::jstr(chart.release@), "chart"@);
    json::lemma_with_get(s2, "chart"@, ch, "chart"@);
    json::lemma_with_get(s3, "install"@, json::jobj().with("createNamespace"@, JsonView::Bool(true)), "chart"@);
    json::lemma_with_get(
        s4,
        "upgrade"@,
        json::jobj().with("remediation"@, json::jobj().with("retries"@, json::jint(3))),
        "chart"@,
    );
    json::lemma_with_get(s5, "dependsOn"@, deps_doc(depends_on), "chart"@);
    json::lemma_with_get(s6, "values"@, values, "chart"@);
    // The document.
    let d0 = json::jobj().with("apiVersion"@, json::jstr("helm.toolkit.fluxcd.io/v2"@));
    let d1 = d0.with("kind"@, json::jstr("HelmRelease"@));
    let d2 = d1.with("metadata"@, resources::meta_doc(chart.release@, ns, owner));
    json::lemma_with_get(json::jobj(), "apiVersion"@, json::jstr("helm.toolkit.fluxcd.io/v2"@), "spec"@);
    json::lemma_with_get(d0, "kind"@, json::jstr("HelmRelease"@), "spec"@);
    json::lemma_with_get(d1, "metadata"@, resources::meta_doc(chart.release@, ns, owner), "spec"@);
    json::lemma_with_get(d2, "spec"@, s, "spec"@);
    assert(r == d2.with("spec"@, s));
    assert(r.get("spec"@) == Some(s));
    assert(s.get("chart"@) == Some(ch));
    assert(ch.get("spec"@) == Some(cs));
    assert(cs.get("sourceRef"@) == Some(sr));
    let src = seq!["spec"@, "chart"@, "spec"@, "sourceRef"@];
    reveal_with_fuel(json::get_path, 6);
    let leaves = seq!["name"@, "kind"@, "namespace"@];
    assert forall|i: int| 0 <= i < 3 implies ({
        let p = #[trigger] src.push(leaves[i]);
        &&& p.skip(1) =~= seq!["chart"@, "spec"@, "sourceRef"@, leaves[i]]
        &&& p.skip(1).skip(1) =~= seq!["spec"@, "sourceRef"@, leaves[i]]
        &&& p.skip(1).skip(1).skip(1) =~= seq!["sourceRef"@, leaves[i]]
        &&& p.skip(1).skip(1).skip(1).skip(1) =~= seq![leaves[i]]
        &&& p.skip(1).skip(1).skip(1).skip(1).skip(1) =~= Seq::<Seq<char>>::empty()
    }) by {}
    assert(src.push(leaves[0]) == src.push("name"@));
    assert(src.push(leaves[1]) == src.push("kind"@));
    assert(src.push(leaves[2]) == src.push("namespace"@));
}

} // verus!
