use stardelt_operator::api::platform_instance::chart_versions as cv;
use stardelt_operator::api::platform_instance::{
    ChartVersionOverrides, Components, InstanceMeta, PlatformInstance, PlatformInstanceSpec, S3Spec,
    StorageSpec,
};
use stardelt_operator::json::{merge, Json};
use stardelt_operator::controllers::platform_instance::EmbeddedValues;
use stardelt_operator::resources::flux::{
    embedded_values, helm_release, parse_yaml, parsed_values, replace_all, repos, values_document,
    values_for, version, Chart,
};

fn instance() -> PlatformInstance {
    PlatformInstance {
        metadata: InstanceMeta { name: "t".to_string(), uid: None, generation: None },
        spec: PlatformInstanceSpec {
            namespace: "lake".to_string(),
            s3: S3Spec::default(),
            storage: StorageSpec::default(),
            components: Components::default(),
            chart_versions: None,
            ingress: None,
            sso: None,
        },
        status: None,
    }
}

fn to_serde(j: &Json) -> serde_json::Value {
    match j {
        Json::Null => serde_json::Value::Null,
        Json::Bool(b) => serde_json::Value::Bool(*b),
        Json::Int(i) => serde_json::Value::from(*i),
        Json::Num(s) => serde_json::from_str(s).unwrap(),
        Json::Str(s) => serde_json::Value::String(s.clone()),
        Json::Arr(a) => serde_json::Value::Array(a.iter().map(to_serde).collect()),
        Json::Obj(f) => serde_json::Value::Object(f.iter().map(|(k, v)| (k.clone(), to_serde(v))).collect()),
    }
}

/// The parsed, namespace-substituted embedded values of `chart`.
fn embedded(pi: &PlatformInstance, chart: &Chart) -> Json {
    parsed_values(chart, &pi.spec.namespace).expect("embedded values parse")
}

fn values(pi: &PlatformInstance, chart: &Chart) -> Json {
    values_for(pi, chart, embedded(pi, chart))
}

#[test]
fn all_embedded_values_parse() {
    for c in [Chart::seaweedfs(), Chart::lakekeeper(), Chart::trino(), Chart::airflow(), Chart::superset()] {
        let pi = instance();
        let v = values(&pi, &c);
        assert!(matches!(v, Json::Obj(_)), "{} values should be an object", c.release);
    }
}

#[test]
fn namespace_is_substituted_in_values() {
    let pi = instance();
    let trino = values(&pi, &Chart::trino());
    let serialized = serde_json::to_string(&to_serde(&trino)).unwrap();
    assert!(
        serialized.contains(".lake.svc.cluster.local"),
        "service DNS should target the spec namespace"
    );
    assert!(
        !serialized.contains(".stardelt.svc.cluster.local"),
        "no references to the hardcoded default namespace should remain"
    );
}

#[test]
fn spec_knobs_override_embedded_defaults() {
    let mut pi = instance();
    pi.spec.components.trino.workers = 7;
    let trino = values(&pi, &Chart::trino());
    assert_eq!(trino.get("server").unwrap().get("workers").unwrap(), &Json::Int(7));
}

#[test]
fn helm_release_builds_with_pinned_version() {
    let pi = instance();
    let owner = Json::object();
    let hr = helm_release(&pi, &Chart::trino(), &["lakekeeper"], &owner, embedded(&pi, &Chart::trino()));
    let spec = hr.get("spec").unwrap();
    assert_eq!(
        spec.get("chart").unwrap().get("spec").unwrap().get("version").unwrap().as_str(),
        Some(cv::TRINO)
    );
    assert_eq!(
        spec.get("dependsOn").unwrap().at(0).unwrap().get("name").unwrap().as_str(),
        Some("lakekeeper")
    );
}

#[test]
fn version_override_wins_over_pin() {
    let mut pi = instance();
    assert_eq!(version(&pi, "airflow"), cv::AIRFLOW);
    let mut ov = ChartVersionOverrides::default();
    ov.airflow = Some("9.9.9".to_string());
    pi.spec.chart_versions = Some(ov);
    assert_eq!(version(&pi, "airflow"), "9.9.9");
    assert_eq!(version(&pi, "trino"), cv::TRINO);
    assert_eq!(version(&pi, "unknown"), "");
}

#[test]
fn seaweedfs_values_carry_spec_credentials() {
    let mut pi = instance();
    pi.spec.s3.access_key = "AK".to_string();
    pi.spec.storage.volume_size = "50Gi".to_string();
    let v = values(&pi, &Chart::seaweedfs());
    let admin = v.get("s3").unwrap().get("credentials").unwrap().get("admin").unwrap();
    assert_eq!(admin.get("accessKey").unwrap().as_str(), Some("AK"));
    assert_eq!(admin.get("secretKey").unwrap().as_str(), Some("stardelt-secret-key"));
    let bucket = v.get("s3").unwrap().get("createBuckets").unwrap().at(0).unwrap();
    assert_eq!(bucket.get("name").unwrap().as_str(), Some("lakehouse"));
    // embedded defaults survive the merge (parsed numbers keep their text)
    assert_eq!(v.get("s3").unwrap().get("port").unwrap(), &Json::Num("8333".to_string()));
    let dir = v.get("volume").unwrap().get("dataDirs").unwrap().at(0).unwrap();
    assert_eq!(dir.get("size").unwrap().as_str(), Some("50Gi"));
    assert_eq!(v.get("volume").unwrap().get("replicas").unwrap(), &Json::Num("1".to_string()));
}

#[test]
fn cnpg_release_has_empty_values_and_no_dependencies() {
    let pi = instance();
    let hr = helm_release(&pi, &Chart::cnpg(), &[], &Json::object(), Json::object());
    let spec = hr.get("spec").unwrap();
    assert_eq!(spec.get("values").unwrap(), &Json::object());
    assert_eq!(spec.get("dependsOn").unwrap(), &Json::array());
    assert_eq!(spec.get("chart").unwrap().get("spec").unwrap().get("chart").unwrap().as_str(), Some("cloudnative-pg"));
}

#[test]
fn replace_all_replaces_every_occurrence() {
    assert_eq!(replace_all("a.x.b.x", ".x", ".yy"), "a.yy.b.yy");
    assert_eq!(replace_all("aaa", "aa", "b"), "ba");
    assert_eq!(replace_all("abc", "zz", "q"), "abc");
    assert_eq!(embedded_values("h.stardelt.svc.cluster.local", "lake"), "h.lake.svc.cluster.local");
    assert_eq!(embedded_values("h.stardelt.svc.cluster.local", "stardelt"), "h.stardelt.svc.cluster.local");
}

#[test]
fn merge_objects_recursively_and_replace_scalars() {
    let base = Json::object()
        .with("a", Json::object().with("x", Json::integer(1)).with("y", Json::integer(2)))
        .with("b", Json::array().push(Json::integer(1)));
    let overlay = Json::object()
        .with("a", Json::object().with("y", Json::integer(3)).with("z", Json::integer(4)))
        .with("b", Json::array().push(Json::integer(9)));
    let m = merge(base, overlay);
    let a = m.get("a").unwrap();
    assert_eq!(a.get("x").unwrap(), &Json::Int(1));
    assert_eq!(a.get("y").unwrap(), &Json::Int(3));
    assert_eq!(a.get("z").unwrap(), &Json::Int(4));
    assert_eq!(m.get("b").unwrap(), &Json::array().push(Json::integer(9)));
    assert_eq!(merge(Json::integer(1), Json::text("s")), Json::text("s"));
}

#[test]
fn six_repositories() {
    let r = repos();
    let names: Vec<&str> = r.iter().map(|x| x.name).collect();
    assert_eq!(names, vec!["cnpg", "seaweedfs", "lakekeeper", "trino", "apache-airflow", "superset"]);
}


#[test]
fn yaml_parses_into_documents() {
    let j = parse_yaml("a:\n  b: [1, x]\nc: true\n").unwrap();
    let b = j.get("a").unwrap().get("b").unwrap();
    assert_eq!(b.at(0).unwrap(), &Json::Num("1".to_string()));
    assert_eq!(b.at(1).unwrap().as_str(), Some("x"));
    assert_eq!(j.get("c").unwrap(), &Json::Bool(true));
    assert!(parse_yaml("a: [1, 2").is_none());
}

#[test]
fn embedded_values_parse_for_every_chart() {
    let ev = EmbeddedValues::parse("lake").unwrap();
    for v in [&ev.seaweedfs, &ev.lakekeeper, &ev.trino, &ev.airflow, &ev.superset] {
        assert!(matches!(v, Json::Obj(_)));
    }
    assert_eq!(parsed_values(&Chart::cnpg(), "lake"), Some(Json::object()));
    let text = embedded_values(values_document(&Chart::trino()).unwrap(), "lake");
    assert_eq!(parse_yaml(&text), Some(ev.trino));
}
