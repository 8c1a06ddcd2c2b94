use stardelt_operator::api::platform_instance::{
    Components, InstanceMeta, KeycloakSsoSpec, PlatformInstance, PlatformInstanceSpec, S3Spec,
    StorageSpec,
};
use stardelt_operator::json::Json;
use stardelt_operator::resources::{
    bootstrap, cnpg, keycloak, keycloak_bootstrap, keycloak_pg, labels, nova, object_meta, secret,
};

fn instance(ns: &str, sso: Option<KeycloakSsoSpec>) -> PlatformInstance {
    PlatformInstance {
        metadata: InstanceMeta { name: "t".to_string(), uid: None, generation: None },
        spec: PlatformInstanceSpec {
            namespace: ns.to_string(),
            s3: S3Spec::default(),
            storage: StorageSpec::default(),
            components: Components::default(),
            chart_versions: None,
            ingress: None,
            sso,
        },
        status: None,
    }
}

fn sso() -> KeycloakSsoSpec {
    KeycloakSsoSpec::new("lab.stardelt.io".to_string(), "keycloak-github-broker".to_string())
}

/// The serialized form of a default (empty) owner reference.
fn default_owner() -> Json {
    Json::object()
        .with("apiVersion", Json::text(""))
        .with("kind", Json::text(""))
        .with("name", Json::text(""))
        .with("uid", Json::text(""))
}

fn at<'a>(j: &'a Json, path: &[&str]) -> &'a Json {
    let mut cur = j;
    for k in path {
        cur = cur.get(k).unwrap_or_else(|| panic!("missing key {k}"));
    }
    cur
}

fn text(j: &Json) -> &str {
    j.as_str().expect("a string")
}

fn env_names(container: &Json) -> Vec<String> {
    let env = at(container, &["env"]);
    (0..env.len()).map(|i| text(at(env.at(i).unwrap(), &["name"])).to_string()).collect()
}

#[test]
fn bootstrap_job_builds() {
    let pi = instance("lake", None);
    let job = bootstrap::build(&pi, default_owner());
    assert_eq!(text(at(&job, &["metadata", "name"])), bootstrap::JOB_NAME);
    assert_eq!(text(at(&job, &["metadata", "namespace"])), "lake");
    let container = at(&job, &["spec", "template", "spec", "containers"]).at(0).unwrap();
    let names = env_names(container);
    assert!(names.iter().any(|n| n == "S3_ACCESS_KEY"));
    assert!(names.iter().any(|n| n == "LK"));
}

#[test]
fn bootstrap_job_reads_s3_secret() {
    let pi = instance("lake", None);
    let job = bootstrap::build(&pi, default_owner());
    let container = at(&job, &["spec", "template", "spec", "containers"]).at(0).unwrap();
    let env = at(container, &["env"]);
    assert_eq!(text(at(env.at(0).unwrap(), &["value"])), "http://lakekeeper.lake.svc.cluster.local:8181");
    let access = env.at(4).unwrap();
    assert_eq!(text(at(access, &["valueFrom", "secretKeyRef", "name"])), "ozone-s3-creds");
    assert_eq!(text(at(access, &["valueFrom", "secretKeyRef", "key"])), "access-key");
}

#[test]
fn issuer_url_includes_realm() {
    assert_eq!(keycloak::issuer_url(&sso()), "https://auth.lab.stardelt.io/realms/stardelt");
}

#[test]
fn repo_is_codecentric_http() {
    let repo = keycloak::codecentric_repository("stardelt", &Json::object());
    assert!(at(&repo, &["spec"]).get("type").is_none());
    assert_eq!(text(at(&repo, &["spec", "url"])), "https://codecentric.github.io/helm-charts");
}

#[test]
fn release_uses_external_keycloak_pg() {
    let hr = keycloak::release("stardelt", &Json::object());
    assert_eq!(text(at(&hr, &["spec", "chart", "spec", "chart"])), "keycloakx");
    assert_eq!(text(at(&hr, &["spec", "values", "database", "vendor"])), "postgres");
    assert_eq!(
        text(at(&hr, &["spec", "values", "database", "hostname"])),
        "keycloak-pg-rw.stardelt.svc.cluster.local"
    );
    assert_eq!(text(at(&hr, &["spec", "values", "database", "existingSecret"])), "keycloak-pg-app");
    assert_eq!(
        text(at(&hr, &["spec", "chart", "spec", "version"])),
        stardelt_operator::api::platform_instance::chart_versions::KEYCLOAK
    );
}

#[test]
fn admin_secret_is_stable_for_same_uid() {
    let a = keycloak::admin_secret("stardelt", "uid-x", &Json::object());
    let b = keycloak::admin_secret("stardelt", "uid-x", &Json::object());
    assert_eq!(at(&a, &["data"]), at(&b, &["data"]));
    assert_eq!(text(at(&a, &["metadata", "name"])), "keycloak-admin");
    assert!(text(at(&a, &["data", "admin-password"])).len() > 10);
}

#[test]
fn admin_secret_value_is_the_derived_password() {
    let a = keycloak::admin_secret("stardelt", "uid-x", &Json::object());
    assert_eq!(
        text(at(&a, &["data", "admin-password"])),
        "TWVHNW9tdVJhQ1psUzV5UnpPeHRXMFdSN0E1SU0xR0o="
    );
    let other = keycloak::admin_secret("stardelt", "uid-y", &Json::object());
    assert_ne!(at(&a, &["data"]), at(&other, &["data"]));
}

#[test]
fn auth_ingress_serves_keycloak_on_auth_host() {
    let ing = keycloak::auth_ingress(&sso(), "stardelt", &Json::object());
    let rule = at(&ing, &["spec", "rules"]).at(0).unwrap();
    assert_eq!(text(at(rule, &["host"])), "auth.lab.stardelt.io");
    let path = at(rule, &["http", "paths"]).at(0).unwrap();
    assert_eq!(text(at(path, &["backend", "service", "name"])), "keycloak-keycloakx-http");
}

#[test]
fn bootstrap_job_builds_with_broker_env() {
    let pi = instance("stardelt", Some(sso()));
    let s = pi.spec.sso.clone().unwrap();
    let job = keycloak_bootstrap::build(&pi, &s, default_owner());
    let c = at(&job, &["spec", "template", "spec", "containers"]).at(0).unwrap();
    let names = env_names(c);
    assert!(names.iter().any(|n| n == "GH_CLIENT_ID"));
    assert!(names.iter().any(|n| n == "NOVA_CLIENT_SECRET"));
    assert!(text(at(c, &["image"])).contains("keycloak"));
}

#[test]
fn nova_oidc_secret_is_stable_for_same_uid() {
    let s1 = keycloak_bootstrap::nova_oidc_secret("stardelt", "uid-abc", &Json::object());
    let s2 = keycloak_bootstrap::nova_oidc_secret("stardelt", "uid-abc", &Json::object());
    assert_eq!(at(&s1, &["data"]), at(&s2, &["data"]), "same uid -> same secret");
    assert_eq!(text(at(&s1, &["metadata", "name"])), "nova-oidc");
    assert!(text(at(&s1, &["data", "client-secret"])).len() > 10);
}

#[test]
fn nova_oidc_secret_value_is_the_derived_secret() {
    let s1 = keycloak_bootstrap::nova_oidc_secret("stardelt", "uid-abc", &Json::object());
    assert_eq!(
        text(at(&s1, &["data", "client-secret"])),
        "MFV3bk00UFFzN282S29OUkg4Unp3R1lKdnlXRWgtUGJMWUVVRExkR0Zxaw=="
    );
    assert_eq!(text(at(&s1, &["type"])), "Opaque");
}

#[test]
fn keycloak_pg_initdb_targets_keycloak_db() {
    let c = keycloak_pg::build(&instance("stardelt", None), Json::object());
    assert_eq!(text(at(&c, &["spec", "bootstrap", "initdb", "database"])), "keycloak");
    assert_eq!(text(at(&c, &["metadata", "name"])), "keycloak-pg");
}

#[test]
fn lakekeeper_pg_uses_postgres_size() {
    let mut pi = instance("lake", None);
    pi.spec.storage.postgres_size = "5Gi".to_string();
    let c = cnpg::build(&pi, Json::object());
    assert_eq!(text(at(&c, &["metadata", "name"])), "lakekeeper-pg");
    assert_eq!(text(at(&c, &["metadata", "namespace"])), "lake");
    assert_eq!(text(at(&c, &["spec", "storage", "size"])), "5Gi");
    assert_eq!(at(&c, &["spec", "instances"]).as_int(), Some(1));
    assert_eq!(text(at(&c, &["spec", "bootstrap", "initdb", "owner"])), "lakekeeper");
}

#[test]
fn deployment_and_service_build() {
    let pi = instance("lake", None);
    let dep = nova::deployment(&pi, default_owner());
    assert_eq!(text(at(&dep, &["metadata", "namespace"])), "lake");
    let svc = nova::service(&pi, default_owner());
    assert_eq!(text(at(&svc, &["metadata", "name"])), nova::NAME);
}

#[test]
fn deployment_has_oidc_env_when_sso_set() {
    let pi = instance("stardelt", Some(sso()));
    let dep = nova::deployment(&pi, default_owner());
    let c = at(&dep, &["spec", "template", "spec", "containers"]).at(0).unwrap();
    let names = env_names(c);
    assert!(names.iter().any(|n| n == "NOVA_OIDC_ISSUER"));
    assert!(names.iter().any(|n| n == "NOVA_OIDC_CLIENT_SECRET"));
}

#[test]
fn deployment_without_sso_uses_dev_user_only() {
    let pi = instance("lake", None);
    let dep = nova::deployment(&pi, default_owner());
    let c = at(&dep, &["spec", "template", "spec", "containers"]).at(0).unwrap();
    let names = env_names(c);
    assert_eq!(
        names,
        vec!["NOVA_TRINO_URL", "NOVA_LAKEKEEPER_URL", "NOVA_WAREHOUSE_NAME", "NOVA_DEV_USER", "RUST_LOG"]
    );
    let env = at(c, &["env"]);
    assert_eq!(text(at(env.at(0).unwrap(), &["value"])), "http://trino.lake.svc.cluster.local:8080");
    assert_eq!(text(at(c, &["image"])), "stardelt/nova:dev");
}

#[test]
fn s3_secret_carries_spec_credentials() {
    let mut pi = instance("lake", None);
    pi.spec.s3.access_key = "ak".to_string();
    let s = secret::build(&pi, default_owner());
    assert_eq!(text(at(&s, &["metadata", "name"])), "ozone-s3-creds");
    assert_eq!(text(at(&s, &["stringData", "access-key"])), "ak");
    assert_eq!(text(at(&s, &["stringData", "secret-key"])), "stardelt-secret-key");
    assert_eq!(text(at(&s, &["stringData", "bucket"])), "lakehouse");
    assert_eq!(text(at(&s, &["stringData", "region"])), "us-east-1");
    assert_eq!(
        text(at(&s, &["stringData", "endpoint"])),
        "http://seaweedfs-s3.lake.svc.cluster.local:8333"
    );
    assert_eq!(secret::s3_endpoint("x"), "http://seaweedfs-s3.x.svc.cluster.local:8333");
}

#[test]
fn object_meta_carries_labels_and_owner() {
    let m = object_meta("a", "ns", Json::text("owner"));
    assert_eq!(text(at(&m, &["name"])), "a");
    assert_eq!(text(at(&m, &["namespace"])), "ns");
    assert_eq!(at(&m, &["labels"]), &labels());
    assert_eq!(text(at(&labels(), &["app.kubernetes.io/managed-by"])), "stardelt-operator");
    assert_eq!(text(at(&labels(), &["app.kubernetes.io/part-of"])), "stardelt");
    assert_eq!(text(at(&m, &["ownerReferences"]).at(0).unwrap()), "owner");
}

#[test]
fn service_and_lakekeeper_urls() {
    assert_eq!(keycloak::service_url("ns"), "http://keycloak-keycloakx-http.ns.svc.cluster.local");
    assert_eq!(bootstrap::lakekeeper_url("ns"), "http://lakekeeper.ns.svc.cluster.local:8181");
}

#[test]
fn derived_secret_values_have_base64_lengths() {
    let a = keycloak::admin_secret("stardelt", "uid-x", &Json::object());
    assert_eq!(text(at(&a, &["data", "admin-password"])).len(), 44);
    let s = keycloak_bootstrap::nova_oidc_secret("stardelt", "uid-abc", &Json::object());
    assert_eq!(text(at(&s, &["data", "client-secret"])).len(), 60);
}

#[test]
fn nova_service_carries_standard_and_name_labels() {
    let pi = instance("lake", None);
    let svc = nova::service(&pi, default_owner());
    let l = at(&svc, &["metadata", "labels"]);
    assert_eq!(text(at(l, &["app.kubernetes.io/managed-by"])), "stardelt-operator");
    assert_eq!(text(at(l, &["app.kubernetes.io/part-of"])), "stardelt");
    assert_eq!(text(at(l, &["app.kubernetes.io/name"])), "nova");
    let sel = at(&svc, &["spec", "selector"]);
    assert_eq!(text(at(sel, &["app.kubernetes.io/name"])), "nova");
    assert_eq!(sel.len(), 1);
}
