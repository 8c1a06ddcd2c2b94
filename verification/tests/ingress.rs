use stardelt_operator::api::platform_instance::chart_versions as cv;
use stardelt_operator::api::platform_instance::{
    Components, IngressSpec, IngressSsoSpec, InstanceMeta, PlatformInstance, PlatformInstanceSpec,
    S3Spec, StorageSpec, TlsSpec,
};
use stardelt_operator::json::Json;
use stardelt_operator::resources::ingress::{
    auth_errors_middleware, auth_ingress, cert_manager_release, certificate, cluster_issuer,
    forward_auth_middleware, jetstack_repository, oauth2_proxy_deployment, oauth2_proxy_service,
    uis_ingress, CERT_MANAGER_NAMESPACE, JETSTACK_REPO, WILDCARD_TLS_SECRET,
};

fn instance() -> PlatformInstance {
    PlatformInstance {
        metadata: InstanceMeta { name: "t".to_string(), uid: None, generation: None },
        spec: PlatformInstanceSpec {
            namespace: "stardelt".to_string(),
            s3: S3Spec::default(),
            storage: StorageSpec::default(),
            components: Components::default(),
            chart_versions: None,
            ingress: Some(IngressSpec {
                domain: "lab.stardelt.io".to_string(),
                sso: IngressSsoSpec::for_org("stardelt".to_string()),
                tls: TlsSpec::default(),
            }),
            sso: None,
        },
        status: None,
    }
}

fn ingress(pi: &PlatformInstance) -> &IngressSpec {
    pi.spec.ingress.as_ref().unwrap()
}

fn at<'a>(j: &'a Json, path: &[&str]) -> &'a Json {
    let mut cur = j;
    for k in path {
        cur = cur.get(k).unwrap_or_else(|| panic!("missing key {k}"));
    }
    cur
}

fn text(j: &Json) -> &str {
    j.as_str().expect("a string")
}

#[test]
fn cert_manager_release_pins_version_and_targets_namespace() {
    let owner = Json::object();
    let hr = cert_manager_release("stardelt", &owner);
    assert_eq!(text(at(&hr, &["spec", "chart", "spec", "version"])), cv::CERT_MANAGER);
    assert_eq!(text(at(&hr, &["spec", "targetNamespace"])), CERT_MANAGER_NAMESPACE);
    assert_eq!(at(&hr, &["spec", "values", "crds", "enabled"]), &Json::boolean(true));
}

#[test]
fn instance_carries_ingress() {
    let pi = instance();
    assert_eq!(ingress(&pi).domain, "lab.stardelt.io");
}

#[test]
fn cluster_issuer_uses_acme_server_and_cloudflare_solver() {
    let pi = instance();
    let ci = cluster_issuer(ingress(&pi), &Json::object());
    assert_eq!(
        text(at(&ci, &["spec", "acme", "server"])),
        "https://acme-v02.api.letsencrypt.org/directory"
    );
    assert_eq!(text(at(&ci, &["spec", "acme", "email"])), "admin@stardelt.io");
    let solver = at(&ci, &["spec", "acme", "solvers"]).at(0).unwrap();
    assert_eq!(
        text(at(solver, &["dns01", "cloudflare", "apiTokenSecretRef", "name"])),
        "cloudflare-api-token"
    );
}

#[test]
fn certificate_covers_wildcard_and_apex() {
    let pi = instance();
    let cert = certificate(ingress(&pi), "stardelt", &Json::object());
    assert_eq!(text(at(&cert, &["spec", "secretName"])), WILDCARD_TLS_SECRET);
    let names = at(&cert, &["spec", "dnsNames"]);
    assert_eq!(text(names.at(0).unwrap()), "*.lab.stardelt.io");
    assert_eq!(text(names.at(1).unwrap()), "lab.stardelt.io");
}

#[test]
fn oauth2_proxy_wires_org_domain_and_secret() {
    let pi = instance();
    let dep = oauth2_proxy_deployment(ingress(&pi), "stardelt", &Json::object());
    let c = at(&dep, &["spec", "template", "spec", "containers"]).at(0).unwrap();
    let args = at(c, &["args"]);
    let joined: Vec<String> = (0..args.len()).map(|i| text(args.at(i).unwrap()).to_string()).collect();
    assert!(joined.contains(&"--github-org=stardelt".to_string()));
    assert!(joined.contains(&"--cookie-domain=.lab.stardelt.io".to_string()));
    assert!(joined.contains(&"--redirect-url=https://auth.lab.stardelt.io/oauth2/callback".to_string()));
    assert_eq!(text(at(c, &["image"])), "quay.io/oauth2-proxy/oauth2-proxy:v7.6.0");
    // credentials come from the named secret
    let env = at(c, &["env"]).at(0).unwrap();
    assert_eq!(text(at(env, &["valueFrom", "secretKeyRef", "name"])), "oauth2-proxy-creds");
}

#[test]
fn oauth2_proxy_service_exposes_4180() {
    let svc = oauth2_proxy_service("stardelt", &Json::object());
    assert_eq!(at(&svc, &["spec", "ports"]).at(0).unwrap().get("port").unwrap().as_int(), Some(4180));
}

#[test]
fn middleware_points_forward_auth_at_oauth2_proxy() {
    let mw = forward_auth_middleware("stardelt", &Json::object());
    assert_eq!(
        text(at(&mw, &["spec", "forwardAuth", "address"])),
        "http://oauth2-proxy.stardelt.svc.cluster.local:4180/oauth2/auth"
    );
}

#[test]
fn auth_ingress_routes_to_oauth2_proxy() {
    let pi = instance();
    let ing_obj = auth_ingress(ingress(&pi), "stardelt", &Json::object());
    let rule = at(&ing_obj, &["spec", "rules"]).at(0).unwrap();
    assert_eq!(text(at(rule, &["host"])), "auth.lab.stardelt.io");
    let path = at(rule, &["http", "paths"]).at(0).unwrap();
    assert_eq!(text(at(path, &["backend", "service", "name"])), "oauth2-proxy");
}

#[test]
fn errors_middleware_redirects_401_to_sign_in() {
    let mw = auth_errors_middleware("stardelt", &Json::object());
    assert_eq!(text(at(&mw, &["spec", "errors", "status"]).at(0).unwrap()), "401-403");
    assert_eq!(text(at(&mw, &["spec", "errors", "service", "name"])), "oauth2-proxy");
    assert_eq!(at(&mw, &["spec", "errors", "service", "port"]).as_int(), Some(4180));
    assert_eq!(text(at(&mw, &["spec", "errors", "query"])), "/oauth2/sign_in?rd={url}");
}

#[test]
fn uis_ingress_covers_four_hosts_with_middleware() {
    let pi = instance();
    let ing_obj = uis_ingress(ingress(&pi), "stardelt", &Json::object());
    // errors middleware must precede forward-auth so it wraps the 401/403.
    assert_eq!(
        text(at(&ing_obj, &["metadata", "annotations", "traefik.ingress.kubernetes.io/router.middlewares"])),
        "stardelt-oauth2-errors@kubernetescrd,stardelt-oauth2-forward-auth@kubernetescrd"
    );
    let rules = at(&ing_obj, &["spec", "rules"]);
    let hosts: Vec<&str> = (0..rules.len()).map(|i| text(at(rules.at(i).unwrap(), &["host"]))).collect();
    assert_eq!(
        hosts,
        vec!["nova.lab.stardelt.io", "superset.lab.stardelt.io", "airflow.lab.stardelt.io", "trino.lab.stardelt.io"]
    );
}

#[test]
fn auth_ingress_is_not_behind_the_middleware() {
    let pi = instance();
    let ing_obj = auth_ingress(ingress(&pi), "stardelt", &Json::object());
    let annotations = at(&ing_obj, &["metadata", "annotations"]);
    assert!(annotations.get("traefik.ingress.kubernetes.io/router.middlewares").is_none());
    assert_eq!(
        text(at(annotations, &["traefik.ingress.kubernetes.io/router.entrypoints"])),
        "websecure"
    );
}

#[test]
fn jetstack_repository_points_at_jetstack() {
    let repo = jetstack_repository("ns", &Json::object());
    assert_eq!(text(at(&repo, &["metadata", "name"])), JETSTACK_REPO);
    assert_eq!(text(at(&repo, &["spec", "url"])), "https://charts.jetstack.io");
    assert_eq!(text(at(&repo, &["kind"])), "HelmRepository");
}

#[test]
fn oauth2_proxy_objects_carry_standard_labels() {
    let pi = instance();
    let ing = ingress(&pi);
    let dep = oauth2_proxy_deployment(ing, "stardelt", &Json::object());
    let svc = oauth2_proxy_service("stardelt", &Json::object());
    for obj in [&dep, &svc] {
        let l = at(obj, &["metadata", "labels"]);
        assert_eq!(text(at(l, &["app.kubernetes.io/managed-by"])), "stardelt-operator");
        assert_eq!(text(at(l, &["app.kubernetes.io/part-of"])), "stardelt");
        assert_eq!(text(at(l, &["app.kubernetes.io/name"])), "oauth2-proxy");
    }
    assert_eq!(at(&svc, &["spec", "selector"]).len(), 1);
}
