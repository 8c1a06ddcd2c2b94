use stardelt_operator::api::platform_instance::{
    Components, IngressSpec, IngressSsoSpec, InstanceMeta, KeycloakSsoSpec, PlatformInstance,
    PlatformInstanceSpec, PlatformInstanceStatus, S3Spec, StorageSpec, TlsSpec,
};
use stardelt_operator::controllers::platform_instance::{
    finish, gate_on_ready, probe_gate, Command, EmbeddedValues, Gate, Pass, Probe, Target,
};
use stardelt_operator::json::Json;
use stardelt_operator::readiness::{condition, Condition};

fn pi_with_ingress(yes: bool) -> PlatformInstance {
    let ingress = if yes {
        Some(IngressSpec {
            domain: "lab.stardelt.io".to_string(),
            sso: IngressSsoSpec::for_org("stardelt".to_string()),
            tls: TlsSpec::default(),
        })
    } else {
        None
    };
    PlatformInstance {
        metadata: InstanceMeta { name: "t".to_string(), uid: None, generation: None },
        spec: PlatformInstanceSpec {
            namespace: "stardelt".to_string(),
            s3: S3Spec::default(),
            storage: StorageSpec::default(),
            components: Components::default(),
            chart_versions: None,
            ingress,
            sso: None,
        },
        status: None,
    }
}

#[test]
fn ingress_step_runs_only_when_requested() {
    assert!(pi_with_ingress(true).spec.ingress.is_some());
    assert!(pi_with_ingress(false).spec.ingress.is_none());
}

fn values() -> EmbeddedValues {
    EmbeddedValues {
        seaweedfs: Json::object(),
        lakekeeper: Json::object(),
        trino: Json::object(),
        airflow: Json::object(),
        superset: Json::object(),
    }
}

/// An object that passes every probe.
fn ready_object() -> Json {
    let ready = Json::object().with("type", Json::text("Ready")).with("status", Json::text("True"));
    Json::object().with(
        "status",
        Json::object()
            .with("conditions", Json::array().push(ready))
            .with("succeeded", Json::integer(1))
            .with("availableReplicas", Json::integer(1)),
    )
}

struct Run {
    applied: Vec<(String, String)>,
    fetched: Vec<String>,
    name: String,
    status: Json,
    requeue_secs: u64,
}

/// Drive a pass to its end; `answer` decides what each fetch returns.
fn drive(pi: PlatformInstance, answer: &dyn Fn(&Target) -> Option<Json>) -> Run {
    drive_at(pi, answer, "2024-01-01T00:00:00Z")
}

/// Drive a pass to its end with the clock reading `now` throughout.
fn drive_at(pi: PlatformInstance, answer: &dyn Fn(&Target) -> Option<Json>, now: &str) -> Run {
    let mut pass = Pass::start(pi, values(), 300, 10);
    let mut applied = Vec::new();
    let mut fetched = Vec::new();
    for _ in 0..1000 {
        match pass.command() {
            Command::Apply { target, body: _ } => {
                applied.push((target.gvk.kind.clone(), target.name.clone()));
                pass = pass.advance(None, now);
            }
            Command::Fetch { target } => {
                fetched.push(target.name.clone());
                let obs = answer(&target);
                pass = pass.advance(obs, now);
            }
            Command::PatchStatus { name, body, requeue_secs } => {
                assert!(pass.is_finished());
                return Run { applied, fetched, name, status: body, requeue_secs };
            }
        }
    }
    panic!("the pass did not finish");
}

fn status_text<'a>(run: &'a Run, key: &str) -> &'a str {
    run.status.get("status").unwrap().get(key).unwrap().as_str().unwrap()
}

/// `(status, reason, lastTransitionTime)` of the condition of type `t`.
fn condition_of(run: &Run, t: &str) -> Option<(String, String, String)> {
    let cs = run.status.get("status").unwrap().get("conditions").unwrap();
    for i in 0..cs.len() {
        let c = cs.at(i).unwrap();
        if c.get("type").unwrap().as_str() == Some(t) {
            let f = |k: &str| c.get(k).unwrap().as_str().unwrap().to_string();
            return Some((f("status"), f("reason"), f("lastTransitionTime")));
        }
    }
    None
}

#[test]
fn every_step_ready_finishes_ready_and_resyncs() {
    let run = drive(pi_with_ingress(false), &|_t: &Target| Some(ready_object()));
    assert_eq!(run.name, "t");
    assert_eq!(run.requeue_secs, 300);
    assert_eq!(status_text(&run, "phase"), "Ready");
    assert_eq!(status_text(&run, "ready"), "True");
    assert_eq!(run.status.get("kind").unwrap().as_str(), Some("PlatformInstance"));
    assert_eq!(
        run.status.get("apiVersion").unwrap().as_str(),
        Some("platform.stardelt.io/v1alpha1")
    );
    for step in [
        "HelmReposReady",
        "CNPGOperatorReady",
        "PostgresReady",
        "SeaweedFSReady",
        "S3CredentialsReady",
        "LakekeeperReady",
        "WarehouseReady",
        "TrinoReady",
        "AirflowReady",
        "SupersetReady",
        "NovaReady",
    ] {
        let (status, _, _) = condition_of(&run, step).unwrap_or_else(|| panic!("no {step}"));
        assert_eq!(status, "True", "{step}");
    }
    assert_eq!(condition_of(&run, "Ready").unwrap().1, "AllComponentsReady");
    assert!(condition_of(&run, "KeycloakReady").is_none());
    assert!(condition_of(&run, "IngressReady").is_none());
    // Namespace first, then the six repositories.
    assert_eq!(run.applied[0], ("Namespace".to_string(), "stardelt".to_string()));
    let repos: Vec<&str> = run.applied[1..7].iter().map(|(_, n)| n.as_str()).collect();
    assert_eq!(repos, vec!["cnpg", "seaweedfs", "lakekeeper", "trino", "apache-airflow", "superset"]);
    assert!(run.applied.iter().all(|(k, _)| k != "Ingress"));
}

#[test]
fn missing_operator_release_stops_at_the_first_gate() {
    let run = drive(pi_with_ingress(false), &|_t: &Target| None);
    assert_eq!(run.requeue_secs, 10);
    assert_eq!(status_text(&run, "phase"), "Reconciling: CNPGOperatorReady");
    assert_eq!(status_text(&run, "ready"), "False");
    let (status, reason, _) = condition_of(&run, "CNPGOperatorReady").unwrap();
    assert_eq!((status.as_str(), reason.as_str()), ("False", "NotFound"));
    assert_eq!(condition_of(&run, "Ready").unwrap().1, "Progressing");
    assert_eq!(condition_of(&run, "HelmReposReady").unwrap().0, "True");
    assert!(condition_of(&run, "PostgresReady").is_none());
    assert_eq!(run.fetched, vec!["cnpg".to_string()]);
}

#[test]
fn release_without_ready_condition_is_not_ready() {
    let run = drive(pi_with_ingress(false), &|t: &Target| {
        if t.name == "seaweedfs" {
            Some(Json::object().with("status", Json::object()))
        } else {
            Some(ready_object())
        }
    });
    assert_eq!(status_text(&run, "phase"), "Reconciling: SeaweedFSReady");
    let (status, reason, _) = condition_of(&run, "SeaweedFSReady").unwrap();
    assert_eq!((status.as_str(), reason.as_str()), ("False", "NotReady"));
    assert_eq!(condition_of(&run, "PostgresReady").unwrap().0, "True");
    assert!(condition_of(&run, "S3CredentialsReady").is_none());
}

#[test]
fn running_bootstrap_job_gates_the_warehouse() {
    let run = drive(pi_with_ingress(false), &|t: &Target| {
        if t.gvk.kind == "Job" {
            Some(Json::object().with("status", Json::object().with("succeeded", Json::integer(0))))
        } else {
            Some(ready_object())
        }
    });
    assert_eq!(status_text(&run, "phase"), "Reconciling: WarehouseReady");
    let (status, reason, _) = condition_of(&run, "WarehouseReady").unwrap();
    assert_eq!((status.as_str(), reason.as_str()), ("False", "JobRunning"));
    assert_eq!(condition_of(&run, "S3CredentialsReady").unwrap().0, "True");
    assert_eq!(condition_of(&run, "LakekeeperReady").unwrap().0, "True");
}

#[test]
fn nova_without_available_replicas_is_starting() {
    let run = drive(pi_with_ingress(false), &|t: &Target| {
        if t.gvk.kind == "Deployment" {
            Some(Json::object().with("status", Json::object()))
        } else {
            Some(ready_object())
        }
    });
    let (status, reason, _) = condition_of(&run, "NovaReady").unwrap();
    assert_eq!((status.as_str(), reason.as_str()), ("False", "Starting"));
}

#[test]
fn disabled_components_are_skipped() {
    let mut pi = pi_with_ingress(false);
    pi.spec.components.airflow_enabled = false;
    pi.spec.components.superset_enabled = false;
    let run = drive(pi, &|_t: &Target| Some(ready_object()));
    assert_eq!(status_text(&run, "phase"), "Ready");
    assert!(condition_of(&run, "AirflowReady").is_none());
    assert!(condition_of(&run, "SupersetReady").is_none());
    assert!(!run.fetched.iter().any(|n| n == "airflow" || n == "superset"));
    assert!(!run.applied.iter().any(|(k, n)| k == "HelmRelease" && (n == "airflow" || n == "superset")));
}

#[test]
fn sso_and_ingress_steps_run_when_requested() {
    let mut pi = pi_with_ingress(true);
    pi.spec.sso = Some(KeycloakSsoSpec::new(
        "lab.stardelt.io".to_string(),
        "keycloak-github-broker".to_string(),
    ));
    let run = drive(pi, &|_t: &Target| Some(ready_object()));
    assert_eq!(status_text(&run, "phase"), "Ready");
    assert_eq!(condition_of(&run, "KeycloakReady").unwrap().0, "True");
    assert_eq!(condition_of(&run, "IngressReady").unwrap().0, "True");
    assert!(run.applied.iter().any(|(k, n)| k == "ClusterIssuer" && !n.is_empty()));
    assert!(run.applied.iter().any(|(k, n)| k == "Ingress" && n == "stardelt-uis"));
    // Keycloak comes before Nova.
    let kc = run.fetched.iter().position(|n| n == "keycloak").unwrap();
    let nova = run.fetched.iter().position(|n| n == "nova").unwrap();
    assert!(kc < nova);
}

#[test]
fn pending_certificate_reports_certificate_issuing() {
    let run = drive(pi_with_ingress(true), &|t: &Target| {
        if t.gvk.kind == "Certificate" {
            None
        } else {
            Some(ready_object())
        }
    });
    assert_eq!(status_text(&run, "phase"), "Reconciling: IngressReady");
    let (status, reason, _) = condition_of(&run, "IngressReady").unwrap();
    assert_eq!((status.as_str(), reason.as_str()), ("False", "CertificateIssuing"));
    assert_eq!(condition_of(&run, "NovaReady").unwrap().0, "True");
}

#[test]
fn unchanged_conditions_keep_their_transition_time() {
    let mut pi = pi_with_ingress(false);
    pi.metadata.generation = Some(4);
    let earlier = Condition {
        type_: "HelmReposReady".to_string(),
        status: "True".to_string(),
        reason: "Applied".to_string(),
        message: "HelmReposReady: Applied".to_string(),
        last_transition_time: "2020-01-01T00:00:00Z".to_string(),
    };
    let flipped = Condition {
        type_: "CNPGOperatorReady".to_string(),
        status: "False".to_string(),
        reason: "NotFound".to_string(),
        message: "CNPGOperatorReady: NotFound".to_string(),
        last_transition_time: "2020-01-01T00:00:00Z".to_string(),
    };
    let mut status = PlatformInstanceStatus::default();
    status.conditions = vec![earlier, flipped];
    pi.status = Some(status);
    let run = drive(pi, &|_t: &Target| Some(ready_object()));
    let (_, _, t) = condition_of(&run, "HelmReposReady").unwrap();
    assert_eq!(t, "2020-01-01T00:00:00Z");
    let (s, _, t) = condition_of(&run, "CNPGOperatorReady").unwrap();
    assert_eq!(s, "True");
    assert_eq!(t, "2024-01-01T00:00:00Z");
    let gen = run.status.get("status").unwrap().get("observedGeneration").unwrap().as_int();
    assert_eq!(gen, Some(4));
}

#[test]
fn finished_pass_does_not_move() {
    let mut pass = Pass::start(pi_with_ingress(false), values(), 300, 10);
    while !pass.is_finished() {
        pass = match pass.command() {
            Command::Fetch { .. } => pass.advance(None, "now"),
            _ => pass.advance(None, "now"),
        };
    }
    let before = match pass.command() {
        Command::PatchStatus { body, .. } => body,
        _ => panic!("expected the status patch"),
    };
    let pass = pass.advance(Some(ready_object()), "later");
    match pass.command() {
        Command::PatchStatus { body, requeue_secs, .. } => {
            assert_eq!(body, before);
            assert_eq!(requeue_secs, 10);
        }
        _ => panic!("expected the status patch"),
    }
}

#[test]
fn gates_judge_fetched_objects() {
    assert!(matches!(gate_on_ready(None), Gate::Pending("NotFound")));
    assert!(matches!(gate_on_ready(Some(Json::object())), Gate::Pending("NotReady")));
    assert!(matches!(gate_on_ready(Some(ready_object())), Gate::Ready));
    let job = |n: i64| Json::object().with("status", Json::object().with("succeeded", Json::integer(n)));
    assert!(matches!(probe_gate(Probe::JobSucceeded, Some(job(1))), Gate::Ready));
    assert!(matches!(probe_gate(Probe::JobSucceeded, Some(job(0))), Gate::Pending("JobRunning")));
    assert!(matches!(probe_gate(Probe::JobSucceeded, None), Gate::Pending("JobRunning")));
    assert!(matches!(probe_gate(Probe::ReplicasAvailable, None), Gate::Pending("Starting")));
    let dep = Json::object().with("status", Json::object().with("availableReplicas", Json::integer(2)));
    assert!(matches!(probe_gate(Probe::ReplicasAvailable, Some(dep)), Gate::Ready));
}

#[test]
fn record_condition_message_joins_type_and_reason() {
    let c = condition("NovaReady", false, "Starting", "NovaReady: Starting".to_string());
    assert_eq!(c.status, "False");
    assert_eq!(c.message, "NovaReady: Starting");
}

fn cond(t: &str, status: &str) -> Condition {
    Condition {
        type_: t.to_string(),
        status: status.to_string(),
        reason: "r".to_string(),
        message: "m".to_string(),
        last_transition_time: "2020-01-01T00:00:00Z".to_string(),
    }
}

#[test]
fn stale_ready_condition_does_not_name_the_phase() {
    let mut cs = vec![
        cond("HelmReposReady", "True"),
        cond("CNPGOperatorReady", "True"),
        cond("Ready", "False"),
        cond("PostgresReady", "False"),
    ];
    let body = finish(&mut cs, false, 1, "2024-01-01T00:00:00Z");
    let status = body.get("status").unwrap();
    assert_eq!(status.get("phase").unwrap().as_str(), Some("Reconciling: PostgresReady"));
    assert_eq!(cs[2].message, "Reconciling: PostgresReady");
    assert_eq!(cs[2].last_transition_time, "2020-01-01T00:00:00Z");
}

/// The conditions of a status patch, read back as the next pass sees them.
fn conditions_of(run: &Run) -> Vec<Condition> {
    let cs = run.status.get("status").unwrap().get("conditions").unwrap();
    (0..cs.len())
        .map(|i| {
            let c = cs.at(i).unwrap();
            let f = |k: &str| c.get(k).unwrap().as_str().unwrap().to_string();
            Condition {
                type_: f("type"),
                status: f("status"),
                reason: f("reason"),
                message: f("message"),
                last_transition_time: f("lastTransitionTime"),
            }
        })
        .collect()
}

fn rerun_matches(answer: &dyn Fn(&Target) -> Option<Json>) {
    let first = drive_at(pi_with_ingress(true), answer, "2024-01-01T00:00:00Z");
    let mut pi = pi_with_ingress(true);
    let mut status = PlatformInstanceStatus::default();
    status.conditions = conditions_of(&first);
    pi.status = Some(status);
    let second = drive_at(pi, answer, "2024-02-02T00:00:00Z");
    assert_eq!(second.status, first.status);
    assert_eq!(second.requeue_secs, first.requeue_secs);
}

#[test]
fn unchanged_cluster_gives_identical_status_when_ready() {
    rerun_matches(&|_t: &Target| Some(ready_object()));
}

#[test]
fn unchanged_cluster_gives_identical_status_when_pending() {
    rerun_matches(&|t: &Target| if t.gvk.kind == "Job" { None } else { Some(ready_object()) });
}

#[test]
fn begin_parses_the_embedded_values() {
    let pass = Pass::begin(pi_with_ingress(false), 300, 10).unwrap();
    assert!(!pass.is_finished());
    assert!(matches!(pass.command(), Command::Apply { .. }));
}
