//! The `PlatformInstance` custom resource (`platform.stardelt.io/v1alpha1`).
//!
//! Cluster-scoped. A single `PlatformInstance` declares the whole stardelt core
//! stack as one unit; its controller reconciles the components in dependency
//! order and records per-component readiness in `status.conditions`.
use vstd::prelude::*;

use crate::readiness::Condition;

pub mod chart_versions;

verus! {

/// API group of the custom resource.
pub const GROUP: &'static str = "platform.stardelt.io";

/// API version of the custom resource.
pub const VERSION: &'static str = "v1alpha1";

/// `apiVersion` of the custom resource.
pub const API_VERSION: &'static str = "platform.stardelt.io/v1alpha1";

/// `kind` of the custom resource.
pub const KIND: &'static str = "PlatformInstance";

/// Desired state of the platform.
#[derive(Debug, Clone)]
pub struct PlatformInstanceSpec {
    /// Target namespace for the stack. Default: `stardelt`.
    pub namespace: String,
    /// Object-storage settings; drive both the SeaweedFS values and the
    /// `ozone-s3-creds` Secret, so they always match.
    pub s3: S3Spec,
    /// Persistent-volume sizing for the data plane.
    pub storage: StorageSpec,
    /// Per-component knobs and enable flags.
    pub components: Components,
    /// Optional chart-version overrides; the pinned versions apply when unset.
    pub chart_versions: Option<ChartVersionOverrides>,
    /// Optional public ingress with forward-auth SSO.
    pub ingress: Option<IngressSpec>,
    /// Optional Keycloak SSO for Nova.
    pub sso: Option<KeycloakSsoSpec>,
}

#[derive(Debug, Clone)]
pub struct S3Spec {
    pub access_key: String,
    pub secret_key: String,
    pub bucket: String,
    pub region: String,
}

impl Default for S3Spec {
    fn default() -> (r: Self)
        ensures
            r.access_key@ == "stardelt-access-key"@,
            r.secret_key@ == "stardelt-secret-key"@,
            r.bucket@ == "lakehouse"@,
            r.region@ == "us-east-1"@,
    {
        S3Spec {
            access_key: "stardelt-access-key".to_string(),
            secret_key: "stardelt-secret-key".to_string(),
            bucket: "lakehouse".to_string(),
            region: "us-east-1".to_string(),
        }
    }
}

#[derive(Debug, Clone)]
pub struct StorageSpec {
    /// SeaweedFS volume-server data size. Default `20Gi`.
    pub volume_size: String,
    /// CNPG Postgres data size. Default `2Gi`.
    pub postgres_size: String,
}

impl Default for StorageSpec {
    fn default() -> (r: Self)
        ensures
            r.volume_size@ == "20Gi"@,
            r.postgres_size@ == "2Gi"@,
    {
        StorageSpec { volume_size: default_volume_size(), postgres_size: default_pg_size() }
    }
}

#[derive(Debug, Clone)]
pub struct Components {
    pub trino: TrinoSpec,
    pub airflow_enabled: bool,
    pub superset_enabled: bool,
    pub nova: NovaSpec,
}

impl Default for Components {
    fn default() -> (r: Self)
        ensures
            r.trino.workers == 1,
            r.airflow_enabled,
            r.superset_enabled,
            r.nova.image@ == "stardelt/nova:dev"@,
    {
        Components {
            trino: TrinoSpec::default(),
            airflow_enabled: true,
            superset_enabled: true,
            nova: NovaSpec::default(),
        }
    }
}

#[derive(Debug, Clone)]
pub struct TrinoSpec {
    pub workers: u32,
}

impl Default for TrinoSpec {
    fn default() -> (r: Self)
        ensures
            r.workers == 1,
    {
        TrinoSpec { workers: default_workers() }
    }
}

#[derive(Debug, Clone)]
pub struct NovaSpec {
    pub image: String,
}

impl Default for NovaSpec {
    fn default() -> (r: Self)
        ensures
            r.image@ == "stardelt/nova:dev"@,
    {
        NovaSpec { image: default_nova_image() }
    }
}

/// Per-chart version overrides; `None` keeps the pinned version.
#[derive(Debug, Clone)]
pub struct ChartVersionOverrides {
    pub cnpg: Option<String>,
    pub seaweedfs: Option<String>,
    pub lakekeeper: Option<String>,
    pub trino: Option<String>,
    pub airflow: Option<String>,
    pub superset: Option<String>,
}

impl Default for ChartVersionOverrides {
    fn default() -> (r: Self)
        ensures
            r.cnpg is None,
            r.seaweedfs is None,
            r.lakekeeper is None,
            r.trino is None,
            r.airflow is None,
            r.superset is None,
    {
        ChartVersionOverrides {
            cnpg: None,
            seaweedfs: None,
            lakekeeper: None,
            trino: None,
            airflow: None,
            superset: None,
        }
    }
}

/// Public ingress: wildcard TLS certificate, oauth2-proxy forward-auth and the
/// per-service hosts under `domain`.
#[derive(Debug, Clone)]
pub struct IngressSpec {
    /// Base domain; UIs are served at `<service>.<domain>`.
    pub domain: String,
    /// oauth2-proxy settings.
    pub sso: IngressSsoSpec,
    /// ACME settings for the wildcard certificate.
    pub tls: TlsSpec,
}

/// oauth2-proxy settings.
#[derive(Debug, Clone)]
pub struct IngressSsoSpec {
    /// GitHub organisation whose members may sign in.
    pub org_name: String,
    /// oauth2-proxy provider. Default `github`.
    pub provider: String,
    /// Secret holding `client-id`, `client-secret` and `cookie-secret`.
    /// Default `oauth2-proxy-creds`.
    pub credentials_secret: String,
}

impl IngressSsoSpec {
    /// The settings for `org_name` with every other field at its default.
    pub fn for_org(org_name: String) -> (r: Self)
        ensures
            r.org_name@ == org_name@,
            r.provider@ == "github"@,
            r.credentials_secret@ == "oauth2-proxy-creds"@,
    {
        IngressSsoSpec {
            org_name,
            provider: "github".to_string(),
            credentials_secret: "oauth2-proxy-creds".to_string(),
        }
    }
}

/// ACME issuer settings.
#[derive(Debug, Clone)]
pub struct TlsSpec {
    /// ACME directory URL. Default: Let's Encrypt production.
    pub acme_server: String,
    /// ACME account e-mail. Default `admin@stardelt.io`.
    pub email: String,
}

impl Default for TlsSpec {
    fn default() -> (r: Self)
        ensures
            r.acme_server@ == "https://acme-v02.api.letsencrypt.org/directory"@,
            r.email@ == "admin@stardelt.io"@,
    {
        TlsSpec {
            acme_server: "https://acme-v02.api.letsencrypt.org/directory".to_string(),
            email: "admin@stardelt.io".to_string(),
        }
    }
}

/// Keycloak SSO for Nova.
#[derive(Debug, Clone)]
pub struct KeycloakSsoSpec {
    /// Base domain; Keycloak is served at `auth.<domain>`.
    pub domain: String,
    /// Realm holding the Nova client. Default `stardelt`.
    pub realm: String,
    /// Secret holding the GitHub OAuth app's `client-id` / `client-secret`.
    pub github_broker_secret: String,
    /// OIDC client id of Nova. Default `nova`.
    pub nova_client_id: String,
}

impl KeycloakSsoSpec {
    /// The settings for `domain` and the broker secret, other fields defaulted.
    pub fn new(domain: String, github_broker_secret: String) -> (r: Self)
        ensures
            r.domain@ == domain@,
            r.github_broker_secret@ == github_broker_secret@,
            r.realm@ == "stardelt"@,
            r.nova_client_id@ == "nova"@,
    {
        KeycloakSsoSpec {
            domain,
            realm: "stardelt".to_string(),
            github_broker_secret,
            nova_client_id: "nova".to_string(),
        }
    }
}

/// Operator-managed status. `conditions` carries one entry per reconcile step
/// plus a top-level `Ready`.
#[derive(Debug, Clone)]
pub struct PlatformInstanceStatus {
    /// Human-readable summary, e.g. `Reconciling: LakekeeperReady` or `Ready`.
    pub phase: String,
    /// `"True"` once every component is ready, else `"False"`.
    pub ready: String,
    /// The `.metadata.generation` this status reflects.
    pub observed_generation: i64,
    pub conditions: Vec<Condition>,
}

impl Default for PlatformInstanceStatus {
    fn default() -> (r: Self)
        ensures
            r.phase@ == Seq::<char>::empty(),
            r.ready@ == Seq::<char>::empty(),
            r.observed_generation == 0,
            r.conditions@.len() == 0,
    {
        PlatformInstanceStatus {
            phase: String::new(),
            ready: String::new(),
            observed_generation: 0,
            conditions: Vec::new(),
        }
    }
}

/// The object metadata the controller reads.
#[derive(Debug, Clone)]
pub struct InstanceMeta {
    pub name: String,
    pub uid: Option<String>,
    pub generation: Option<i64>,
}

/// A `PlatformInstance` object as handed to the controller.
#[derive(Debug, Clone)]
pub struct PlatformInstance {
    pub metadata: InstanceMeta,
    pub spec: PlatformInstanceSpec,
    pub status: Option<PlatformInstanceStatus>,
}

pub fn default_namespace() -> (r: String)
    ensures
        r@ == "stardelt"@,
{
    "stardelt".to_string()
}

pub fn default_volume_size() -> (r: String)
    ensures
        r@ == "20Gi"@,
{
    "20Gi".to_string()
}

pub fn default_pg_size() -> (r: String)
    ensures
        r@ == "2Gi"@,
{
    "2Gi".to_string()
}

pub fn default_workers() -> (r: u32)
    ensures
        r == 1,
{
    1
}

pub fn default_true() -> (r: bool)
    ensures
        r,
{
    true
}

pub fn default_nova_image() -> (r: String)
    ensures
        r@ == "stardelt/nova:dev"@,
{
    "stardelt/nova:dev".to_string()
}

} // verus!
