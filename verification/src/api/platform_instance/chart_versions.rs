//! Pinned upstream chart versions and images.
use vstd::prelude::*;

verus! {

pub const CNPG: &'static str = "0.28.2";

pub const SEAWEEDFS: &'static str = "4.25.1";

pub const LAKEKEEPER: &'static str = "0.11.0";

pub const TRINO: &'static str = "1.42.2";

pub const AIRFLOW: &'static str = "1.21.0";

pub const SUPERSET: &'static str = "0.15.5";

/// codecentric/keycloakx chart.
pub const KEYCLOAK: &'static str = "7.2.0";

/// jetstack/cert-manager chart.
pub const CERT_MANAGER: &'static str = "v1.16.2";

/// oauth2-proxy image fronting the protected UIs.
pub const OAUTH2_PROXY_IMAGE: &'static str = "quay.io/oauth2-proxy/oauth2-proxy:v7.6.0";

} // verus!
