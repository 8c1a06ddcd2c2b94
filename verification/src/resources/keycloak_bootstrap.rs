//! The `keycloak-bootstrap` Job and the Nova OIDC client Secret.
//!
//! The Job idempotently configures the Keycloak realm: creates the realm, a
//! GitHub identity-provider broker (credentials from
//! `spec.sso.githubBrokerSecret`) and the Nova OIDC client, whose secret it
//! reads from the `nova-oidc` Secret. Uses `kcadm.sh` from the Keycloak image.
use vstd::prelude::*;

use crate::api::platform_instance::KeycloakSsoSpec;
use crate::api::PlatformInstance;
use crate::json;
use crate::json::{Json, JsonView};
use crate::resources;
use crate::resources::derived;
use crate::resources::keycloak;

verus! {

pub const JOB_NAME: &'static str = "keycloak-bootstrap";

/// Secret holding the Nova OIDC client secret; the Job and Nova read it.
pub const NOVA_OIDC_SECRET: &'static str = "nova-oidc";

/// Key of the client secret in [`NOVA_OIDC_SECRET`].
pub const CLIENT_SECRET_KEY: &'static str = "client-secret";

/// Seed of the Nova client-secret derivation (the FNV-1a offset basis).
pub const NOVA_SEED: u64 = 0xcbf29ce484222325;

/// The shell script the Job runs.
pub const SCRIPT: &'static str = "set -e
KC=/opt/keycloak/bin/kcadm.sh
$KC config credentials --server \"$KC_URL\" --realm master --user \"$KC_ADMIN\" --password \"$KC_ADMIN_PASSWORD\"

echo \"▶ ensure realm $REALM\"
if ! $KC get \"realms/$REALM\" >/dev/null 2>&1; then
  $KC create realms -s realm=\"$REALM\" -s enabled=true
  echo \"✓ realm created\"
else
  echo \"✓ realm exists\"
fi

echo \"▶ ensure github identity provider\"
if ! $KC get \"identity-provider/instances/github\" -r \"$REALM\" >/dev/null 2>&1; then
  $KC create identity-provider/instances -r \"$REALM\" \\
    -s alias=github -s providerId=github -s enabled=true \\
    -s \"config.clientId=$GH_CLIENT_ID\" -s \"config.clientSecret=$GH_CLIENT_SECRET\"
  echo \"✓ github broker created\"
else
  echo \"✓ github broker exists\"
fi

echo \"▶ ensure nova client\"
CID=$($KC get clients -r \"$REALM\" -q clientId=\"$NOVA_CLIENT_ID\" --fields id --format csv --noquotes | tail -n1)
if [ -z \"$CID\" ]; then
  $KC create clients -r \"$REALM\" \\
    -s clientId=\"$NOVA_CLIENT_ID\" -s enabled=true -s protocol=openid-connect \\
    -s publicClient=false -s standardFlowEnabled=true \\
    -s secret=\"$NOVA_CLIENT_SECRET\" \\
    -s \"redirectUris=[\\\"https://nova.$DOMAIN/auth/callback\\\"]\" \\
    -s \"rootUrl=https://nova.$DOMAIN\"
  echo \"✓ nova client created\"
else
  echo \"✓ nova client exists\"
fi
echo \"DONE\"
";

/// The container's environment.
pub open spec fn env_doc(namespace: Seq<char>, sso: KeycloakSsoSpec) -> JsonView {
    json::jarr().push(resources::value_env_doc("KC_URL"@, keycloak::service_url_text(namespace))).push(
        resources::value_env_doc("REALM"@, sso.realm@),
    ).push(resources::value_env_doc("DOMAIN"@, sso.domain@)).push(
        resources::value_env_doc("NOVA_CLIENT_ID"@, sso.nova_client_id@),
    ).push(resources::value_env_doc("KC_ADMIN"@, "admin"@)).push(
        resources::secret_env_doc("KC_ADMIN_PASSWORD"@, keycloak::ADMIN_SECRET@, "admin-password"@),
    ).push(
        resources::secret_env_doc("GH_CLIENT_ID"@, sso.github_broker_secret@, "client-id"@),
    ).push(
        resources::secret_env_doc("GH_CLIENT_SECRET"@, sso.github_broker_secret@, "client-secret"@),
    ).push(resources::secret_env_doc("NOVA_CLIENT_SECRET"@, NOVA_OIDC_SECRET@, CLIENT_SECRET_KEY@))
}

/// The `keycloak-bootstrap` Job.
pub open spec fn job_doc(pi: PlatformInstance, sso: KeycloakSsoSpec, owner: JsonView) -> JsonView {
    let ns = pi.spec.namespace@;
    json::jobj().with("apiVersion"@, json::jstr("batch/v1"@)).with("kind"@, json::jstr("Job"@)).with(
        "metadata"@,
        resources::meta_doc(JOB_NAME@, ns, owner),
    ).with(
        "spec"@,
        json::jobj().with("backoffLimit"@, json::jint(6)).with(
            "template"@,
            json::jobj().with("metadata"@, json::jobj().with("labels"@, resources::labels_doc())).with(
                "spec"@,
                json::jobj().with("restartPolicy"@, json::jstr("OnFailure"@)).with(
                    "containers"@,
                    json::jarr().push(
                        json::jobj().with("name"@, json::jstr("kcadm"@)).with(
                            "image"@,
                            json::jstr(keycloak::KEYCLOAK_IMAGE@),
                        ).with(
                            "command"@,
                            json::jarr().push(json::jstr("/bin/bash"@)).push(json::jstr("-c"@)).push(
                                json::jstr(SCRIPT@),
                            ),
                        ).with("env"@, env_doc(ns, sso)),
                    ),
                ),
            ),
        ),
    )
}

pub fn build(pi: &PlatformInstance, sso: &KeycloakSsoSpec, owner: Json) -> (r: Json)
    ensures
        r@ == job_doc(*pi, *sso, owner@),
{
    let ns = pi.spec.namespace.as_str();
    let kc_url = keycloak::service_url(ns);
    let env = Json::array().push(resources::value_env("KC_URL", kc_url.as_str())).push(
        resources::value_env("REALM", sso.realm.as_str()),
    ).push(resources::value_env("DOMAIN", sso.domain.as_str())).push(
        resources::value_env("NOVA_CLIENT_ID", sso.nova_client_id.as_str()),
    ).push(resources::value_env("KC_ADMIN", "admin")).push(
        resources::secret_env("KC_ADMIN_PASSWORD", keycloak::ADMIN_SECRET, "admin-password"),
    ).push(
        resources::secret_env("GH_CLIENT_ID", sso.github_broker_secret.as_str(), "client-id"),
    ).push(
        resources::secret_env("GH_CLIENT_SECRET", sso.github_broker_secret.as_str(), "client-secret"),
    ).push(resources::secret_env("NOVA_CLIENT_SECRET", NOVA_OIDC_SECRET, CLIENT_SECRET_KEY));
    let container = Json::object().with("name", Json::text("kcadm")).with(
        "image",
        Json::text(keycloak::KEYCLOAK_IMAGE),
    ).with(
        "command",
        Json::array().push(Json::text("/bin/bash")).push(Json::text("-c")).push(Json::text(SCRIPT)),
    ).with("env", env);
    Json::object().with("apiVersion", Json::text("batch/v1")).with("kind", Json::text("Job")).with(
        "metadata",
        resources::object_meta(JOB_NAME, ns, owner),
    ).with(
        "spec",
        Json::object().with("backoffLimit", Json::integer(6)).with(
            "template",
            Json::object().with("metadata", Json::object().with("labels", resources::labels())).with(
                "spec",
                Json::object().with("restartPolicy", Json::text("OnFailure")).with(
                    "containers",
                    Json::array().push(container),
                ),
            ),
        ),
    )
}

/// The Nova client secret's `data` value derived from `uid`.
pub open spec fn client_secret_data(uid: Seq<char>) -> Seq<char> {
    derived::derived_secret_text(NOVA_SEED, vstd::utf8::encode_utf8(""@), vstd::utf8::encode_utf8(uid), 4)
}

/// The `nova-oidc` Secret.
pub open spec fn nova_oidc_secret_doc(namespace: Seq<char>, uid: Seq<char>, owner: JsonView) -> JsonView {
    keycloak::opaque_secret_doc(NOVA_OIDC_SECRET@, namespace, owner, CLIENT_SECRET_KEY@, client_secret_data(uid))
}

/// Deterministic Nova OIDC client secret, derived from the CR uid so it is
/// stable across reconciles. Applied before the bootstrap Job (which reads it)
/// and read by Nova at runtime.
pub fn nova_oidc_secret(namespace: &str, uid: &str, owner: &Json) -> (r: Json)
    ensures
        r@ == nova_oidc_secret_doc(namespace@, uid@, owner@),
{
    let data = derived::derived_secret(NOVA_SEED, "", uid, 4);
    keycloak::opaque_secret(NOVA_OIDC_SECRET, namespace, owner, CLIENT_SECRET_KEY, data)
}

/// The Nova client secret depends on the uid alone: builds for the same uid,
/// in any namespace and for any owner, carry the same `data` (stable across
/// reconciles, no randomness), a 60-character value (the standard encoding
/// of the 43-character client secret).
pub proof fn lemma_nova_oidc_secret_stable(ns1: Seq<char>, ns2: Seq<char>, uid: Seq<char>, o1: JsonView, o2: JsonView)
    ensures
        nova_oidc_secret_doc(ns1, uid, o1).get("data"@) == nova_oidc_secret_doc(ns2, uid, o2).get("data"@),
        nova_oidc_secret_doc(ns1, uid, o1).get("data"@) == Some(
            json::jobj().with(CLIENT_SECRET_KEY@, json::jstr(client_secret_data(uid))),
        ),
        client_secret_data(uid).len() == 60,
{
    derived::lemma_derived_secret_text(NOVA_SEED, vstd::utf8::encode_utf8(""@), vstd::utf8::encode_utf8(uid), 4);
    keycloak::lemma_opaque_secret_data(NOVA_OIDC_SECRET@, ns1, o1, CLIENT_SECRET_KEY@, client_secret_data(uid));
    keycloak::lemma_opaque_secret_data(NOVA_OIDC_SECRET@, ns2, o2, CLIENT_SECRET_KEY@, client_secret_data(uid));
}

} // verus!
