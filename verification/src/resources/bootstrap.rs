//! The `lakekeeper-bootstrap` Job.
//!
//! Accepts Lakekeeper's terms of use and creates the default `warehouse`
//! pointing at SeaweedFS S3. Idempotent: skips bootstrap if already done, and
//! warehouse creation if it already exists.
use vstd::prelude::*;

use crate::api::PlatformInstance;
use crate::json;
use crate::json::{Json, JsonView};
use crate::resources;
use crate::resources::secret;
use crate::resources::secret::SECRET_NAME;

verus! {

pub const JOB_NAME: &'static str = "lakekeeper-bootstrap";

/// The shell script the Job runs.
pub const SCRIPT: &'static str = "set -e
echo \"▶ checking Lakekeeper info\"
INFO=$(curl -fsS \"$LK/management/v1/info\")
echo \"$INFO\"
BOOTSTRAPPED=$(echo \"$INFO\" | grep -o '\"bootstrapped\":[^,}]*' | cut -d: -f2 | tr -d ' \"')

if [ \"$BOOTSTRAPPED\" = \"true\" ]; then
  echo \"✓ already bootstrapped\"
else
  echo \"▶ bootstrapping\"
  curl -fsS -X POST -H 'Content-Type: application/json' \\
    -d '{\"accept-terms-of-use\":true,\"is-operator\":true}' \\
    \"$LK/management/v1/bootstrap\"
  echo
  echo \"✓ bootstrapped\"
fi

echo \"▶ checking for existing 'warehouse'\"
EXISTING=$(curl -fsS \"$LK/management/v1/warehouse\" || echo '{\"warehouses\":[]}')
echo \"$EXISTING\"
if echo \"$EXISTING\" | grep -q '\"name\":\"warehouse\"'; then
  echo \"✓ warehouse 'warehouse' already exists\"
  exit 0
fi

echo \"▶ creating warehouse 'warehouse' on s3://$S3_BUCKET ($S3_ENDPOINT)\"
cat > /tmp/wh.json <<EOF
{
  \"warehouse-name\": \"warehouse\",
  \"project-id\": \"00000000-0000-0000-0000-000000000000\",
  \"storage-profile\": {
    \"type\": \"s3\",
    \"bucket\": \"$S3_BUCKET\",
    \"key-prefix\": \"warehouse\",
    \"endpoint\": \"$S3_ENDPOINT\",
    \"region\": \"$S3_REGION\",
    \"path-style-access\": true,
    \"flavor\": \"minio\",
    \"sts-enabled\": false,
    \"remote-signing-enabled\": false
  },
  \"storage-credential\": {
    \"type\": \"s3\",
    \"credential-type\": \"access-key\",
    \"aws-access-key-id\": \"$S3_ACCESS_KEY\",
    \"aws-secret-access-key\": \"$S3_SECRET_KEY\"
  }
}
EOF
cat /tmp/wh.json
curl -fsS -X POST -H 'Content-Type: application/json' \\
  -d @/tmp/wh.json \\
  \"$LK/management/v1/warehouse\"
echo
echo \"✓ warehouse created\"
";

/// `http://lakekeeper.<namespace>.svc.cluster.local:8181`
pub open spec fn lakekeeper_url_text(namespace: Seq<char>) -> Seq<char> {
    "http://"@ + resources::service_host("lakekeeper"@, namespace) + ":8181"@
}

/// In-cluster Lakekeeper management URL.
pub fn lakekeeper_url(namespace: &str) -> (r: String)
    ensures
        r@ == lakekeeper_url_text(namespace@),
{
    let host = resources::service_host_name("lakekeeper", namespace);
    json::cat3("http://", host.as_str(), ":8181")
}

/// The container's environment: the Lakekeeper URL, and the S3 settings read
/// from the `ozone-s3-creds` Secret.
pub open spec fn env_doc(namespace: Seq<char>) -> JsonView {
    json::jarr().push(resources::value_env_doc("LK"@, lakekeeper_url_text(namespace))).push(
        resources::secret_env_doc("S3_ENDPOINT"@, SECRET_NAME@, "endpoint"@),
    ).push(resources::secret_env_doc("S3_BUCKET"@, SECRET_NAME@, "bucket"@)).push(
        resources::secret_env_doc("S3_REGION"@, SECRET_NAME@, "region"@),
    ).push(resources::secret_env_doc("S3_ACCESS_KEY"@, SECRET_NAME@, "access-key"@)).push(
        resources::secret_env_doc("S3_SECRET_KEY"@, SECRET_NAME@, "secret-key"@),
    )
}

/// The `lakekeeper-bootstrap` Job.
pub open spec fn job_doc(pi: PlatformInstance, owner: JsonView) -> JsonView {
    let ns = pi.spec.namespace@;
    json::jobj().with("apiVersion"@, json::jstr("batch/v1"@)).with("kind"@, json::jstr("Job"@)).with(
        "metadata"@,
        resources::meta_doc(JOB_NAME@, ns, owner),
    ).with(
        "spec"@,
        json::jobj().with("ttlSecondsAfterFinished"@, json::jint(600)).with(
            "backoffLimit"@,
            json::jint(4),
        ).with(
            "template"@,
            json::jobj().with(
                "spec"@,
                json::jobj().with("restartPolicy"@, json::jstr("OnFailure"@)).with(
                    "containers"@,
                    json::jarr().push(
                        json::jobj().with("name"@, json::jstr("bootstrap"@)).with(
                            "image"@,
                            json::jstr("curlimages/curl:8.10.1"@),
                        ).with(
                            "command"@,
                            json::jarr().push(json::jstr("/bin/sh"@)).push(json::jstr("-c"@)),
                        ).with("args"@, json::jarr().push(json::jstr(SCRIPT@))).with(
                            "env"@,
                            env_doc(ns),
                        ),
                    ),
                ),
            ),
        ),
    )
}

pub fn build(pi: &PlatformInstance, owner: Json) -> (r: Json)
    ensures
        r@ == job_doc(*pi, owner@),
{
    let ns = pi.spec.namespace.as_str();
    let url = lakekeeper_url(ns);
    let env = Json::array().push(resources::value_env("LK", url.as_str())).push(
        resources::secret_env("S3_ENDPOINT", SECRET_NAME, "endpoint"),
    ).push(resources::secret_env("S3_BUCKET", SECRET_NAME, "bucket")).push(
        resources::secret_env("S3_REGION", SECRET_NAME, "region"),
    ).push(resources::secret_env("S3_ACCESS_KEY", SECRET_NAME, "access-key")).push(
        resources::secret_env("S3_SECRET_KEY", SECRET_NAME, "secret-key"),
    );
    let container = Json::object().with("name", Json::text("bootstrap")).with(
        "image",
        Json::text("curlimages/curl:8.10.1"),
    ).with("command", Json::array().push(Json::text("/bin/sh")).push(Json::text("-c"))).with(
        "args",
        Json::array().push(Json::text(SCRIPT)),
    ).with("env", env);
    Json::object().with("apiVersion", Json::text("batch/v1")).with("kind", Json::text("Job")).with(
        "metadata",
        resources::object_meta(JOB_NAME, ns, owner),
    ).with(
        "spec",
        Json::object().with("ttlSecondsAfterFinished", Json::integer(600)).with(
            "backoffLimit",
            Json::integer(4),
        ).with(
            "template",
            Json::object().with(
                "spec",
                Json::object().with("restartPolicy", Json::text("OnFailure")).with(
                    "containers",
                    Json::array().push(container),
                ),
            ),
        ),
    )
}

/// The S3 settings the Job reads, by environment variable.
pub open spec fn s3_env_names() -> Seq<Seq<char>> {
    seq!["S3_ENDPOINT"@, "S3_BUCKET"@, "S3_REGION"@, "S3_ACCESS_KEY"@, "S3_SECRET_KEY"@]
}

/// The `ozone-s3-creds` keys those variables read.
pub open spec fn s3_env_keys() -> Seq<Seq<char>> {
    seq!["endpoint"@, "bucket"@, "region"@, "access-key"@, "secret-key"@]
}

/// Every Secret reference of the lakekeeper-bootstrap Job names the
/// `ozone-s3-creds` Secret and a key that the Secret's `stringData` defines.
pub proof fn lemma_bootstrap_reads_defined_keys(pi: PlatformInstance)
    ensures
        env_doc(pi.spec.namespace@)->Arr_0.len() == 6,
        forall|i: int|
            1 <= i < 6 ==> #[trigger] env_doc(pi.spec.namespace@)->Arr_0[i]
                == resources::secret_env_doc(s3_env_names()[i - 1], SECRET_NAME@, s3_env_keys()[i - 1]),
        forall|i: int|
            0 <= i < 5 ==> (#[trigger] secret::secret_data_doc(pi).get(s3_env_keys()[i])) is Some,
{
    reveal_strlit("access-key");
    reveal_strlit("secret-key");
    reveal_strlit("endpoint");
    reveal_strlit("bucket");
    reveal_strlit("region");
    assert("access-key"@.len() == 10 && "secret-key"@.len() == 10 && "endpoint"@.len() == 8);
    assert("bucket"@.len() == 6 && "region"@.len() == 6);
    assert("access-key"@[0] == 'a' && "secret-key"@[0] == 's');
    assert("bucket"@[0] == 'b' && "region"@[0] == 'r');
    reveal_with_fuel(json::key_pos_from, 6);
    let d = secret::secret_data_doc(pi);
    assert(d.get("endpoint"@) is Some);
    assert(d.get("bucket"@) is Some);
    assert(d.get("region"@) is Some);
    assert(d.get("access-key"@) is Some);
    assert(d.get("secret-key"@) is Some);
    assert forall|i: int| 0 <= i < 5 implies (#[trigger] d.get(s3_env_keys()[i])) is Some by {
        if i == 0 {
        } else if i == 1 {
        } else if i == 2 {
        } else if i == 3 {
        } else {
        }
    }
}

} // verus!
