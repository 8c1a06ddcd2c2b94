# stardelt-operator

A Kubernetes operator that reconciles one cluster-scoped `PlatformInstance`
custom resource into the stardelt core stack (SeaweedFS, CloudNative-PG,
Lakekeeper, Trino, Airflow, Superset, optional Keycloak SSO, Nova and an
optional public ingress). Upstream charts are installed through Flux
`HelmRepository` / `HelmRelease` objects; native pieces are server-side
applied directly.

## Layout

- `src/` — the verified library (Verus). Manifests are modelled as `Json`
  documents with a mathematical view; every builder states the exact document
  it returns. `controllers::platform_instance::Pass` is the reconcile pass as a
  state machine: it plans every operation up front, hands out one command at a
  time (apply, fetch, patch status) and is advanced with what the cluster
  answered. Its contracts state that a pass ends ready only when every check
  of the plan passed, that a pass that ends not ready stopped at the first
  failing check, and that a pass over an unchanged cluster writes exactly the
  status the previous pass wrote (so the status patch does not retrigger a
  reconcile).
- `app/` — the program: argument handling, environment, the kube-rs
  controller loop that executes the pass's commands, the serde/schema copies of
  the CRD types, and YAML parsing of the embedded Helm values.
- `tests/` — tests of the library.

## Running

```sh
stardelt-operator crd   # print the PlatformInstance CRD
stardelt-operator       # run the controller against the current kube-context
```

Environment: `STARDELT_OPERATOR_FIELD_MANAGER` (default `stardelt-operator`),
`STARDELT_OPERATOR_RESYNC_SECS` (300), `STARDELT_OPERATOR_POLL_SECS` (10),
`RUST_LOG` (`info`).
