# lava-operator

A Kubernetes controller for the `LavaArchitecture` resource. Its logic is a
library verified with Verus; the binary around it talks to the cluster.

## Use

```bash
lava-operator | kubectl apply -f -     # the custom resource definition
lava-operator run                      # the controller loop
```

A resource:

```yaml
apiVersion: lava.pleme.io/v1alpha1
kind: LavaArchitecture
metadata:
  name: prod-vpc
  namespace: infra
spec:
  source:
    inline: |
      (deflava-architecture demo-vpc
        :inputs ((:cidr "10.42.0.0/16"))
        :resources ((aws-vpc "main" :cidr-block "{cidr}")))
  bindings:
    cidr: 10.42.0.0/16
  gate: aws-vpc-network
  engine: embedded
```

On every pass the controller resolves the source (inline text, bundled name or
git path), renders it with magma-lava behind its gate, looks for drift, decides what to do about
it, appends a receipt to the outcome chain and writes phase and conditions back
to `.status`.

## Layout

- `src/` is the verified library. Its public functions state in their contracts
  what they return. The methods of the traits that callers implement
  (`PlannerBackend`, `AnomalyRouter`, `DestroyBackend`) promise nothing of
  themselves, and neither do derived impls. The `law_*` proof functions state what
  holds across functions.
- `tests/` runs the library on concrete values, with the real outside crates.
- `app/` is the binary: arguments, the kube-rs loop, the serde and kube copies of
  the resource types, and the renderer, which reads files.

## Dependencies

`lava-arch` is listed for its version alone: `magma-lava` builds with 0.1.6 and
not with the release after it. `k8s-openapi` is what `kube` takes its API types
from. Nothing here names either of them.

## What is taken on trust

The calls into `lava_drift`, `lava_anomaly`, `lava_outcome_chain`, `indexmap`,
`serde_json` and `serde_yaml` are made by small functions marked
`#[verifier::external_body]`. Their contracts are not proved; each says in its
doc comment which function it calls and what it claims of it.
