# sleepypods control plane

The decisions of a control plane that puts Kubernetes workloads to sleep and wakes
them on demand, verified with Verus.

- `src/` is the library. Every decision stands there with a contract that Verus
  proves: rendering manifests, reading the configuration, answering proxies,
  reconciling materializations, the rules of the store.
- `tests/` runs the library on concrete values.
- `app/` is ordinary Rust around it: Postgres, the cluster, the tasks of the
  process. It performs what the library asks for and hands back what came of it.

## The library

| Module | What it decides |
| --- | --- |
| `manifest` | the objects of an instance from the template of its workload class |
| `kube_materializer`, `cluster_walk` | what is asked of a cluster, and what its answers mean |
| `materialization`, `materializer`, `projection` | the records that travel between them |
| `reconciler` | which materializations are worked on, and the life of one job and one run |
| `postgres` | what requests and rows must hold before the store changes |
| `api` | who is admitted, and what a proxy is told |
| `runtime`, `listeners`, `config`, `auth` | the configuration, the listeners and the tasks of the process |
| `certificate` | how much certificate work goes on at once |
| `gauges` | what is shown of waiting work |
| `text`, `string_map`, `json`, `yaml`, `duration`, `net`, `kubernetes_name` | the values that the rest is stated over |

Most executable functions are stated as one equation: what they return, seen as a
mathematical value, is what a specification function makes of their arguments.
Public proof functions named `law_…` state what holds across several of them.

## What is trusted

`serde_yaml` reads YAML, `sha2` hashes names, `kube` tells apart the statuses of a
cluster, and `format!` quotes text. Each call stands in one small function whose
documentation says what is taken for granted.
