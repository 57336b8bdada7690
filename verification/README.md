# mirrord_core

The decision logic of a mirrord agent and its companions, verified with Verus.

An agent runs in a cluster and does for its clients what they cannot do from where they
are: it resolves names and makes outgoing connections. Everything that the agent decides
stands in `src/` as functions on plain values, with contracts. Whoever performs the
decisions (sockets, timers, mailboxes, the cluster) stands in `app/`.

| Module | What it decides |
|---|---|
| `agent` | which clients are served, and when the agent stops |
| `client` | the session of one client, and where its messages go |
| `dns` | lookups, answered in request order |
| `outgoing` | outgoing connections, one router per client and transport |
| `budget`, `transit` | how much data may be buffered, and how long its memory is reserved |
| `version` | the version of the protocol that both sides speak |
| `protocol` | the messages |
| `harness` | checks on the behavior of an agent |
| `bench`, `echo`, `cpu_sample` | the benchmark |
| `notifier`, `fd_share` | system calls that a filter hands over, and descriptors between processes |
| `job` | agents that run as Kubernetes jobs |
| `internal_proxy` | the order in which the internal proxy starts up |
| `s3`, `env_vars` | configuration |
| `chunk`, `text` | byte buffers and text |

Actors and loops are state machines: a spec function says what is done on an event and in
which state that leaves the machine, the executable function is proved to do the same, and
the laws at the end of a module are proved of whole runs.
