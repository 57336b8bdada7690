//! Agents that run as jobs.

use k8s_openapi::api::batch::v1::{Job as ClusterJob, JobSpec};
use k8s_openapi::apimachinery::pkg::apis::meta::v1::ObjectMeta;
use mirrord_core::job::string_map::StringMap;
use mirrord_core::job::wait::{
    create_job_agent, AgentKubernetesConnectInfo, JobAgent, JobEvent, JobNext, JobPhase,
    KubeApiError, PodItem, Report,
};
use mirrord_core::job::{
    AgentConfig, ContainerParams, ContainerVariant, Job, JobTargetedVariant, JobVariant, Pod,
};
use std::collections::BTreeMap;

fn map(entries: &[(&str, &str)]) -> StringMap {
    let mut map = StringMap::new();
    for (key, value) in entries {
        map.insert(key.to_string(), value.to_string());
    }
    map
}

fn tree(map: &StringMap) -> BTreeMap<String, String> {
    map.entries().iter().cloned().collect()
}

fn in_cluster(job: Job) -> ClusterJob {
    let template = job.template;
    ClusterJob {
        metadata: ObjectMeta {
            name: Some(job.name),
            labels: Some(tree(&job.labels)),
            annotations: Some(tree(&job.annotations)),
            ..Default::default()
        },
        spec: Some(JobSpec {
            ttl_seconds_after_finished: Some(job.ttl_seconds_after_finished),
            backoff_limit: Some(job.backoff_limit),
            template: k8s_openapi::api::core::v1::PodTemplateSpec {
                metadata: Some(ObjectMeta {
                    labels: template.labels.as_ref().map(tree),
                    annotations: template.annotations.as_ref().map(tree),
                    ..template.meta
                }),
                spec: template.spec,
            },
            ..Default::default()
        }),
        ..Default::default()
    }
}

fn pod(spec: &str) -> Pod {
    let spec: k8s_openapi::api::core::v1::PodSpec = serde_json::from_str(spec).unwrap();
    Pod { labels: None, annotations: None, meta: ObjectMeta::default(), spec: Some(spec) }
}

fn agent() -> AgentConfig {
    AgentConfig { namespace: None, labels: None, annotations: None, ttl: 30 }
}

fn params() -> ContainerParams {
    ContainerParams { name: "foobar".to_owned(), port: 3000 }
}

const TARGETLESS_POD: &str = r#"{
    "restartPolicy": "Never",
    "imagePullSecrets": [],
    "nodeSelector": {},
    "containers": [
        {
            "name": "mirrord-agent",
            "image": "ghcr.io/metalbear-co/mirrord:latest",
            "imagePullPolicy": "IfNotPresent",
            "command": ["./mirrord-agent", "-l", "3000", "targetless"],
            "env": [
                { "name": "RUST_LOG", "value": "mirrord=info" },
                { "name": "MIRRORD_AGENT_STEALER_FLUSH_CONNECTIONS", "value": "true" },
                { "name": "MIRRORD_AGENT_JSON_LOG", "value": "false" },
                { "name": "MIRRORD_AGENT_SUPPORT_IPV6", "value": "false" },
                { "name": "MIRRORD_AGENT_PASSTHROUGH_MIRRORING", "value": "false" }
            ],
            "resources": {
                "requests": { "cpu": "1m", "memory": "1Mi" },
                "limits": { "cpu": "100m", "memory": "100Mi" }
            }
        }
    ]
}"#;

const TARGETED_POD: &str = r#"{
    "hostPID": true,
    "nodeName": "foobaz",
    "restartPolicy": "Never",
    "volumes": [
        { "name": "hostrun", "hostPath": { "path": "/run" } },
        { "name": "hostvar", "hostPath": { "path": "/var" } }
    ],
    "imagePullSecrets": [],
    "nodeSelector": {},
    "tolerations": [{ "operator": "Exists" }],
    "containers": [
        {
            "name": "mirrord-agent",
            "image": "ghcr.io/metalbear-co/mirrord:latest",
            "imagePullPolicy": "IfNotPresent",
            "securityContext": {
                "runAsGroup": 13,
                "privileged": false,
                "capabilities": { "add": ["NET_ADMIN", "SYS_PTRACE", "SYS_ADMIN"] }
            },
            "volumeMounts": [
                { "mountPath": "/host/run", "name": "hostrun" },
                { "mountPath": "/host/var", "name": "hostvar" }
            ],
            "command": [
                "./mirrord-agent", "-l", "3000", "targeted",
                "--container-id", "container", "--container-runtime", "docker"
            ],
            "env": [
                { "name": "RUST_LOG", "value": "mirrord=info" },
                { "name": "MIRRORD_AGENT_STEALER_FLUSH_CONNECTIONS", "value": "true" },
                { "name": "MIRRORD_AGENT_JSON_LOG", "value": "false" },
                { "name": "MIRRORD_AGENT_SUPPORT_IPV6", "value": "false" },
                { "name": "MIRRORD_AGENT_PASSTHROUGH_MIRRORING", "value": "false" },
                { "name": "MIRRORD_AGENT_NFTABLES", "value": "true" }
            ],
            "resources": {
                "requests": { "cpu": "1m", "memory": "1Mi" },
                "limits": { "cpu": "100m", "memory": "100Mi" }
            }
        }
    ]
}"#;

fn expected(pod: &str) -> ClusterJob {
    let text = format!(
        r#"{{
            "metadata": {{
                "name": "foobar",
                "labels": {{
                    "kuma.io/sidecar-injection": "disabled",
                    "app": "mirrord"
                }},
                "annotations": {{
                    "sidecar.istio.io/inject": "false",
                    "linkerd.io/inject": "disabled"
                }}
            }},
            "spec": {{
                "ttlSecondsAfterFinished": 30,
                "backoffLimit": 0,
                "template": {{
                    "metadata": {{
                        "annotations": {{
                            "sidecar.istio.io/inject": "false",
                            "linkerd.io/inject": "disabled"
                        }},
                        "labels": {{
                            "kuma.io/sidecar-injection": "disabled",
                            "app": "mirrord"
                        }}
                    }},
                    "spec": {pod}
                }}
            }}
        }}"#
    );
    serde_json::from_str(&text).unwrap()
}

#[test]
fn targetless() {
    let (agent, params) = (agent(), params());
    let update = JobVariant::new(&agent, &params, pod(TARGETLESS_POD)).as_update();
    assert_eq!(in_cluster(update), expected(TARGETLESS_POD));
}

#[test]
fn targeted() {
    let (agent, params) = (agent(), params());
    let update = JobTargetedVariant::new(&agent, &params, pod(TARGETED_POD)).as_update();
    assert_eq!(in_cluster(update), expected(TARGETED_POD));
}

#[test]
fn configured_entries_are_kept_and_fixed_ones_win() {
    let mut agent = agent();
    agent.labels = Some(map(&[("app", "mine"), ("team", "blue")]));
    agent.annotations = Some(map(&[("linkerd.io/inject", "enabled"), ("note", "x")]));
    let params = params();
    let mut inner = pod(TARGETLESS_POD);
    inner.labels = Some(map(&[("team", "red"), ("pod", "own"), ("app", "pod")]));
    inner.meta.namespace = Some("ns".to_owned());
    let job = JobVariant::new(&agent, &params, inner).as_update();
    let get = |map: &StringMap, key: &str| map.get(key).cloned();
    assert_eq!(get(&job.labels, "app"), Some("mirrord".to_owned()));
    assert_eq!(get(&job.labels, "team"), Some("blue".to_owned()));
    assert_eq!(get(&job.labels, "pod"), None);
    assert_eq!(get(&job.annotations, "linkerd.io/inject"), Some("disabled".to_owned()));
    assert_eq!(get(&job.annotations, "note"), Some("x".to_owned()));
    let labels = job.template.labels.unwrap();
    assert_eq!(get(&labels, "app"), Some("mirrord".to_owned()));
    assert_eq!(get(&labels, "team"), Some("blue".to_owned()));
    assert_eq!(get(&labels, "pod"), Some("own".to_owned()));
    assert_eq!(job.template.meta.namespace, Some("ns".to_owned()));
    assert_eq!(job.ttl_seconds_after_finished, 30);
}

#[test]
fn maps_hold_every_key_once() {
    let mut a = map(&[("x", "1"), ("y", "2"), ("x", "3")]);
    assert_eq!(a.entries().len(), 2);
    assert_eq!(a.get("x").map(String::as_str), Some("3"));
    assert!(a.get("z").is_none());
    a.extend(&map(&[("y", "4"), ("z", "5")]));
    let copy = a.clone();
    a.insert("x".to_owned(), "6".to_owned());
    assert_eq!(
        tree(&copy).into_iter().collect::<Vec<_>>(),
        [("x", "3"), ("y", "4"), ("z", "5")].map(|(k, v)| (k.to_owned(), v.to_owned()))
    );
}

fn started() -> JobAgent {
    let mut agent = agent();
    agent.namespace = Some("agents".to_owned());
    let params = params();
    let (state, create) =
        create_job_agent(&JobVariant::new(&agent, &params, pod(TARGETLESS_POD)));
    assert_eq!(create.report, Report::Subtask("creating agent pod..."));
    assert_eq!(create.namespace, Some("agents".to_owned()));
    assert_eq!(in_cluster(create.job), expected(TARGETLESS_POD));
    state
}

fn applied(name: Option<&str>, namespace: Option<&str>, phase: Option<&str>) -> JobEvent {
    let text = |text: Option<&str>| text.map(str::to_owned);
    JobEvent::Pod(PodItem::Applied {
        name: text(name),
        namespace: text(namespace),
        phase: text(phase),
    })
}

#[test]
fn an_agent_is_awaited() {
    let mut agent = started();
    assert_eq!(
        agent.handle(JobEvent::Created(Ok(())), "3.0.0"),
        (
            vec![],
            JobNext::WatchPods { labels: "job-name=foobar".to_owned(), timeout_secs: 60 }
        )
    );
    // What the first pod is up to does not matter yet.
    assert_eq!(
        agent.handle(applied(Some("pod"), Some("ns"), Some("Running")), "3.0.0"),
        (
            vec![
                Report::Success("agent pod ns/pod created".to_owned()),
                Report::Subtask("waiting for pod to be ready..."),
            ],
            JobNext::NextPod
        )
    );
    assert_eq!(
        agent.handle(applied(Some("pod"), Some("ns"), Some("Pending")), "3.0.0"),
        (vec![], JobNext::NextPod)
    );
    assert_eq!(
        agent.handle(applied(Some("pod"), Some("ns"), None), "3.0.0"),
        (vec![], JobNext::NextPod)
    );
    assert_eq!(
        agent.handle(applied(None, None, Some("Running")), "3.0.0"),
        (
            vec![],
            JobNext::WaitForStartup { pod_name: "pod".to_owned(), container: "mirrord-agent" }
        )
    );
    assert_eq!(
        agent.handle(JobEvent::Started(Ok(Some("2.9.0".to_owned()))), "3.0.0"),
        (
            vec![
                Report::Warning(
                    "Agent version 2.9.0 does not match the local mirrord version 3.0.0. This may lead to unexpected errors."
                        .to_owned()
                ),
                Report::Success("pod is ready".to_owned()),
            ],
            JobNext::Done(AgentKubernetesConnectInfo {
                pod_name: "pod".to_owned(),
                pod_namespace: "ns".to_owned(),
                agent_port: 3000,
            })
        )
    );
    assert_eq!(agent.phase, JobPhase::Finished);
}

fn in_phase(phase: JobPhase) -> JobAgent {
    JobAgent { name: "foobar".to_owned(), port: 3000, phase }
}

fn starting() -> JobPhase {
    JobPhase::Starting { pod_name: "pod".to_owned(), pod_namespace: "ns".to_owned() }
}

fn waiting() -> JobPhase {
    JobPhase::Waiting { pod_name: "pod".to_owned(), pod_namespace: "ns".to_owned() }
}

#[test]
fn the_end_of_the_watch_is_not_the_end() {
    for item in [PodItem::Failed, PodItem::Ended] {
        let mut agent = in_phase(waiting());
        let (_, next) = agent.handle(JobEvent::Pod(item), "1");
        assert_eq!(
            next,
            JobNext::WaitForStartup { pod_name: "pod".to_owned(), container: "mirrord-agent" }
        );
        assert_eq!(agent.phase, starting());
    }
    for version in [None, Some("1".to_owned())] {
        let (reports, _) = in_phase(starting()).handle(JobEvent::Started(Ok(version)), "1");
        assert_eq!(reports, vec![Report::Success("pod is ready".to_owned())]);
    }
}

#[test]
fn there_may_be_no_agent() {
    let refused = || KubeApiError::KubeError("forbidden".to_owned());
    assert_eq!(
        started().handle(JobEvent::Created(Err(refused())), "1"),
        (vec![], JobNext::Fail(refused()))
    );
    for item in [PodItem::Failed, PodItem::Ended] {
        assert_eq!(
            in_phase(JobPhase::Watching).handle(JobEvent::Pod(item), "1"),
            (vec![], JobNext::Fail(KubeApiError::AgentPodNotRunning))
        );
    }
    assert_eq!(
        in_phase(JobPhase::Watching).handle(applied(None, None, None), "1"),
        (vec![], JobNext::Fail(KubeApiError::MissingField(".metadata.name")))
    );
    assert_eq!(
        in_phase(JobPhase::Watching).handle(applied(Some("pod"), None, None), "1"),
        (vec![], JobNext::Fail(KubeApiError::MissingField(".metadata.namespace")))
    );
    let startup = || KubeApiError::AgentStartup("no line".to_owned());
    assert_eq!(
        in_phase(starting()).handle(JobEvent::Started(Err(startup())), "1"),
        (vec![], JobNext::Fail(startup()))
    );
}
