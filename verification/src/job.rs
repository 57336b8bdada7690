//! Agents that run as Kubernetes jobs: the job that is created, and the wait until its pod
//! is ready.

pub mod string_map;
pub mod wait;

use crate::job::string_map::StringMap;
use k8s_openapi::apimachinery::pkg::apis::meta::v1::ObjectMeta;
use vstd::prelude::*;

verus! {

/// The specification of a pod. A job passes it on unread.
#[verifier::external_type_specification]
#[verifier::external_body]
pub struct ExPodSpec(k8s_openapi::api::core::v1::PodSpec);

/// The metadata of an object. A job passes on unread what it does not hold itself.
#[verifier::external_type_specification]
#[verifier::external_body]
pub struct ExObjectMeta(k8s_openapi::apimachinery::pkg::apis::meta::v1::ObjectMeta);

/// `PodSpec::clone`: the derived implementation, which clones field by field, so the clone
/// is the same specification.
pub assume_specification[ <k8s_openapi::api::core::v1::PodSpec as Clone>::clone ](
    spec: &k8s_openapi::api::core::v1::PodSpec,
) -> (r: k8s_openapi::api::core::v1::PodSpec)
    ensures
        r == *spec,
;

/// `ObjectMeta::clone`: the derived implementation, which clones field by field, so the
/// clone is the same metadata.
pub assume_specification[ <ObjectMeta as Clone>::clone ](meta: &ObjectMeta) -> (r: ObjectMeta)
    ensures
        r == *meta,
;

/// The options of an agent, as far as a job reads them.
#[derive(Debug)]
pub struct AgentConfig {
    /// The namespace to create the agent in, if not the default one.
    pub namespace: Option<String>,
    pub labels: Option<StringMap>,
    pub annotations: Option<StringMap>,
    /// For how many seconds a finished job is kept.
    pub ttl: u16,
}

/// What an agent container is given, as far as a job reads it.
#[derive(Debug)]
pub struct ContainerParams {
    pub name: String,
    pub port: u16,
}

/// A pod, as far as a job reads it.
#[derive(Debug)]
pub struct Pod {
    pub labels: Option<StringMap>,
    pub annotations: Option<StringMap>,
    /// All of the metadata but the labels and annotations.
    pub meta: ObjectMeta,
    pub spec: Option<k8s_openapi::api::core::v1::PodSpec>,
}

pub type TextMap = Map<Seq<char>, Seq<char>>;

#[verifier::ext_equal]
pub struct PodView {
    pub labels: Option<TextMap>,
    pub annotations: Option<TextMap>,
    pub meta: ObjectMeta,
    pub spec: Option<k8s_openapi::api::core::v1::PodSpec>,
}

pub open spec fn map_view(map: Option<StringMap>) -> Option<TextMap> {
    match map {
        Some(map) => Some(map@),
        None => None,
    }
}

/// What a map that may be left out holds.
pub open spec fn entries(map: Option<TextMap>) -> TextMap {
    match map {
        Some(map) => map,
        None => Map::empty(),
    }
}

impl View for Pod {
    type V = PodView;

    open spec fn view(&self) -> PodView {
        PodView {
            labels: map_view(self.labels),
            annotations: map_view(self.annotations),
            meta: self.meta,
            spec: self.spec,
        }
    }
}

/// A job. Whatever is not named here is left at its default.
#[derive(Debug)]
pub struct Job {
    pub name: String,
    pub labels: StringMap,
    pub annotations: StringMap,
    pub ttl_seconds_after_finished: i32,
    pub backoff_limit: i32,
    /// The pod that the job starts.
    pub template: Pod,
}

#[verifier::ext_equal]
pub struct JobView {
    pub name: Seq<char>,
    pub labels: TextMap,
    pub annotations: TextMap,
    pub ttl_seconds_after_finished: int,
    pub backoff_limit: int,
    pub template: PodView,
}

impl View for Job {
    type V = JobView;

    open spec fn view(&self) -> JobView {
        JobView {
            name: self.name@,
            labels: self.labels@,
            annotations: self.annotations@,
            ttl_seconds_after_finished: self.ttl_seconds_after_finished as int,
            backoff_limit: self.backoff_limit as int,
            template: self.template@,
        }
    }
}

/// The labels that every agent has: sidecars stay out, and the app is known.
pub open spec fn fixed_labels() -> TextMap {
    Map::<Seq<char>, Seq<char>>::empty().insert("kuma.io/sidecar-injection"@, "disabled"@).insert(
        "app"@,
        "mirrord"@,
    )
}

/// The annotations that every agent has: sidecars stay out.
pub open spec fn fixed_annotations() -> TextMap {
    Map::<Seq<char>, Seq<char>>::empty().insert("sidecar.istio.io/inject"@, "false"@).insert(
        "linkerd.io/inject"@,
        "disabled"@,
    )
}

/// The labels of an agent: what is configured, and the fixed ones over it.
pub open spec fn job_labels(config: AgentConfig) -> TextMap {
    entries(map_view(config.labels)).union_prefer_right(fixed_labels())
}

/// The annotations of an agent: what is configured, and the fixed ones over it.
pub open spec fn job_annotations(config: AgentConfig) -> TextMap {
    entries(map_view(config.annotations)).union_prefer_right(fixed_annotations())
}

/// The job that runs a pod: the pod has its own labels and annotations, and those of the
/// job over them.
pub open spec fn job_of(config: AgentConfig, params: ContainerParams, pod: PodView) -> JobView {
    JobView {
        name: params.name@,
        labels: job_labels(config),
        annotations: job_annotations(config),
        ttl_seconds_after_finished: config.ttl as int,
        backoff_limit: 0,
        template: PodView {
            labels: Some(entries(pod.labels).union_prefer_right(job_labels(config))),
            annotations: Some(entries(pod.annotations).union_prefer_right(job_annotations(config))),
            ..pod
        },
    }
}

/// One way to run an agent in the cluster.
pub trait ContainerVariant: Sized {
    /// What is created in the cluster.
    type Update;

    spec fn config(&self) -> AgentConfig;

    spec fn container(&self) -> ContainerParams;

    /// Whether `update` is what this variant wants created.
    spec fn wants(&self, update: Self::Update) -> bool;

    fn agent_config(&self) -> (r: &AgentConfig)
        ensures
            *r == self.config(),
    ;

    fn params(&self) -> (r: &ContainerParams)
        ensures
            *r == self.container(),
    ;

    fn as_update(&self) -> (r: Self::Update)
        ensures
            self.wants(r),
    ;
}

/// An agent that runs as a pod.
pub struct PodVariant<'c> {
    pub agent: &'c AgentConfig,
    pub params: &'c ContainerParams,
    pub pod: Pod,
}

fn clone_option(map: &Option<StringMap>) -> (r: Option<StringMap>)
    ensures
        map_view(r) == map_view(*map),
{
    match map {
        Some(map) => Some(map.clone()),
        None => None,
    }
}

impl<'c> ContainerVariant for PodVariant<'c> {
    type Update = Pod;

    open spec fn config(&self) -> AgentConfig {
        *self.agent
    }

    open spec fn container(&self) -> ContainerParams {
        *self.params
    }

    open spec fn wants(&self, update: Pod) -> bool {
        update@ == self.pod@
    }

    fn agent_config(&self) -> &AgentConfig {
        self.agent
    }

    fn params(&self) -> &ContainerParams {
        self.params
    }

    fn as_update(&self) -> Pod {
        Pod {
            labels: clone_option(&self.pod.labels),
            annotations: clone_option(&self.pod.annotations),
            meta: self.pod.meta.clone(),
            spec: match &self.pod.spec {
                Some(spec) => Some(spec.clone()),
                None => None,
            },
        }
    }
}

/// An agent that runs as a job, which starts the pod of the inner variant.
pub struct JobVariant<T> {
    pub inner: T,
}

impl<'c> JobVariant<PodVariant<'c>> {
    /// A job that starts `pod`.
    pub fn new(agent: &'c AgentConfig, params: &'c ContainerParams, pod: Pod) -> (r: Self)
        ensures
            r.inner.agent == agent,
            r.inner.params == params,
            r.inner.pod == pod,
    {
        JobVariant { inner: PodVariant { agent, params, pod } }
    }
}

impl<T: ContainerVariant<Update = Pod>> ContainerVariant for JobVariant<T> {
    type Update = Job;

    open spec fn config(&self) -> AgentConfig {
        self.inner.config()
    }

    open spec fn container(&self) -> ContainerParams {
        self.inner.container()
    }

    /// The job that runs the pod that the inner variant wants.
    open spec fn wants(&self, update: Job) -> bool {
        exists|pod: Pod|
            #![trigger self.inner.wants(pod)]
            self.inner.wants(pod) && update@ == job_of(self.config(), self.container(), pod@)
    }

    fn agent_config(&self) -> &AgentConfig {
        self.inner.agent_config()
    }

    fn params(&self) -> &ContainerParams {
        self.inner.params()
    }

    fn as_update(&self) -> Job {
        let config = self.agent_config();
        let params = self.params();
        let pod = self.inner.as_update();
        let ghost inner_pod = pod;

        let mut labels = or_empty(clone_option(&config.labels));
        labels.insert("kuma.io/sidecar-injection".to_owned(), "disabled".to_owned());
        labels.insert("app".to_owned(), "mirrord".to_owned());

        let mut annotations = or_empty(clone_option(&config.annotations));
        annotations.insert("sidecar.istio.io/inject".to_owned(), "false".to_owned());
        annotations.insert("linkerd.io/inject".to_owned(), "disabled".to_owned());

        assert(labels@ =~= job_labels(self.config()));
        assert(annotations@ =~= job_annotations(self.config()));

        let mut pod_labels = or_empty(pod.labels);
        pod_labels.extend(&labels);
        let mut pod_annotations = or_empty(pod.annotations);
        pod_annotations.extend(&annotations);

        let job = Job {
            name: params.name.clone(),
            labels,
            annotations,
            ttl_seconds_after_finished: config.ttl as i32,
            backoff_limit: 0,
            template: Pod {
                labels: Some(pod_labels),
                annotations: Some(pod_annotations),
                meta: pod.meta,
                spec: pod.spec,
            },
        };
        assert(job@ =~= job_of(self.config(), self.container(), inner_pod@));
        job
    }
}

fn or_empty(map: Option<StringMap>) -> (r: StringMap)
    ensures
        r@ == entries(map_view(map)),
{
    match map {
        Some(map) => map,
        None => StringMap::new(),
    }
}

/// An agent that runs as a job, with a target.
pub struct JobTargetedVariant<'c> {
    pub inner: JobVariant<PodVariant<'c>>,
}

impl<'c> JobTargetedVariant<'c> {
    /// A job that starts `pod`, which was made for the target.
    pub fn new(agent: &'c AgentConfig, params: &'c ContainerParams, pod: Pod) -> (r: Self)
        ensures
            r.inner.inner.agent == agent,
            r.inner.inner.params == params,
            r.inner.inner.pod == pod,
    {
        JobTargetedVariant { inner: JobVariant::new(agent, params, pod) }
    }
}

impl<'c> ContainerVariant for JobTargetedVariant<'c> {
    type Update = Job;

    open spec fn config(&self) -> AgentConfig {
        self.inner.config()
    }

    open spec fn container(&self) -> ContainerParams {
        self.inner.container()
    }

    open spec fn wants(&self, update: Job) -> bool {
        self.inner.wants(update)
    }

    fn agent_config(&self) -> &AgentConfig {
        self.inner.agent_config()
    }

    fn params(&self) -> &ContainerParams {
        self.inner.params()
    }

    fn as_update(&self) -> Job {
        self.inner.as_update()
    }
}

// ---------------------------------------------------------------------------------
// Laws
// ---------------------------------------------------------------------------------

/// Whatever is configured and whatever the pod says, sidecars stay out of the agent: the
/// fixed labels and annotations are on the job and on its pod.
pub proof fn law_sidecars_stay_out(config: AgentConfig, params: ContainerParams, pod: PodView)
    ensures
        fixed_labels().submap_of(job_of(config, params, pod).labels),
        fixed_annotations().submap_of(job_of(config, params, pod).annotations),
        fixed_labels().submap_of(entries(job_of(config, params, pod).template.labels)),
        fixed_annotations().submap_of(entries(job_of(config, params, pod).template.annotations)),
{
}

/// What is configured is on the job and on its pod, unless a fixed entry is in its place;
/// what the pod itself says stays, unless something of the job is in its place.
pub proof fn law_configured_entries_are_kept(
    config: AgentConfig,
    params: ContainerParams,
    pod: PodView,
    key: Seq<char>,
)
    ensures
        ({
            let job = job_of(config, params, pod);
            let configured = entries(map_view(config.labels));
            let template = entries(job.template.labels);
            &&& configured.contains_key(key) && !fixed_labels().contains_key(key) ==> job.labels[key]
                == configured[key] && template[key] == configured[key]
            &&& entries(pod.labels).contains_key(key) && !job.labels.contains_key(key)
                ==> template[key] == entries(pod.labels)[key]
            &&& template.contains_key(key) <==> entries(pod.labels).contains_key(key)
                || configured.contains_key(key) || fixed_labels().contains_key(key)
        }),
        ({
            let job = job_of(config, params, pod);
            let configured = entries(map_view(config.annotations));
            let template = entries(job.template.annotations);
            &&& configured.contains_key(key) && !fixed_annotations().contains_key(key)
                ==> job.annotations[key] == configured[key] && template[key] == configured[key]
            &&& entries(pod.annotations).contains_key(key) && !job.annotations.contains_key(key)
                ==> template[key] == entries(pod.annotations)[key]
            &&& template.contains_key(key) <==> entries(pod.annotations).contains_key(key)
                || configured.contains_key(key) || fixed_annotations().contains_key(key)
        }),
{
}

/// A job changes nothing of its pod but the labels and annotations.
pub proof fn law_the_pod_is_kept(config: AgentConfig, params: ContainerParams, pod: PodView)
    ensures
        job_of(config, params, pod).template.meta == pod.meta,
        job_of(config, params, pod).template.spec == pod.spec,
{
}

/// A job is made as it is asked for: under the name that its container is given, kept for as
/// long as is configured, and not tried again. It has the labels and annotations that are
/// configured or fixed, and no others.
pub proof fn law_the_job_is_as_asked_for(
    config: AgentConfig,
    params: ContainerParams,
    pod: PodView,
    key: Seq<char>,
)
    ensures
        ({
            let job = job_of(config, params, pod);
            &&& job.name == params.name@
            &&& job.ttl_seconds_after_finished == config.ttl
            &&& job.backoff_limit == 0
            &&& job.labels.contains_key(key) <==> entries(map_view(config.labels)).contains_key(key)
                || key == "app"@ || key == "kuma.io/sidecar-injection"@
            &&& job.annotations.contains_key(key) <==> entries(
                map_view(config.annotations),
            ).contains_key(key) || key == "sidecar.istio.io/inject"@ || key
                == "linkerd.io/inject"@
            &&& job.labels["app"@] == "mirrord"@
            &&& job.template.labels is Some && job.template.annotations is Some
        }),
{
}

/// Sidecars are kept out by these entries, on the job and on its pod, whatever is configured.
pub proof fn law_what_keeps_sidecars_out(
    config: AgentConfig,
    params: ContainerParams,
    pod: PodView,
)
    ensures
        ({
            let job = job_of(config, params, pod);
            let labels = entries(job.template.labels);
            let annotations = entries(job.template.annotations);
            &&& job.labels["kuma.io/sidecar-injection"@] == "disabled"@
            &&& job.labels["app"@] == "mirrord"@
            &&& job.annotations["sidecar.istio.io/inject"@] == "false"@
            &&& job.annotations["linkerd.io/inject"@] == "disabled"@
            &&& labels["kuma.io/sidecar-injection"@] == "disabled"@
            &&& labels["app"@] == "mirrord"@
            &&& annotations["sidecar.istio.io/inject"@] == "false"@
            &&& annotations["linkerd.io/inject"@] == "disabled"@
        }),
{
    reveal_strlit("kuma.io/sidecar-injection");
    reveal_strlit("app");
    reveal_strlit("sidecar.istio.io/inject");
    reveal_strlit("linkerd.io/inject");
    assert("kuma.io/sidecar-injection"@.len() != "app"@.len());
    assert("sidecar.istio.io/inject"@.len() != "linkerd.io/inject"@.len());
}

/// The job that a variant wants runs the very pod of the variant, as its configuration says,
/// whether or not it has a target: nothing of the pod is changed but its labels and
/// annotations, of which none is lost but to those of the job.
pub proof fn law_a_variant_wants_its_own_pod_run<'c>(
    variant: JobVariant<PodVariant<'c>>,
    targeted: JobTargetedVariant<'c>,
    job: Job,
    key: Seq<char>,
)
    requires
        variant.wants(job) || targeted.wants(job) && targeted.inner == variant,
    ensures
        ({
            let pod = variant.inner.pod;
            &&& job.name@ == variant.inner.params.name@
            &&& job.ttl_seconds_after_finished == variant.inner.agent.ttl
            &&& job.backoff_limit == 0
            &&& job.template.meta == pod.meta
            &&& job.template.spec == pod.spec
            &&& job.template.labels is Some && job.template.annotations is Some
            &&& entries(map_view(pod.labels)).contains_key(key) ==> entries(
                map_view(job.template.labels),
            ).contains_key(key)
            &&& entries(map_view(pod.annotations)).contains_key(key) ==> entries(
                map_view(job.template.annotations),
            ).contains_key(key)
            &&& job.labels@["app"@] == "mirrord"@
        }),
{
    let config = *variant.inner.agent;
    let params = *variant.inner.params;
    let made = choose|pod: Pod|
        #![trigger variant.inner.wants(pod)]
        variant.inner.wants(pod) && job@ == job_of(config, params, pod@);
    assert(made@ == variant.inner.pod@);
    law_the_job_is_as_asked_for(config, params, made@, key);
    assert(job@.template == job.template@);
}

/// A pod that is created is the pod of its variant, with all of its labels, annotations and
/// other metadata, and with its specification.
pub proof fn law_a_pod_is_created_as_it_is<'c>(variant: PodVariant<'c>, made: Pod)
    requires
        variant.wants(made),
    ensures
        map_view(made.labels) == map_view(variant.pod.labels),
        map_view(made.annotations) == map_view(variant.pod.annotations),
        made.meta == variant.pod.meta,
        made.spec == variant.pod.spec,
{
    assert(made@.labels == map_view(made.labels));
    assert(variant.pod@.labels == map_view(variant.pod.labels));
}

} // verus!
