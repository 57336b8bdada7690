//! From the creation of a job to an agent that can be connected to.

use crate::job::{ContainerVariant, Job};
use crate::text::{joined, same_text};
use vstd::prelude::*;

verus! {

/// For how many seconds the pods of a job are watched at a time.
pub const WATCH_TIMEOUT_SECS: u32 = 60;

/// The container that the agent runs in.
pub const AGENT_CONTAINER: &'static str = "mirrord-agent";

/// Why there is no agent.
#[derive(Debug, PartialEq, Eq)]
pub enum KubeApiError {
    /// The cluster refused a request, with this text.
    KubeError(String),
    AgentPodNotRunning,
    /// A pod lacks a field that all pods have.
    MissingField(&'static str),
    /// The agent did not start up, with this text.
    AgentStartup(String),
}

pub enum KubeApiErrorView {
    KubeError(Seq<char>),
    AgentPodNotRunning,
    MissingField(Seq<char>),
    AgentStartup(Seq<char>),
}

impl View for KubeApiError {
    type V = KubeApiErrorView;

    open spec fn view(&self) -> KubeApiErrorView {
        match self {
            KubeApiError::KubeError(text) => KubeApiErrorView::KubeError(text@),
            KubeApiError::AgentPodNotRunning => KubeApiErrorView::AgentPodNotRunning,
            KubeApiError::MissingField(field) => KubeApiErrorView::MissingField(field@),
            KubeApiError::AgentStartup(text) => KubeApiErrorView::AgentStartup(text@),
        }
    }
}

/// What the user is told of the progress.
#[derive(Debug, PartialEq, Eq)]
pub enum Report {
    /// A step begins.
    Subtask(&'static str),
    /// The step succeeded.
    Success(String),
    /// The step goes on, but something is odd.
    Warning(String),
}

pub enum ReportView {
    Subtask(Seq<char>),
    Success(Seq<char>),
    Warning(Seq<char>),
}

impl View for Report {
    type V = ReportView;

    open spec fn view(&self) -> ReportView {
        match self {
            Report::Subtask(text) => ReportView::Subtask(text@),
            Report::Success(text) => ReportView::Success(text@),
            Report::Warning(text) => ReportView::Warning(text@),
        }
    }
}

pub open spec fn reports_view(reports: Seq<Report>) -> Seq<ReportView> {
    reports.map_values(|r: Report| r@)
}

/// How to connect to an agent.
#[derive(Debug, PartialEq, Eq)]
pub struct AgentKubernetesConnectInfo {
    pub pod_name: String,
    pub pod_namespace: String,
    pub agent_port: u16,
}

pub struct ConnectInfoView {
    pub pod_name: Seq<char>,
    pub pod_namespace: Seq<char>,
    pub agent_port: u16,
}

impl View for AgentKubernetesConnectInfo {
    type V = ConnectInfoView;

    open spec fn view(&self) -> ConnectInfoView {
        ConnectInfoView {
            pod_name: self.pod_name@,
            pod_namespace: self.pod_namespace@,
            agent_port: self.agent_port,
        }
    }
}

/// What the watch on the pods of a job brings.
#[derive(Debug, PartialEq, Eq)]
pub enum PodItem {
    /// A pod was created or has changed.
    Applied { name: Option<String>, namespace: Option<String>, phase: Option<String> },
    /// The watch failed.
    Failed,
    /// The watch is over.
    Ended,
}

pub enum PodItemView {
    Applied {
        name: Option<Seq<char>>,
        namespace: Option<Seq<char>>,
        phase: Option<Seq<char>>,
    },
    Failed,
    Ended,
}

pub open spec fn text_view(text: Option<String>) -> Option<Seq<char>> {
    match text {
        Some(text) => Some(text@),
        None => None,
    }
}

impl View for PodItem {
    type V = PodItemView;

    open spec fn view(&self) -> PodItemView {
        match self {
            PodItem::Applied { name, namespace, phase } => PodItemView::Applied {
                name: text_view(*name),
                namespace: text_view(*namespace),
                phase: text_view(*phase),
            },
            PodItem::Failed => PodItemView::Failed,
            PodItem::Ended => PodItemView::Ended,
        }
    }
}

/// What happens while an agent is created.
#[derive(Debug, PartialEq, Eq)]
pub enum JobEvent {
    /// The request to create the job was answered.
    Created(Result<(), KubeApiError>),
    /// The watch on the pods brought something.
    Pod(PodItem),
    /// The agent started up, and said which version it is of, or did not.
    Started(Result<Option<String>, KubeApiError>),
}

pub enum JobEventView {
    Created(Result<(), KubeApiErrorView>),
    Pod(PodItemView),
    Started(Result<Option<Seq<char>>, KubeApiErrorView>),
}

impl View for JobEvent {
    type V = JobEventView;

    open spec fn view(&self) -> JobEventView {
        match self {
            JobEvent::Created(Ok(())) => JobEventView::Created(Ok(())),
            JobEvent::Created(Err(error)) => JobEventView::Created(Err(error@)),
            JobEvent::Pod(item) => JobEventView::Pod(item@),
            JobEvent::Started(Ok(version)) => JobEventView::Started(Ok(text_view(*version))),
            JobEvent::Started(Err(error)) => JobEventView::Started(Err(error@)),
        }
    }
}

/// What is to be done next for an agent.
#[derive(Debug, PartialEq, Eq)]
pub enum JobNext {
    /// Watch the pods with these labels, and tell what the watch brings.
    WatchPods { labels: String, timeout_secs: u32 },
    /// Tell what the watch brings next.
    NextPod,
    /// Wait until the agent in this container of a pod started up.
    WaitForStartup { pod_name: String, container: &'static str },
    /// There is an agent.
    Done(AgentKubernetesConnectInfo),
    /// There is none.
    Fail(KubeApiError),
}

pub enum JobNextView {
    WatchPods { labels: Seq<char>, timeout_secs: u32 },
    NextPod,
    WaitForStartup { pod_name: Seq<char>, container: Seq<char> },
    Done(ConnectInfoView),
    Fail(KubeApiErrorView),
}

impl View for JobNext {
    type V = JobNextView;

    open spec fn view(&self) -> JobNextView {
        match self {
            JobNext::WatchPods { labels, timeout_secs } => JobNextView::WatchPods {
                labels: labels@,
                timeout_secs: *timeout_secs,
            },
            JobNext::NextPod => JobNextView::NextPod,
            JobNext::WaitForStartup { pod_name, container } => JobNextView::WaitForStartup {
                pod_name: pod_name@,
                container: container@,
            },
            JobNext::Done(info) => JobNextView::Done(info@),
            JobNext::Fail(error) => JobNextView::Fail(error@),
        }
    }
}

/// How far the creation of an agent is.
#[derive(Debug, PartialEq, Eq)]
pub enum JobPhase {
    /// The job is being created.
    Creating,
    /// There is a job, and its pod is awaited.
    Watching,
    /// There is a pod, and it is awaited that it runs.
    Waiting { pod_name: String, pod_namespace: String },
    /// The pod should run, and it is awaited that the agent in it started up.
    Starting { pod_name: String, pod_namespace: String },
    /// There is an agent, or there will be none.
    Finished,
}

pub enum JobPhaseView {
    Creating,
    Watching,
    Waiting { pod_name: Seq<char>, pod_namespace: Seq<char> },
    Starting { pod_name: Seq<char>, pod_namespace: Seq<char> },
    Finished,
}

impl View for JobPhase {
    type V = JobPhaseView;

    open spec fn view(&self) -> JobPhaseView {
        match self {
            JobPhase::Creating => JobPhaseView::Creating,
            JobPhase::Watching => JobPhaseView::Watching,
            JobPhase::Waiting { pod_name, pod_namespace } => JobPhaseView::Waiting {
                pod_name: pod_name@,
                pod_namespace: pod_namespace@,
            },
            JobPhase::Starting { pod_name, pod_namespace } => JobPhaseView::Starting {
                pod_name: pod_name@,
                pod_namespace: pod_namespace@,
            },
            JobPhase::Finished => JobPhaseView::Finished,
        }
    }
}

/// An agent that is being created as a job.
#[derive(Debug, PartialEq, Eq)]
pub struct JobAgent {
    /// The name of the job.
    pub name: String,
    /// The port that the agent listens on.
    pub port: u16,
    pub phase: JobPhase,
}

pub struct JobAgentView {
    pub name: Seq<char>,
    pub port: u16,
    pub phase: JobPhaseView,
}

impl View for JobAgent {
    type V = JobAgentView;

    open spec fn view(&self) -> JobAgentView {
        JobAgentView { name: self.name@, port: self.port, phase: self.phase@ }
    }
}

/// The first thing to do for an agent.
#[derive(Debug)]
pub struct CreateJob {
    /// What the user is told first.
    pub report: Report,
    /// The namespace of the job and of its pod, if not the default one.
    pub namespace: Option<String>,
    pub job: Job,
}

/// Whether an event is one that can happen in a phase.
pub open spec fn expected(phase: JobPhaseView, event: JobEventView) -> bool {
    match phase {
        JobPhaseView::Creating => event is Created,
        JobPhaseView::Watching => event is Pod,
        JobPhaseView::Waiting { .. } => event is Pod,
        JobPhaseView::Starting { .. } => event is Started,
        JobPhaseView::Finished => false,
    }
}

/// The labels of the pods of a job.
pub open spec fn pod_labels(name: Seq<char>) -> Seq<char> {
    "job-name="@ + name
}

pub open spec fn pod_created_text(pod_namespace: Seq<char>, pod_name: Seq<char>) -> Seq<char> {
    "agent pod "@ + pod_namespace + "/"@ + pod_name + " created"@
}

pub open spec fn version_mismatch_text(version: Seq<char>, local: Seq<char>) -> Seq<char> {
    "Agent version "@ + version + " does not match the local mirrord version "@ + local
        + ". This may lead to unexpected errors."@
}

/// What is done for an agent when something happens, what the user is told of it, and how
/// far the agent is afterwards. `local` is the version of mirrord on this side.
pub open spec fn job_step(s: JobAgentView, event: JobEventView, local: Seq<char>) -> (
    JobPhaseView,
    Seq<ReportView>,
    JobNextView,
) {
    match (s.phase, event) {
        (JobPhaseView::Creating, JobEventView::Created(Ok(()))) => (
            JobPhaseView::Watching,
            Seq::empty(),
            JobNextView::WatchPods {
                labels: pod_labels(s.name),
                timeout_secs: WATCH_TIMEOUT_SECS,
            },
        ),
        (JobPhaseView::Creating, JobEventView::Created(Err(error))) => job_failed(error),
        (
            JobPhaseView::Watching,
            JobEventView::Pod(PodItemView::Applied { name, namespace, .. }),
        ) => if name is None {
            job_failed(KubeApiErrorView::MissingField(".metadata.name"@))
        } else if namespace is None {
            job_failed(KubeApiErrorView::MissingField(".metadata.namespace"@))
        } else {
            (
                JobPhaseView::Waiting { pod_name: name->0, pod_namespace: namespace->0 },
                seq![
                    ReportView::Success(pod_created_text(namespace->0, name->0)),
                    ReportView::Subtask("waiting for pod to be ready..."@),
                ],
                JobNextView::NextPod,
            )
        },
        (JobPhaseView::Watching, JobEventView::Pod(_)) => job_failed(
            KubeApiErrorView::AgentPodNotRunning,
        ),
        (JobPhaseView::Waiting { pod_name, pod_namespace }, JobEventView::Pod(item)) => match item {
            // Nothing is known of the pod but that it does not run yet.
            PodItemView::Applied { phase, .. } if phase != Some("Running"@) => (
                s.phase,
                Seq::empty(),
                JobNextView::NextPod,
            ),
            _ => (
                JobPhaseView::Starting { pod_name, pod_namespace },
                Seq::empty(),
                JobNextView::WaitForStartup { pod_name, container: AGENT_CONTAINER@ },
            ),
        },
        (
            JobPhaseView::Starting { pod_name, pod_namespace },
            JobEventView::Started(Ok(version)),
        ) => (
            JobPhaseView::Finished,
            if version is Some && version->0 != local {
                seq![
                    ReportView::Warning(version_mismatch_text(version->0, local)),
                    ReportView::Success("pod is ready"@),
                ]
            } else {
                seq![ReportView::Success("pod is ready"@)]
            },
            JobNextView::Done(ConnectInfoView { pod_name, pod_namespace, agent_port: s.port }),
        ),
        (JobPhaseView::Starting { .. }, JobEventView::Started(Err(error))) => job_failed(error),
        (phase, _) => (phase, Seq::empty(), JobNextView::NextPod),
    }
}

pub open spec fn job_failed(error: KubeApiErrorView) -> (
    JobPhaseView,
    Seq<ReportView>,
    JobNextView,
) {
    (JobPhaseView::Finished, Seq::empty(), JobNextView::Fail(error))
}

/// Starts the creation of an agent.
pub fn create_job_agent<V: ContainerVariant<Update = Job>>(variant: &V) -> (r: (
    JobAgent,
    CreateJob,
))
    ensures
        r.0@ == (JobAgentView {
            name: variant.container().name@,
            port: variant.container().port,
            phase: JobPhaseView::Creating,
        }),
        r.1.report@ == ReportView::Subtask("creating agent pod..."@),
        text_view(r.1.namespace) == text_view(variant.config().namespace),
        variant.wants(r.1.job),
{
    let job = variant.as_update();
    let namespace = match &variant.agent_config().namespace {
        Some(namespace) => Some(namespace.clone()),
        None => None,
    };
    let params = variant.params();
    (
        JobAgent { name: params.name.clone(), port: params.port, phase: JobPhase::Creating },
        CreateJob { report: Report::Subtask("creating agent pod..."), namespace, job },
    )
}

impl JobAgent {
    /// Decides what to do next. `local` is the version of mirrord on this side.
    pub fn handle(&mut self, event: JobEvent, local: &str) -> (r: (Vec<Report>, JobNext))
        requires
            expected(old(self)@.phase, event@),
        ensures
            final(self)@ == (JobAgentView {
                phase: job_step(old(self)@, event@, local@).0,
                ..old(self)@
            }),
            reports_view(r.0@) == job_step(old(self)@, event@, local@).1,
            r.1@ == job_step(old(self)@, event@, local@).2,
    {
        let mut phase = JobPhase::Finished;
        std::mem::swap(&mut phase, &mut self.phase);
        let mut reports: Vec<Report> = Vec::new();
        assert(reports_view(reports@) =~= Seq::empty());
        let next = match (phase, event) {
            (JobPhase::Creating, JobEvent::Created(Ok(()))) => {
                self.phase = JobPhase::Watching;
                let mut labels = "job-name=".to_owned();
                labels.append(self.name.as_str());
                JobNext::WatchPods { labels, timeout_secs: WATCH_TIMEOUT_SECS }
            },
            (JobPhase::Creating, JobEvent::Created(Err(error))) => JobNext::Fail(error),
            (JobPhase::Watching, JobEvent::Pod(item)) => self.first_pod(item, &mut reports),
            (JobPhase::Waiting { pod_name, pod_namespace }, JobEvent::Pod(item)) => {
                if keep_waiting(&item) {
                    self.phase = JobPhase::Waiting { pod_name, pod_namespace };
                    JobNext::NextPod
                } else {
                    let waited_for = pod_name.clone();
                    self.phase = JobPhase::Starting { pod_name, pod_namespace };
                    JobNext::WaitForStartup { pod_name: waited_for, container: AGENT_CONTAINER }
                }
            },
            (JobPhase::Starting { pod_name, pod_namespace }, JobEvent::Started(Ok(version))) => {
                if let Some(version) = &version {
                    if !same_text(version.as_str(), local) {
                        let mut text = joined(
                            "Agent version ",
                            version.as_str(),
                            " does not match the local mirrord version ",
                        );
                        text.append(local);
                        text.append(". This may lead to unexpected errors.");
                        reports.push(Report::Warning(text));
                    }
                }
                reports.push(Report::Success("pod is ready".to_owned()));
                assert(reports_view(reports@) =~= job_step(old(self)@, event@, local@).1);
                JobNext::Done(
                    AgentKubernetesConnectInfo { pod_name, pod_namespace, agent_port: self.port },
                )
            },
            (JobPhase::Starting { .. }, JobEvent::Started(Err(error))) => JobNext::Fail(error),
            (other, _) => {
                self.phase = other;
                JobNext::NextPod
            },
        };
        (reports, next)
    }

    /// Takes the first thing that the watch brought: it has to be the pod.
    fn first_pod(&mut self, item: PodItem, reports: &mut Vec<Report>) -> (r: JobNext)
        requires
            old(self)@.phase is Finished,
            old(reports)@.len() == 0,
        ensures
            ({
                let before = JobAgentView { phase: JobPhaseView::Watching, ..old(self)@ };
                let step = job_step(before, JobEventView::Pod(item@), Seq::empty());
                &&& final(self)@ == JobAgentView { phase: step.0, ..old(self)@ }
                &&& reports_view(final(reports)@) == step.1
                &&& r@ == step.2
            }),
    {
        match item {
            PodItem::Applied { name, namespace, phase: _ } => {
                let pod_name = match name {
                    Some(name) => name,
                    None => {
                        assert(reports_view(reports@) =~= Seq::empty());
                        return JobNext::Fail(KubeApiError::MissingField(".metadata.name"));
                    },
                };
                let pod_namespace = match namespace {
                    Some(namespace) => namespace,
                    None => {
                        assert(reports_view(reports@) =~= Seq::empty());
                        return JobNext::Fail(KubeApiError::MissingField(".metadata.namespace"));
                    },
                };
                let mut text = joined("agent pod ", pod_namespace.as_str(), "/");
                text.append(pod_name.as_str());
                text.append(" created");
                reports.push(Report::Success(text));
                reports.push(Report::Subtask("waiting for pod to be ready..."));
                assert(reports_view(reports@) =~= seq![
                    ReportView::Success(pod_created_text(pod_namespace@, pod_name@)),
                    ReportView::Subtask("waiting for pod to be ready..."@),
                ]);
                self.phase = JobPhase::Waiting { pod_name, pod_namespace };
                JobNext::NextPod
            },
            _ => {
                assert(reports_view(reports@) =~= Seq::empty());
                JobNext::Fail(KubeApiError::AgentPodNotRunning)
            },
        }
    }
}

/// Whether the pod has changed, but does not run yet.
fn keep_waiting(item: &PodItem) -> (r: bool)
    ensures
        r == (item@ matches PodItemView::Applied { phase, .. } && phase != Some("Running"@)),
{
    match item {
        PodItem::Applied { phase: Some(phase), .. } => !same_text(phase.as_str(), "Running"),
        PodItem::Applied { phase: None, .. } => true,
        _ => false,
    }
}

// ---------------------------------------------------------------------------------
// Laws
// ---------------------------------------------------------------------------------

/// How far an agent is after some events.
pub open spec fn job_run(s: JobAgentView, events: Seq<JobEventView>, local: Seq<char>) -> JobAgentView
    decreases events.len(),
{
    if events.len() == 0 {
        s
    } else {
        let before = job_run(s, events.drop_last(), local);
        JobAgentView { phase: job_step(before, events.last(), local).0, ..before }
    }
}

/// Whether all events are ones that can happen, in this order.
pub open spec fn all_expected(s: JobAgentView, events: Seq<JobEventView>, local: Seq<char>) -> bool {
    forall|i: int|
        0 <= i < events.len() ==> expected(
            job_run(s, events.take(i), local).phase,
            #[trigger] events[i],
        )
}

/// Whether a job was created and its first pod has this name and namespace.
pub open spec fn first_pod_is(
    events: Seq<JobEventView>,
    pod_name: Seq<char>,
    pod_namespace: Seq<char>,
) -> bool {
    &&& events.len() >= 2
    &&& events[0] matches JobEventView::Created(Ok(_))
    &&& events[1] matches JobEventView::Pod(PodItemView::Applied { name, namespace, .. }) && name
        == Some(pod_name) && namespace == Some(pod_namespace)
}

/// If there is an agent in the end, then its job was created, it is the first pod that the
/// job brought, it is reached at the port it was given, and it has started up.
pub proof fn law_the_agent_is_the_first_pod(
    name: Seq<char>,
    port: u16,
    events: Seq<JobEventView>,
    local: Seq<char>,
)
    requires
        events.len() > 0,
        all_expected(JobAgentView { name, port, phase: JobPhaseView::Creating }, events, local),
    ensures
        ({
            let start = JobAgentView { name, port, phase: JobPhaseView::Creating };
            let before = job_run(start, events.drop_last(), local);
            job_step(before, events.last(), local).2 matches JobNextView::Done(info) ==> {
                &&& first_pod_is(events, info.pod_name, info.pod_namespace)
                &&& info.agent_port == port
                &&& events.last() matches JobEventView::Started(Ok(_))
            }
        }),
{
    let start = JobAgentView { name, port, phase: JobPhaseView::Creating };
    let earlier = events.drop_last();
    assert(events.take(events.len() - 1) =~= earlier);
    assert(expected(job_run(start, earlier, local).phase, events[events.len() - 1]));
    assert(all_expected(start, earlier, local)) by {
        assert forall|i: int| 0 <= i < earlier.len() implies expected(
            job_run(start, earlier.take(i), local).phase,
            #[trigger] earlier[i],
        ) by {
            assert(earlier.take(i) =~= events.take(i));
            assert(earlier[i] == events[i]);
        }
    }
    lemma_phases(name, port, earlier, local);
}

proof fn lemma_phases(name: Seq<char>, port: u16, events: Seq<JobEventView>, local: Seq<char>)
    requires
        all_expected(JobAgentView { name, port, phase: JobPhaseView::Creating }, events, local),
    ensures
        ({
            let start = JobAgentView { name, port, phase: JobPhaseView::Creating };
            let s = job_run(start, events, local);
            &&& s.name == name
            &&& s.port == port
            &&& match s.phase {
                JobPhaseView::Creating => events.len() == 0,
                JobPhaseView::Watching => events.len() == 1 && events[0] matches
                    JobEventView::Created(Ok(_)),
                JobPhaseView::Waiting { pod_name, pod_namespace } => first_pod_is(
                    events,
                    pod_name,
                    pod_namespace,
                ),
                JobPhaseView::Starting { pod_name, pod_namespace } => first_pod_is(
                    events,
                    pod_name,
                    pod_namespace,
                ),
                JobPhaseView::Finished => true,
            }
        }),
    decreases events.len(),
{
    let start = JobAgentView { name, port, phase: JobPhaseView::Creating };
    if events.len() > 0 {
        let earlier = events.drop_last();
        assert(events.take(events.len() - 1) =~= earlier);
        assert(expected(job_run(start, earlier, local).phase, events[events.len() - 1]));
        assert(all_expected(start, earlier, local)) by {
            assert forall|i: int| 0 <= i < earlier.len() implies expected(
                job_run(start, earlier.take(i), local).phase,
                #[trigger] earlier[i],
            ) by {
                assert(earlier.take(i) =~= events.take(i));
                assert(earlier[i] == events[i]);
            }
        }
        lemma_phases(name, port, earlier, local);
    }
}

/// The events of a pod that does not run yet: one for each of these phases.
pub open spec fn not_yet(
    pod_name: Option<Seq<char>>,
    pod_namespace: Option<Seq<char>>,
    phases: Seq<Option<Seq<char>>>,
) -> Seq<JobEventView> {
    phases.map_values(
        |phase: Option<Seq<char>>|
            JobEventView::Pod(
                PodItemView::Applied { name: pod_name, namespace: pod_namespace, phase },
            ),
    )
}

/// Whatever phases its pod goes through first, an agent whose job is created, whose pod then
/// runs, and which starts up, is there in the end. On the way, the pods of the job are watched
/// for a minute, and the agent's container of the very pod is waited for. The pod of a later
/// event makes no difference.
pub proof fn law_a_pod_that_runs_becomes_an_agent(
    name: Seq<char>,
    port: u16,
    pod_name: Seq<char>,
    pod_namespace: Seq<char>,
    later: (Option<Seq<char>>, Option<Seq<char>>),
    first_phase: Option<Seq<char>>,
    phases: Seq<Option<Seq<char>>>,
    version: Option<Seq<char>>,
    local: Seq<char>,
)
    requires
        forall|i: int| 0 <= i < phases.len() ==> #[trigger] phases[i] != Some("Running"@),
    ensures
        ({
            let start = JobAgentView { name, port, phase: JobPhaseView::Creating };
            let created = JobEventView::Created(Ok(()));
            let found = JobEventView::Pod(
                PodItemView::Applied {
                    name: Some(pod_name),
                    namespace: Some(pod_namespace),
                    phase: first_phase,
                },
            );
            let running = JobEventView::Pod(
                PodItemView::Applied {
                    name: later.0,
                    namespace: later.1,
                    phase: Some("Running"@),
                },
            );
            let watching = job_run(start, seq![created], local);
            let waiting = job_run(
                start,
                seq![created, found] + not_yet(later.0, later.1, phases),
                local,
            );
            let starting = JobAgentView { phase: job_step(waiting, running, local).0, ..waiting };
            &&& job_step(start, created, local).2 == (JobNextView::WatchPods {
                labels: "job-name="@ + name,
                timeout_secs: 60,
            })
            &&& job_step(watching, found, local).2 == JobNextView::NextPod
            &&& job_step(waiting, running, local).2 == (JobNextView::WaitForStartup {
                pod_name,
                container: "mirrord-agent"@,
            })
            &&& job_step(starting, JobEventView::Started(Ok(version)), local).2
                == JobNextView::Done(
                ConnectInfoView { pod_name, pod_namespace, agent_port: port },
            )
        }),
{
    let start = JobAgentView { name, port, phase: JobPhaseView::Creating };
    let created = JobEventView::Created(Ok(()));
    assert(seq![created].drop_last() =~= Seq::empty());
    assert(job_run(start, Seq::empty(), local) == start);
    lemma_waiting(name, port, pod_name, pod_namespace, later, first_phase, phases, local);
}

proof fn lemma_waiting(
    name: Seq<char>,
    port: u16,
    pod_name: Seq<char>,
    pod_namespace: Seq<char>,
    later: (Option<Seq<char>>, Option<Seq<char>>),
    first_phase: Option<Seq<char>>,
    phases: Seq<Option<Seq<char>>>,
    local: Seq<char>,
)
    requires
        forall|i: int| 0 <= i < phases.len() ==> #[trigger] phases[i] != Some("Running"@),
    ensures
        ({
            let start = JobAgentView { name, port, phase: JobPhaseView::Creating };
            let found = JobEventView::Pod(
                PodItemView::Applied {
                    name: Some(pod_name),
                    namespace: Some(pod_namespace),
                    phase: first_phase,
                },
            );
            job_run(
                start,
                seq![JobEventView::Created(Ok(())), found] + not_yet(later.0, later.1, phases),
                local,
            ) == (JobAgentView {
                name,
                port,
                phase: JobPhaseView::Waiting { pod_name, pod_namespace },
            })
        }),
    decreases phases.len(),
{
    let start = JobAgentView { name, port, phase: JobPhaseView::Creating };
    let created = JobEventView::Created(Ok(()));
    let found = JobEventView::Pod(
        PodItemView::Applied {
            name: Some(pod_name),
            namespace: Some(pod_namespace),
            phase: first_phase,
        },
    );
    let events = seq![created, found] + not_yet(later.0, later.1, phases);
    if phases.len() == 0 {
        assert(events.drop_last() =~= seq![created]);
        assert(events.last() == found);
        assert(seq![created].drop_last() =~= Seq::empty());
        assert(job_run(start, Seq::empty(), local) == start);
        assert(job_run(start, seq![created], local).phase == JobPhaseView::Watching);
    } else {
        let earlier = phases.drop_last();
        assert forall|i: int| 0 <= i < earlier.len() implies #[trigger] earlier[i] != Some(
            "Running"@,
        ) by {
            assert(earlier[i] == phases[i]);
        }
        lemma_waiting(name, port, pod_name, pod_namespace, later, first_phase, earlier, local);
        assert(events.drop_last() =~= seq![created, found] + not_yet(later.0, later.1, earlier));
        assert(phases[phases.len() - 1] != Some("Running"@));
    }
}

/// An agent that fails does so with the error that came, and is then finished: the one that
/// the cluster answered the request for the job with, or the one of the agent that did not
/// start up. A pod without a name or a namespace is told by the field, and a watch that
/// brings no pod at all means that no pod runs.
pub proof fn law_failures_are_passed_on(
    s: JobAgentView,
    error: KubeApiErrorView,
    item: PodItemView,
    local: Seq<char>,
)
    ensures
        s.phase is Creating ==> job_step(s, JobEventView::Created(Err(error)), local).2
            == JobNextView::Fail(error),
        s.phase is Starting ==> job_step(s, JobEventView::Started(Err(error)), local).2
            == JobNextView::Fail(error),
        s.phase is Watching ==> match item {
            PodItemView::Applied { name: None, .. } => job_step(
                s,
                JobEventView::Pod(item),
                local,
            ).2 == JobNextView::Fail(KubeApiErrorView::MissingField(".metadata.name"@)),
            PodItemView::Applied { name: Some(_), namespace: None, .. } => job_step(
                s,
                JobEventView::Pod(item),
                local,
            ).2 == JobNextView::Fail(KubeApiErrorView::MissingField(".metadata.namespace"@)),
            PodItemView::Applied { .. } => !(job_step(s, JobEventView::Pod(item), local).2 is Fail),
            _ => job_step(s, JobEventView::Pod(item), local).2 == JobNextView::Fail(
                KubeApiErrorView::AgentPodNotRunning,
            ),
        },
        s.phase is Waiting ==> !(job_step(s, JobEventView::Pod(item), local).2 is Fail),
{
}

/// There is no more to do exactly where there is an agent or a failure, and nothing is told
/// of a failure but the failure itself.
pub proof fn law_an_agent_is_finished_once(s: JobAgentView, event: JobEventView, local: Seq<char>)
    requires
        expected(s.phase, event),
    ensures
        ({
            let (phase, reports, next) = job_step(s, event, local);
            &&& phase is Finished <==> next is Done || next is Fail
            &&& next is Fail ==> reports.len() == 0
            &&& next is Done ==> (event matches JobEventView::Started(Ok(_)))
        }),
{
}

/// The user is told of the pod by its name and its namespace, and that it is ready once it
/// is. They are warned exactly if the agent told a version and it is not the one on this
/// side, and the warning tells both.
pub proof fn law_the_user_is_told(
    s: JobAgentView,
    pod: (Seq<char>, Seq<char>, Option<Seq<char>>),
    version: Option<Seq<char>>,
    local: Seq<char>,
)
    ensures
        s.phase is Watching ==> job_step(
            s,
            JobEventView::Pod(
                PodItemView::Applied { name: Some(pod.0), namespace: Some(pod.1), phase: pod.2 },
            ),
            local,
        ).1 =~= seq![
            ReportView::Success("agent pod "@ + pod.1 + "/"@ + pod.0 + " created"@),
            ReportView::Subtask("waiting for pod to be ready..."@),
        ],
        s.phase is Starting ==> ({
            let reports = job_step(s, JobEventView::Started(Ok(version)), local).1;
            let differs = version is Some && version->0 != local;
            &&& reports.len() == if differs {
                2int
            } else {
                1
            }
            &&& reports.last() == ReportView::Success("pod is ready"@)
            &&& differs ==> reports[0] == ReportView::Warning(
                "Agent version "@ + version->0 + " does not match the local mirrord version "@
                    + local + ". This may lead to unexpected errors."@,
            )
        }),
{
}

/// An agent is created under the name and with the port of its container, in the namespace
/// that is configured, and as the job that its variant wants.
pub proof fn law_an_agent_is_created_as_its_variant_wants<V: ContainerVariant<Update = Job>>(
    variant: V,
    r: (JobAgent, CreateJob),
)
    requires
        call_ensures(create_job_agent::<V>, (&variant,), r),
    ensures
        r.0.name@ == variant.container().name@,
        r.0.port == variant.container().port,
        r.0.phase is Creating,
        r.1.namespace is Some <==> variant.config().namespace is Some,
        r.1.namespace matches Some(namespace) ==> namespace@ == variant.config().namespace->0@,
        variant.wants(r.1.job),
{
    assert(r.0@.name == r.0.name@ && r.0@.port == r.0.port);
    assert(r.0@.phase == r.0.phase@);
}

/// While a pod is awaited, only another state of a pod that does not run keeps it waiting:
/// that the pod runs, that the watch failed and that it is over all lead to the wait for the
/// agent in the very pod, whose outcome decides.
pub proof fn law_only_a_pod_that_does_not_run_is_waited_for(
    s: JobAgentView,
    pod_name: Seq<char>,
    pod_namespace: Seq<char>,
    item: PodItemView,
    local: Seq<char>,
)
    requires
        s.phase == (JobPhaseView::Waiting { pod_name, pod_namespace }),
    ensures
        ({
            let (phase, reports, next) = job_step(s, JobEventView::Pod(item), local);
            let not_running = item matches PodItemView::Applied { phase, .. } && phase != Some(
                "Running"@,
            );
            &&& reports.len() == 0
            &&& not_running <==> next is NextPod
            &&& not_running ==> phase == s.phase
            &&& !not_running ==> next == (JobNextView::WaitForStartup {
                pod_name,
                container: "mirrord-agent"@,
            }) && phase == (JobPhaseView::Starting { pod_name, pod_namespace })
        }),
{
}

} // verus!
