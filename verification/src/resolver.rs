//! The chain of lookups as a machine that is stepped from outside.
//!
//! The machine decides; its driver performs. A `Resolver` stands for a chain
//! that waits on one call: `request` says which, and `advance` takes the
//! answer and gives the next step. The cluster is fixed when the chain begins
//! and is the one that every request names.

use crate::ecs::{
    container_instance_in, get_container_arn, get_service_arn, get_task_arn, get_task_container_arn,
    instance_in, service_in, task_in, Request, RequestView, Response, ResponseView, SERVICE_PAGE_SIZE,
};
use crate::error::{SessionError, SessionErrorView, Stage};
use vstd::prelude::*;

verus! {

/// What the operator pointed at: a machine, or a service to be traced to one.
#[derive(Clone, Debug, PartialEq, Eq)]
pub enum Target {
    /// The machine is known; nothing is looked up.
    Instance { instance: String },
    /// The machine is the one that runs the service of `cluster` whose
    /// identifier holds `service`.
    Service { cluster: String, service: String },
}

/// A `Target` as a mathematical value.
pub enum TargetView {
    Instance { instance: Seq<char> },
    Service { cluster: Seq<char>, service: Seq<char> },
}

impl View for Target {
    type V = TargetView;

    open spec fn view(&self) -> TargetView {
        match self {
            Target::Instance { instance } => TargetView::Instance { instance: instance@ },
            Target::Service { cluster, service } => TargetView::Service {
                cluster: cluster@,
                service: service@,
            },
        }
    }
}

/// A chain that waits on the call of one lookup.
///
/// There is one way to get one: `begin`, and then `advance`. So the cluster
/// of a chain is the one that it began with.
#[derive(Clone, Debug, PartialEq, Eq)]
pub struct Resolver {
    cluster: String,
    awaiting: Stage,
    upstream: String,
}

/// A `Resolver` as a mathematical value.
pub struct ResolverView {
    /// The cluster that the whole chain runs in.
    pub cluster: Seq<char>,
    /// The lookup whose answer is awaited.
    pub awaiting: Stage,
    /// What that lookup starts from: the fragment for the first, and for each
    /// later one the identifier that the lookup before it found.
    pub upstream: Seq<char>,
}

impl View for Resolver {
    type V = ResolverView;

    closed spec fn view(&self) -> ResolverView {
        ResolverView { cluster: self.cluster@, awaiting: self.awaiting, upstream: self.upstream@ }
    }
}

/// Where a chain stands.
#[derive(Clone, Debug, PartialEq, Eq)]
pub enum Step {
    /// A call is to be made and its answer handed to `advance`.
    Pending { resolver: Resolver },
    /// The chain has ended on a machine.
    Resolved { instance: String },
    /// The chain has ended without one.
    Failed { error: SessionError },
}

/// A `Step` as a mathematical value.
pub enum StepView {
    Pending { resolver: ResolverView },
    Resolved { instance: Seq<char> },
    Failed { error: SessionErrorView },
}

impl View for Step {
    type V = StepView;

    open spec fn view(&self) -> StepView {
        match self {
            Step::Pending { resolver } => StepView::Pending { resolver: resolver@ },
            Step::Resolved { instance } => StepView::Resolved { instance: instance@ },
            Step::Failed { error } => StepView::Failed { error: error@ },
        }
    }
}

impl TargetView {
    /// The first step towards the target: none to take for a machine, the
    /// listing of services for a service.
    pub open spec fn begin(self) -> StepView {
        match self {
            TargetView::Instance { instance } => StepView::Resolved { instance },
            TargetView::Service { cluster, service } => StepView::Pending {
                resolver: ResolverView { cluster, awaiting: Stage::Service, upstream: service },
            },
        }
    }
}

impl ResolverView {
    /// The call that the chain waits on.
    pub open spec fn request(self) -> RequestView {
        match self.awaiting {
            Stage::Service => RequestView::ListServices {
                cluster: self.cluster,
                max_results: SERVICE_PAGE_SIZE,
            },
            Stage::Task => RequestView::ListTasks { cluster: self.cluster, service: self.upstream },
            Stage::ContainerInstance => RequestView::DescribeTasks {
                cluster: self.cluster,
                task: self.upstream,
            },
            Stage::Instance => RequestView::DescribeContainerInstances {
                cluster: self.cluster,
                container_instance: self.upstream,
            },
        }
    }

    /// The chain at the next lookup, which starts from `found`.
    pub open spec fn onward(self, next: Stage, found: Seq<char>) -> StepView {
        StepView::Pending {
            resolver: ResolverView { cluster: self.cluster, awaiting: next, upstream: found },
        }
    }

    /// The step after the awaited call was answered with `response`.
    ///
    /// A page of services without a match leaves the chain as it is, waiting
    /// on the next page. What a lookup finds is where the next one starts.
    /// Any failure ends the chain.
    pub open spec fn advance(self, response: ResponseView) -> StepView {
        match self.awaiting {
            Stage::Service => match service_in(self.upstream, response) {
                Ok(Some(service)) => self.onward(Stage::Task, service),
                Ok(None) => StepView::Pending { resolver: self },
                Err(error) => StepView::Failed { error },
            },
            Stage::Task => match task_in(self.upstream, response) {
                Ok(task) => self.onward(Stage::ContainerInstance, task),
                Err(error) => StepView::Failed { error },
            },
            Stage::ContainerInstance => match container_instance_in(self.upstream, response) {
                Ok(container_instance) => self.onward(Stage::Instance, container_instance),
                Err(error) => StepView::Failed { error },
            },
            Stage::Instance => match instance_in(self.upstream, response) {
                Ok(instance) => StepView::Resolved { instance },
                Err(error) => StepView::Failed { error },
            },
        }
    }
}

impl Resolver {
    /// Begins the chain towards `target`.
    pub fn begin(target: Target) -> (step: Step)
        ensures
            step@ == target@.begin(),
    {
        match target {
            Target::Instance { instance } => Step::Resolved { instance },
            Target::Service { cluster, service } => Step::Pending {
                resolver: Resolver { cluster, awaiting: Stage::Service, upstream: service },
            },
        }
    }

    /// The cluster that the whole chain runs in.
    pub fn cluster(&self) -> (cluster: &str)
        ensures
            cluster@ == self@.cluster,
    {
        self.cluster.as_str()
    }

    /// The lookup whose answer is awaited.
    pub fn awaiting(&self) -> (stage: Stage)
        ensures
            stage == self@.awaiting,
    {
        self.awaiting
    }

    /// What the awaited lookup starts from: the fragment for the first, and
    /// for each later one the identifier that the lookup before it found.
    pub fn upstream(&self) -> (upstream: &str)
        ensures
            upstream@ == self@.upstream,
    {
        self.upstream.as_str()
    }

    /// The call that the chain waits on.
    pub fn request(&self) -> (request: Request)
        ensures
            request@ == self@.request(),
    {
        match self.awaiting {
            Stage::Service => Request::ListServices {
                cluster: self.cluster.clone(),
                max_results: SERVICE_PAGE_SIZE,
            },
            Stage::Task => Request::ListTasks {
                cluster: self.cluster.clone(),
                service: self.upstream.clone(),
            },
            Stage::ContainerInstance => Request::DescribeTasks {
                cluster: self.cluster.clone(),
                task: self.upstream.clone(),
            },
            Stage::Instance => Request::DescribeContainerInstances {
                cluster: self.cluster.clone(),
                container_instance: self.upstream.clone(),
            },
        }
    }

    fn onward(self, next: Stage, found: String) -> (step: Step)
        ensures
            step@ == self@.onward(next, found@),
    {
        Step::Pending { resolver: Resolver { cluster: self.cluster, awaiting: next, upstream: found } }
    }

    /// Takes the answer to the awaited call and gives the next step.
    pub fn advance(self, response: Response) -> (step: Step)
        ensures
            step@ == self@.advance(response@),
    {
        match self.awaiting {
            Stage::Service => match get_service_arn(self.upstream.as_str(), response) {
                Ok(Some(service)) => self.onward(Stage::Task, service),
                Ok(None) => Step::Pending { resolver: self },
                Err(error) => Step::Failed { error },
            },
            Stage::Task => match get_task_arn(self.upstream.as_str(), response) {
                Ok(task) => self.onward(Stage::ContainerInstance, task),
                Err(error) => Step::Failed { error },
            },
            Stage::ContainerInstance => match get_task_container_arn(self.upstream.as_str(), response) {
                Ok(container_instance) => self.onward(Stage::Instance, container_instance),
                Err(error) => Step::Failed { error },
            },
            Stage::Instance => match get_container_arn(self.upstream.as_str(), response) {
                Ok(instance) => Step::Resolved { instance },
                Err(error) => Step::Failed { error },
            },
        }
    }
}

} // verus!
