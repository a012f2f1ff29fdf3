//! A cluster as the chain sees it, and what the chain comes to against it.
//!
//! Nothing here runs. `ClusterApi` is a management interface whose answers
//! depend on the question alone; `run` is the chain stepped against it call by
//! call; `resolution` says in one expression where that must end.

use crate::ecs::{
    container_instance_in, instance_in, service_in, task_in, RequestView, ResponseView,
};
use crate::error::{Missing, SessionErrorView, Stage};
use crate::resolver::{StepView, TargetView};
use vstd::prelude::*;

verus! {

/// A management interface with fixed answers.
pub struct ClusterApi {
    /// For a cluster, what the listing of its services hands out, item by
    /// item, before it runs out.
    pub services: spec_fn(Seq<char>) -> Seq<ResponseView>,
    /// For a cluster and a service, the answer on its tasks.
    pub tasks: spec_fn(Seq<char>, Seq<char>) -> ResponseView,
    /// For a cluster and a task, the answer that describes it.
    pub described_tasks: spec_fn(Seq<char>, Seq<char>) -> ResponseView,
    /// For a cluster and a container instance, the answer that describes it.
    pub described_container_instances: spec_fn(Seq<char>, Seq<char>) -> ResponseView,
}

/// The item of a listing at `position`; past its end the listing has run out.
pub open spec fn page_at(listing: Seq<ResponseView>, position: nat) -> ResponseView {
    if position < listing.len() {
        listing[position as int]
    } else {
        ResponseView::ServicesExhausted
    }
}

impl ClusterApi {
    /// The answer to `request` when `taken` pages of the listing of services
    /// were handed out before.
    pub open spec fn answer(self, request: RequestView, taken: nat) -> ResponseView {
        match request {
            RequestView::ListServices { cluster, .. } => page_at((self.services)(cluster), taken),
            RequestView::ListTasks { cluster, service } => (self.tasks)(cluster, service),
            RequestView::DescribeTasks { cluster, task } => (self.described_tasks)(cluster, task),
            RequestView::DescribeContainerInstances {
                cluster,
                container_instance,
            } => (self.described_container_instances)(cluster, container_instance),
        }
    }
}

/// A chain under way: where it stands, and how many pages of the listing of
/// services it has asked for.
pub struct Run {
    pub step: StepView,
    pub pages: nat,
}

/// The chain towards `target` once `calls` calls were made and answered by
/// `api`; a chain that has ended makes no further call.
pub open spec fn run(api: ClusterApi, target: TargetView, calls: nat) -> Run
    decreases calls,
{
    if calls == 0 {
        Run { step: target.begin(), pages: 0 }
    } else {
        let before = run(api, target, (calls - 1) as nat);
        match before.step {
            StepView::Pending { resolver } => Run {
                step: resolver.advance(api.answer(resolver.request(), before.pages)),
                pages: if resolver.awaiting == Stage::Service {
                    before.pages + 1
                } else {
                    before.pages
                },
            },
            _ => before,
        }
    }
}

/// An identifier or a failure, and the pages of the listing of services that
/// it took.
pub struct Found {
    pub outcome: Result<Seq<char>, SessionErrorView>,
    pub pages: nat,
}

/// The service that holds `fragment`, sought in `listing` from the page at
/// `from` on: the first match of the first page that has one, unless a page
/// before it fails or the listing runs out. Each page looked at is one
/// asked for, and so is the look past the last.
pub open spec fn search(listing: Seq<ResponseView>, fragment: Seq<char>, from: nat) -> Found
    decreases listing.len() - from,
{
    if from >= listing.len() {
        Found {
            outcome: Err(SessionErrorView::NotFound { missing: Missing::Service, upstream: fragment }),
            pages: from + 1,
        }
    } else {
        match service_in(fragment, listing[from as int]) {
            Ok(Some(service)) => Found { outcome: Ok(service), pages: from + 1 },
            Ok(None) => search(listing, fragment, from + 1),
            Err(error) => Found { outcome: Err(error), pages: from + 1 },
        }
    }
}

/// The machine that runs the service `service` of `cluster`: each lookup
/// starts from what the one before it found, all in the one cluster.
pub open spec fn machine_of(api: ClusterApi, cluster: Seq<char>, service: Seq<char>) -> Result<
    Seq<char>,
    SessionErrorView,
> {
    match task_in(service, (api.tasks)(cluster, service)) {
        Err(error) => Err(error),
        Ok(task) => match container_instance_in(task, (api.described_tasks)(cluster, task)) {
            Err(error) => Err(error),
            Ok(container_instance) => instance_in(
                container_instance,
                (api.described_container_instances)(cluster, container_instance),
            ),
        },
    }
}

/// Where the chain towards `target` ends against `api`.
pub open spec fn resolution(api: ClusterApi, target: TargetView) -> Found {
    match target {
        TargetView::Instance { instance } => Found { outcome: Ok(instance), pages: 0 },
        TargetView::Service { cluster, service } => {
            let found = search((api.services)(cluster), service, 0);
            Found {
                outcome: match found.outcome {
                    Ok(identifier) => machine_of(api, cluster, identifier),
                    Err(error) => Err(error),
                },
                pages: found.pages,
            }
        },
    }
}

/// What a chain that has ended came to.
pub open spec fn ended(step: StepView) -> Option<Result<Seq<char>, SessionErrorView>> {
    match step {
        StepView::Pending { .. } => None,
        StepView::Resolved { instance } => Some(Ok(instance)),
        StepView::Failed { error } => Some(Err(error)),
    }
}

} // verus!
