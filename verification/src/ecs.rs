//! The four lookups, each as a function of what the cluster answered.
//!
//! A lookup is one call to the cluster's management interface (the first: one
//! call per page) and a choice among what came back. The calls are made
//! elsewhere; here stand the requests as values, the answers as values, and
//! the choice.

use crate::error::{Missing, SessionError, SessionErrorView, Stage};
use crate::fragment::{find_first, first_match};
use vstd::prelude::*;

verus! {

/// The number of services asked for per page of the listing.
pub const SERVICE_PAGE_SIZE: i32 = 100;

/// A call to the cluster's management interface.
#[derive(Clone, Debug, PartialEq, Eq)]
pub enum Request {
    /// The next page of the listing of the cluster's services, of at most
    /// `max_results` identifiers. The first such request opens the listing.
    ListServices { cluster: String, max_results: i32 },
    /// The tasks of a service, in one answer.
    ListTasks { cluster: String, service: String },
    /// The details of one task.
    DescribeTasks { cluster: String, task: String },
    /// The details of one container instance.
    DescribeContainerInstances { cluster: String, container_instance: String },
}

/// A `Request` as a mathematical value.
pub enum RequestView {
    ListServices { cluster: Seq<char>, max_results: i32 },
    ListTasks { cluster: Seq<char>, service: Seq<char> },
    DescribeTasks { cluster: Seq<char>, task: Seq<char> },
    DescribeContainerInstances { cluster: Seq<char>, container_instance: Seq<char> },
}

impl View for Request {
    type V = RequestView;

    open spec fn view(&self) -> RequestView {
        match self {
            Request::ListServices { cluster, max_results } => RequestView::ListServices {
                cluster: cluster@,
                max_results: *max_results,
            },
            Request::ListTasks { cluster, service } => RequestView::ListTasks {
                cluster: cluster@,
                service: service@,
            },
            Request::DescribeTasks { cluster, task } => RequestView::DescribeTasks {
                cluster: cluster@,
                task: task@,
            },
            Request::DescribeContainerInstances {
                cluster,
                container_instance,
            } => RequestView::DescribeContainerInstances {
                cluster: cluster@,
                container_instance: container_instance@,
            },
        }
    }
}

impl RequestView {
    /// The cluster that the call is made in.
    pub open spec fn cluster(self) -> Seq<char> {
        match self {
            RequestView::ListServices { cluster, .. } => cluster,
            RequestView::ListTasks { cluster, .. } => cluster,
            RequestView::DescribeTasks { cluster, .. } => cluster,
            RequestView::DescribeContainerInstances { cluster, .. } => cluster,
        }
    }
}

/// What the chain reads of a described task.
#[derive(Clone, Debug, PartialEq, Eq)]
pub struct Task {
    /// The container instance that hosts the task, while it is placed.
    pub container_instance_arn: Option<String>,
}

/// A `Task` as a mathematical value.
pub struct TaskView {
    pub container_instance_arn: Option<Seq<char>>,
}

impl View for Task {
    type V = TaskView;

    open spec fn view(&self) -> TaskView {
        TaskView { container_instance_arn: self.container_instance_arn.deep_view() }
    }
}

impl DeepView for Task {
    type V = TaskView;

    open spec fn deep_view(&self) -> TaskView {
        self@
    }
}

/// What the chain reads of a described container instance.
#[derive(Clone, Debug, PartialEq, Eq)]
pub struct ContainerInstance {
    /// The machine under the container instance, while it is attached.
    pub ec2_instance_id: Option<String>,
}

/// A `ContainerInstance` as a mathematical value.
pub struct ContainerInstanceView {
    pub ec2_instance_id: Option<Seq<char>>,
}

impl View for ContainerInstance {
    type V = ContainerInstanceView;

    open spec fn view(&self) -> ContainerInstanceView {
        ContainerInstanceView { ec2_instance_id: self.ec2_instance_id.deep_view() }
    }
}

impl DeepView for ContainerInstance {
    type V = ContainerInstanceView;

    open spec fn deep_view(&self) -> ContainerInstanceView {
        self@
    }
}

/// What came back from a call. Each list is as the cluster sent it, absent
/// where the answer held none.
#[derive(Clone, Debug, PartialEq, Eq)]
pub enum Response {
    /// One page of the listing of services.
    ServicePage { service_arns: Option<Vec<String>> },
    /// The listing of services has no further page.
    ServicesExhausted,
    /// The tasks of the service.
    Tasks { task_arns: Option<Vec<String>> },
    /// The tasks that were described.
    DescribedTasks { tasks: Option<Vec<Task>> },
    /// The container instances that were described.
    DescribedContainerInstances { container_instances: Option<Vec<ContainerInstance>> },
    /// The call failed; `message` says how.
    Failure { message: String },
}

/// A `Response` as a mathematical value.
pub enum ResponseView {
    ServicePage { service_arns: Option<Seq<Seq<char>>> },
    ServicesExhausted,
    Tasks { task_arns: Option<Seq<Seq<char>>> },
    DescribedTasks { tasks: Option<Seq<TaskView>> },
    DescribedContainerInstances { container_instances: Option<Seq<ContainerInstanceView>> },
    Failure { message: Seq<char> },
}

impl View for Response {
    type V = ResponseView;

    open spec fn view(&self) -> ResponseView {
        match self {
            Response::ServicePage { service_arns } => ResponseView::ServicePage {
                service_arns: service_arns.deep_view(),
            },
            Response::ServicesExhausted => ResponseView::ServicesExhausted,
            Response::Tasks { task_arns } => ResponseView::Tasks { task_arns: task_arns.deep_view() },
            Response::DescribedTasks { tasks } => ResponseView::DescribedTasks {
                tasks: tasks.deep_view(),
            },
            Response::DescribedContainerInstances {
                container_instances,
            } => ResponseView::DescribedContainerInstances {
                container_instances: container_instances.deep_view(),
            },
            Response::Failure { message } => ResponseView::Failure { message: message@ },
        }
    }
}

/// The items of a list that may be absent: none where it is.
pub open spec fn listed<T>(list: Option<Seq<T>>) -> Seq<T> {
    match list {
        Some(items) => items,
        None => Seq::empty(),
    }
}

/// What an answer to another call is reported as.
pub open spec fn mismatch() -> Seq<char> {
    "the answer is not one to this call"@
}

/// The error of a call that failed with `message`, or, where `response` is
/// no failure, of an answer that is not one to the call.
pub open spec fn transport(stage: Stage, upstream: Seq<char>, response: ResponseView) -> SessionErrorView {
    SessionErrorView::Transport {
        stage,
        upstream,
        message: match response {
            ResponseView::Failure { message } => message,
            _ => mismatch(),
        },
    }
}

/// The first lookup on one answer: the first identifier of the page that
/// holds `fragment`, or none where the page has no such identifier and the
/// listing is to be read on. A listing that has run out holds no such
/// service.
pub open spec fn service_in(fragment: Seq<char>, response: ResponseView) -> Result<
    Option<Seq<char>>,
    SessionErrorView,
> {
    match response {
        ResponseView::ServicePage { service_arns } => Ok(first_match(listed(service_arns), fragment)),
        ResponseView::ServicesExhausted => Err(
            SessionErrorView::NotFound { missing: Missing::Service, upstream: fragment },
        ),
        _ => Err(transport(Stage::Service, fragment, response)),
    }
}

/// The second lookup: the last of the service's tasks. A service's tasks
/// are held to be interchangeable, so that any of them leads to a machine
/// that runs the service; the one taken is the last that was listed.
pub open spec fn task_in(service: Seq<char>, response: ResponseView) -> Result<
    Seq<char>,
    SessionErrorView,
> {
    match response {
        ResponseView::Tasks { task_arns } => if listed(task_arns).len() == 0 {
            Err(SessionErrorView::NotFound { missing: Missing::Task, upstream: service })
        } else {
            Ok(listed(task_arns).last())
        },
        _ => Err(transport(Stage::Task, service, response)),
    }
}

/// The third lookup: the container instance of the last task described.
pub open spec fn container_instance_in(task: Seq<char>, response: ResponseView) -> Result<
    Seq<char>,
    SessionErrorView,
> {
    match response {
        ResponseView::DescribedTasks { tasks } => if listed(tasks).len() == 0 {
            Err(SessionErrorView::NotFound { missing: Missing::TaskDetail, upstream: task })
        } else {
            match listed(tasks).last().container_instance_arn {
                Some(container_instance) => Ok(container_instance),
                None => Err(
                    SessionErrorView::NotFound { missing: Missing::ContainerInstance, upstream: task },
                ),
            }
        },
        _ => Err(transport(Stage::ContainerInstance, task, response)),
    }
}

/// The fourth lookup: the machine of the last container instance described.
pub open spec fn instance_in(container_instance: Seq<char>, response: ResponseView) -> Result<
    Seq<char>,
    SessionErrorView,
> {
    match response {
        ResponseView::DescribedContainerInstances {
            container_instances,
        } => if listed(container_instances).len() == 0 {
            Err(
                SessionErrorView::NotFound {
                    missing: Missing::ContainerInstanceDetail,
                    upstream: container_instance,
                },
            )
        } else {
            match listed(container_instances).last().ec2_instance_id {
                Some(instance) => Ok(instance),
                None => Err(
                    SessionErrorView::NotFound {
                        missing: Missing::Instance,
                        upstream: container_instance,
                    },
                ),
            }
        },
        _ => Err(transport(Stage::Instance, container_instance, response)),
    }
}

/// What the first lookup made of one answer, as a mathematical value.
pub open spec fn search_view(found: Result<Option<String>, SessionError>) -> Result<
    Option<Seq<char>>,
    SessionErrorView,
> {
    match found {
        Ok(service) => Ok(service.deep_view()),
        Err(error) => Err(error@),
    }
}

/// The error of an answer that cannot be used at `stage`.
fn unusable(stage: Stage, upstream: &str, response: Response) -> (error: SessionError)
    ensures
        error@ == transport(stage, upstream@, response@),
{
    let message = match response {
        Response::Failure { message } => message,
        _ => "the answer is not one to this call".to_owned(),
    };
    SessionError::Transport { stage, upstream: upstream.to_owned(), message }
}

/// The first lookup, on one page of the listing: the identifier of the
/// service that `service` is a fragment of.
///
/// `Ok(None)` asks for the next page.
pub fn get_service_arn(service: &str, response: Response) -> (found: Result<
    Option<String>,
    SessionError,
>)
    ensures
        search_view(found) == service_in(service@, response@),
{
    match response {
        Response::ServicePage { service_arns } => match service_arns {
            Some(page) => Ok(find_first(&page, service)),
            None => Ok(None),
        },
        Response::ServicesExhausted => Err(
            SessionError::NotFound { missing: Missing::Service, upstream: service.to_owned() },
        ),
        other => Err(unusable(Stage::Service, service, other)),
    }
}

/// The second lookup: a task of the service `service`, the last that was
/// listed. A service without tasks has none to give.
pub fn get_task_arn(service: &str, response: Response) -> (found: Result<String, SessionError>)
    ensures
        crate::error::outcome_view(found) == task_in(service@, response@),
{
    match response {
        Response::Tasks { task_arns } => {
            let mut tasks = match task_arns {
                Some(tasks) => tasks,
                None => Vec::new(),
            };
            match tasks.pop() {
                Some(task) => Ok(task),
                None => Err(
                    SessionError::NotFound { missing: Missing::Task, upstream: service.to_owned() },
                ),
            }
        },
        other => Err(unusable(Stage::Task, service, other)),
    }
}

/// The third lookup: the container instance that hosts the task `task_arn`.
/// A task that was not described and a task that is not placed are told
/// apart.
pub fn get_task_container_arn(task_arn: &str, response: Response) -> (found: Result<
    String,
    SessionError,
>)
    ensures
        crate::error::outcome_view(found) == container_instance_in(task_arn@, response@),
{
    match response {
        Response::DescribedTasks { tasks } => {
            let mut tasks = match tasks {
                Some(tasks) => tasks,
                None => Vec::new(),
            };
            match tasks.pop() {
                Some(task) => match task.container_instance_arn {
                    Some(container_instance) => Ok(container_instance),
                    None => Err(
                        SessionError::NotFound {
                            missing: Missing::ContainerInstance,
                            upstream: task_arn.to_owned(),
                        },
                    ),
                },
                None => Err(
                    SessionError::NotFound {
                        missing: Missing::TaskDetail,
                        upstream: task_arn.to_owned(),
                    },
                ),
            }
        },
        other => Err(unusable(Stage::ContainerInstance, task_arn, other)),
    }
}

/// The fourth lookup: the machine under the container instance
/// `container_instance_arn`. A container instance that was not described and
/// one that names no machine are told apart.
pub fn get_container_arn(container_instance_arn: &str, response: Response) -> (found: Result<
    String,
    SessionError,
>)
    ensures
        crate::error::outcome_view(found) == instance_in(container_instance_arn@, response@),
{
    match response {
        Response::DescribedContainerInstances { container_instances } => {
            let mut container_instances = match container_instances {
                Some(container_instances) => container_instances,
                None => Vec::new(),
            };
            match container_instances.pop() {
                Some(container_instance) => match container_instance.ec2_instance_id {
                    Some(instance) => Ok(instance),
                    None => Err(
                        SessionError::NotFound {
                            missing: Missing::Instance,
                            upstream: container_instance_arn.to_owned(),
                        },
                    ),
                },
                None => Err(
                    SessionError::NotFound {
                        missing: Missing::ContainerInstanceDetail,
                        upstream: container_instance_arn.to_owned(),
                    },
                ),
            }
        },
        other => Err(unusable(Stage::Instance, container_instance_arn, other)),
    }
}

} // verus!
