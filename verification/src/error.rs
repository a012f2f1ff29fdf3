//! How a session can fail.
//!
//! Three kinds are kept apart: a lookup that was answered but found nothing,
//! a call that could not be performed, and a session program that did not run
//! to a clean end. The first two say at which link of the chain they struck
//! and which identifier was in hand there.

use vstd::prelude::*;

verus! {

/// The four lookups of the chain, in the order in which they are made.
#[derive(Clone, Copy, Debug, PartialEq, Eq, Structural)]
pub enum Stage {
    /// From a name fragment to the service's identifier.
    Service,
    /// From the service to one of its tasks.
    Task,
    /// From the task to the container instance that hosts it.
    ContainerInstance,
    /// From the container instance to the machine under it.
    Instance,
}

/// What a lookup found to be absent.
#[derive(Clone, Copy, Debug, PartialEq, Eq, Structural)]
pub enum Missing {
    /// No service of the cluster has the fragment in its identifier.
    Service,
    /// The service runs no task.
    Task,
    /// The cluster described no task under the task's identifier.
    TaskDetail,
    /// The task is not placed on a container instance.
    ContainerInstance,
    /// The cluster described no container instance under the identifier.
    ContainerInstanceDetail,
    /// The container instance names no machine.
    Instance,
}

impl Missing {
    /// The lookup that finds this absent.
    pub open spec fn stage(self) -> Stage {
        match self {
            Missing::Service => Stage::Service,
            Missing::Task => Stage::Task,
            Missing::TaskDetail => Stage::ContainerInstance,
            Missing::ContainerInstance => Stage::ContainerInstance,
            Missing::ContainerInstanceDetail => Stage::Instance,
            Missing::Instance => Stage::Instance,
        }
    }

    /// What to tell the operator.
    pub open spec fn headline(self) -> Seq<char> {
        match self {
            Missing::Service => "Service not found"@,
            Missing::Task => "No task found!"@,
            Missing::TaskDetail => "Task not found!"@,
            Missing::ContainerInstance => "No container instance found!"@,
            Missing::ContainerInstanceDetail => "Container instance not found!"@,
            Missing::Instance => "No EC2 instance found!"@,
        }
    }
}

impl Stage {
    /// What to tell the operator when the call of this lookup failed.
    pub open spec fn headline(self) -> Seq<char> {
        match self {
            Stage::Service => "Listing services failed"@,
            Stage::Task => "Listing tasks failed"@,
            Stage::ContainerInstance => "Describing the task failed"@,
            Stage::Instance => "Describing the container instance failed"@,
        }
    }
}

/// How the session program let the operator down.
#[derive(Clone, Debug, PartialEq, Eq)]
pub enum LaunchError {
    /// The program could not be started, or could not be waited for.
    NotStarted { reason: String },
    /// The program ran and ended with a status other than zero.
    Exited { code: i32 },
    /// The program ended without a status.
    Interrupted,
}

/// A `LaunchError` as a mathematical value.
pub enum LaunchErrorView {
    NotStarted { reason: Seq<char> },
    Exited { code: i32 },
    Interrupted,
}

impl View for LaunchError {
    type V = LaunchErrorView;

    open spec fn view(&self) -> LaunchErrorView {
        match self {
            LaunchError::NotStarted { reason } => LaunchErrorView::NotStarted { reason: reason@ },
            LaunchError::Exited { code } => LaunchErrorView::Exited { code: *code },
            LaunchError::Interrupted => LaunchErrorView::Interrupted,
        }
    }
}

/// Why no session was had.
#[derive(Clone, Debug, PartialEq, Eq)]
pub enum SessionError {
    /// A lookup was answered, and held nothing to go on with. `upstream` is
    /// the identifier that was looked up.
    NotFound { missing: Missing, upstream: String },
    /// The call of a lookup failed, or its answer was not one to that call.
    /// `upstream` is the identifier that was looked up.
    Transport { stage: Stage, upstream: String, message: String },
    /// The chain gave a machine, and the session on it failed.
    Launch { error: LaunchError },
}

/// A `SessionError` as a mathematical value.
pub enum SessionErrorView {
    NotFound { missing: Missing, upstream: Seq<char> },
    Transport { stage: Stage, upstream: Seq<char>, message: Seq<char> },
    Launch { error: LaunchErrorView },
}

impl View for SessionError {
    type V = SessionErrorView;

    open spec fn view(&self) -> SessionErrorView {
        match self {
            SessionError::NotFound { missing, upstream } => SessionErrorView::NotFound {
                missing: *missing,
                upstream: upstream@,
            },
            SessionError::Transport { stage, upstream, message } => SessionErrorView::Transport {
                stage: *stage,
                upstream: upstream@,
                message: message@,
            },
            SessionError::Launch { error } => SessionErrorView::Launch { error: error@ },
        }
    }
}

impl SessionErrorView {
    /// The line that reports this error: a headline, then what was looked up
    /// and, for a failed call, what the call said.
    pub open spec fn message(self) -> Seq<char> {
        match self {
            SessionErrorView::NotFound { missing, upstream } => missing.headline() + ": "@ + upstream,
            SessionErrorView::Transport { stage, upstream, message } => stage.headline() + ": "@
                + upstream + ": "@ + message,
            SessionErrorView::Launch { error } => match error {
                LaunchErrorView::NotStarted { reason } => "Failed to start ssm session: "@ + reason,
                LaunchErrorView::Exited { code } => "The ssm session ended with a failure"@,
                LaunchErrorView::Interrupted => "The ssm session was interrupted"@,
            },
        }
    }
}

/// An outcome of the chain as a mathematical value.
pub open spec fn outcome_view(outcome: Result<String, SessionError>) -> Result<
    Seq<char>,
    SessionErrorView,
> {
    match outcome {
        Ok(identifier) => Ok(identifier@),
        Err(error) => Err(error@),
    }
}

impl Missing {
    /// The lookup that finds this absent.
    pub fn found_by(&self) -> (stage: Stage)
        ensures
            stage == self.stage(),
    {
        match self {
            Missing::Service => Stage::Service,
            Missing::Task => Stage::Task,
            Missing::TaskDetail => Stage::ContainerInstance,
            Missing::ContainerInstance => Stage::ContainerInstance,
            Missing::ContainerInstanceDetail => Stage::Instance,
            Missing::Instance => Stage::Instance,
        }
    }

    fn headline_text(&self) -> (text: String)
        ensures
            text@ == self.headline(),
    {
        match self {
            Missing::Service => "Service not found".to_owned(),
            Missing::Task => "No task found!".to_owned(),
            Missing::TaskDetail => "Task not found!".to_owned(),
            Missing::ContainerInstance => "No container instance found!".to_owned(),
            Missing::ContainerInstanceDetail => "Container instance not found!".to_owned(),
            Missing::Instance => "No EC2 instance found!".to_owned(),
        }
    }
}

impl Stage {
    fn headline_text(&self) -> (text: String)
        ensures
            text@ == self.headline(),
    {
        match self {
            Stage::Service => "Listing services failed".to_owned(),
            Stage::Task => "Listing tasks failed".to_owned(),
            Stage::ContainerInstance => "Describing the task failed".to_owned(),
            Stage::Instance => "Describing the container instance failed".to_owned(),
        }
    }
}

impl SessionError {
    /// The lookup at which the chain broke; none for a failed session.
    pub fn stage(&self) -> (stage: Option<Stage>)
        ensures
            stage == match self@ {
                SessionErrorView::NotFound { missing, .. } => Some(missing.stage()),
                SessionErrorView::Transport { stage, .. } => Some(stage),
                SessionErrorView::Launch { .. } => None,
            },
    {
        match self {
            SessionError::NotFound { missing, .. } => Some(missing.found_by()),
            SessionError::Transport { stage, .. } => Some(*stage),
            SessionError::Launch { .. } => None,
        }
    }

    /// The line that reports this error.
    pub fn message(&self) -> (line: String)
        ensures
            line@ == self@.message(),
    {
        match self {
            SessionError::NotFound { missing, upstream } => {
                let mut line = missing.headline_text();
                line.append(": ");
                line.append(upstream.as_str());
                line
            },
            SessionError::Transport { stage, upstream, message } => {
                let mut line = stage.headline_text();
                line.append(": ");
                line.append(upstream.as_str());
                line.append(": ");
                line.append(message.as_str());
                line
            },
            SessionError::Launch { error } => match error {
                LaunchError::NotStarted { reason } => {
                    let mut line = "Failed to start ssm session: ".to_owned();
                    line.append(reason.as_str());
                    line
                },
                LaunchError::Exited { .. } => "The ssm session ended with a failure".to_owned(),
                LaunchError::Interrupted => "The ssm session was interrupted".to_owned(),
            },
        }
    }
}

} // verus!
