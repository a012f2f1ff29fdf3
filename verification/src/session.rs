//! From what the operator asked for to the session on the machine.
//!
//! An `Invocation` settles three things without looking anything up: whether
//! a machine must be traced at all, what is run on it, and how the session
//! program is called once the machine is known.

use crate::error::{LaunchError, LaunchErrorView, SessionError, SessionErrorView};
use crate::resolver::{Target, TargetView};
use vstd::prelude::*;

verus! {

/// What the operator asked for.
#[derive(Clone, Debug, PartialEq, Eq)]
pub struct Invocation {
    /// A fragment of the service's name; also the name by which its container
    /// is picked on the machine.
    pub service: String,
    /// The cluster that runs the service.
    pub cluster: String,
    /// The region of the cluster and of the session.
    pub region: String,
    /// The profile whose credentials are used.
    pub profile: String,
    /// A command to run in the container in place of a shell.
    pub execute: Option<String>,
    /// The machine, where the operator knows it.
    pub instance: Option<String>,
}

/// An `Invocation` as a mathematical value.
pub struct InvocationView {
    pub service: Seq<char>,
    pub cluster: Seq<char>,
    pub region: Seq<char>,
    pub profile: Seq<char>,
    pub execute: Option<Seq<char>>,
    pub instance: Option<Seq<char>>,
}

impl View for Invocation {
    type V = InvocationView;

    open spec fn view(&self) -> InvocationView {
        InvocationView {
            service: self.service@,
            cluster: self.cluster@,
            region: self.region@,
            profile: self.profile@,
            execute: self.execute.deep_view(),
            instance: self.instance.deep_view(),
        }
    }
}

/// The session program and the arguments it is started with.
#[derive(Clone, Debug, PartialEq, Eq)]
pub struct Launch {
    pub program: String,
    pub arguments: Vec<String>,
}

/// A `Launch` as a mathematical value.
pub struct LaunchView {
    pub program: Seq<char>,
    pub arguments: Seq<Seq<char>>,
}

impl View for Launch {
    type V = LaunchView;

    open spec fn view(&self) -> LaunchView {
        LaunchView { program: self.program@, arguments: self.arguments.deep_view() }
    }
}

/// The command that opens a login shell in the running container whose name
/// holds `service`.
pub open spec fn container_shell(service: Seq<char>) -> Seq<char> {
    "command=sudo docker exec -ti $(sudo docker ps -qf name="@ + service
        + " | head -n1) /bin/bash"@
}

/// The command that makes the operator root on the machine.
pub open spec fn root_shell() -> Seq<char> {
    "command=sudo su -"@
}

impl InvocationView {
    /// What is asked for when nothing is said.
    pub open spec fn standard() -> InvocationView {
        InvocationView {
            service: "auth"@,
            cluster: "app"@,
            region: "eu-central-1"@,
            profile: "default"@,
            execute: None,
            instance: None,
        }
    }

    /// A machine that is given is the target; else the service is.
    pub open spec fn target(self) -> TargetView {
        match self.instance {
            Some(instance) => TargetView::Instance { instance },
            None => TargetView::Service { cluster: self.cluster, service: self.service },
        }
    }

    /// What the session runs: the given command in the service's container,
    /// through its shell; without one, a root shell on a machine that was
    /// given, and the container's shell on one that was traced.
    pub open spec fn command(self) -> Seq<char> {
        match self.execute {
            Some(execute) => container_shell(self.service) + " -lc "@ + execute,
            None => if self.instance is Some {
                root_shell()
            } else {
                container_shell(self.service)
            },
        }
    }

    /// The call of the session program for the machine `instance`.
    pub open spec fn launch(self, instance: Seq<char>) -> LaunchView {
        LaunchView {
            program: "aws"@,
            arguments: seq![
                "ssm"@,
                "start-session"@,
                "--region"@,
                self.region,
                "--target"@,
                instance,
                "--document-name"@,
                "AWS-StartInteractiveCommand"@,
                "--parameters"@,
                "--profile"@,
                self.profile,
                self.command(),
            ],
        }
    }
}

impl Default for Invocation {
    fn default() -> (invocation: Invocation)
        ensures
            invocation@ == InvocationView::standard(),
    {
        Invocation {
            service: "auth".to_owned(),
            cluster: "app".to_owned(),
            region: "eu-central-1".to_owned(),
            profile: "default".to_owned(),
            execute: None,
            instance: None,
        }
    }
}

impl Invocation {
    /// The machine that was given, or the service to trace.
    pub fn target(&self) -> (target: Target)
        ensures
            target@ == self@.target(),
    {
        match &self.instance {
            Some(instance) => Target::Instance { instance: instance.clone() },
            None => Target::Service { cluster: self.cluster.clone(), service: self.service.clone() },
        }
    }

    fn container_shell(&self) -> (command: String)
        ensures
            command@ == container_shell(self.service@),
    {
        let mut command = "command=sudo docker exec -ti $(sudo docker ps -qf name=".to_owned();
        command.append(self.service.as_str());
        command.append(" | head -n1) /bin/bash");
        command
    }

    /// What the session runs.
    pub fn command(&self) -> (command: String)
        ensures
            command@ == self@.command(),
    {
        match &self.execute {
            Some(execute) => {
                let mut command = self.container_shell();
                command.append(" -lc ");
                command.append(execute.as_str());
                command
            },
            None => {
                if self.instance.is_some() {
                    "command=sudo su -".to_owned()
                } else {
                    self.container_shell()
                }
            },
        }
    }

    /// The call of the session program for the machine `instance`.
    pub fn launch(&self, instance: &str) -> (launch: Launch)
        ensures
            launch@ == self@.launch(instance@),
    {
        let mut arguments: Vec<String> = Vec::new();
        arguments.push("ssm".to_owned());
        arguments.push("start-session".to_owned());
        arguments.push("--region".to_owned());
        arguments.push(self.region.clone());
        arguments.push("--target".to_owned());
        arguments.push(instance.to_owned());
        arguments.push("--document-name".to_owned());
        arguments.push("AWS-StartInteractiveCommand".to_owned());
        arguments.push("--parameters".to_owned());
        arguments.push("--profile".to_owned());
        arguments.push(self.profile.clone());
        arguments.push(self.command());
        assert(arguments.deep_view() =~= self@.launch(instance@).arguments);
        Launch { program: "aws".to_owned(), arguments }
    }
}

/// How the session program ended, as told by the system: `Err` where it
/// could not be started or waited for, else its exit status, which is absent
/// where the program was ended from outside.
pub open spec fn concluded(ended: Result<Option<i32>, Seq<char>>) -> Result<(), SessionErrorView> {
    match ended {
        Ok(Some(code)) => if code == 0 {
            Ok(())
        } else {
            Err(SessionErrorView::Launch { error: LaunchErrorView::Exited { code } })
        },
        Ok(None) => Err(SessionErrorView::Launch { error: LaunchErrorView::Interrupted }),
        Err(reason) => Err(SessionErrorView::Launch { error: LaunchErrorView::NotStarted { reason } }),
    }
}

/// The status that the tool itself ends with: zero for a clean end, the
/// session's own where it ended with another, and one for every other
/// failure.
pub open spec fn status_of(outcome: Result<(), SessionErrorView>) -> i32 {
    match outcome {
        Ok(()) => 0,
        Err(SessionErrorView::Launch { error: LaunchErrorView::Exited { code } }) => code,
        Err(_) => 1,
    }
}

/// An outcome of the session as a mathematical value.
pub open spec fn conclusion_view(outcome: Result<(), SessionError>) -> Result<(), SessionErrorView> {
    match outcome {
        Ok(()) => Ok(()),
        Err(error) => Err(error@),
    }
}

/// A session that ended as `ended` says succeeded only with status zero;
/// every other end is a failure of the tool's own.
pub fn conclude(ended: Result<Option<i32>, String>) -> (outcome: Result<(), SessionError>)
    ensures
        conclusion_view(outcome) == concluded(
            match ended {
                Ok(code) => Ok(code),
                Err(reason) => Err(reason@),
            },
        ),
{
    match ended {
        Ok(Some(code)) => {
            if code == 0 {
                Ok(())
            } else {
                Err(SessionError::Launch { error: LaunchError::Exited { code } })
            }
        },
        Ok(None) => Err(SessionError::Launch { error: LaunchError::Interrupted }),
        Err(reason) => Err(SessionError::Launch { error: LaunchError::NotStarted { reason } }),
    }
}

/// The status that the tool itself ends with: the session's own where the
/// session ended with one, and one for every other failure.
pub fn exit_status(outcome: &Result<(), SessionError>) -> (status: i32)
    ensures
        status == status_of(conclusion_view(*outcome)),
{
    match outcome {
        Ok(()) => 0,
        Err(SessionError::Launch { error: LaunchError::Exited { code } }) => *code,
        Err(_) => 1,
    }
}

} // verus!
