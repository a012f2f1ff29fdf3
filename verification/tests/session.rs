use ssm_session::ecs::{ContainerInstance, Response, Task};
use ssm_session::error::{LaunchError, Missing, SessionError, Stage};
use ssm_session::resolver::{Resolver, Step, Target};
use ssm_session::session::{conclude, exit_status, Invocation, Launch};

fn asked(service: &str, execute: Option<&str>, instance: Option<&str>) -> Invocation {
    Invocation {
        service: service.to_string(),
        cluster: "app".to_string(),
        region: "eu-central-1".to_string(),
        profile: "default".to_string(),
        execute: execute.map(|command| command.to_string()),
        instance: instance.map(|machine| machine.to_string()),
    }
}

#[test]
fn invocation_defaults() {
    assert_eq!(
        Invocation::default(),
        Invocation {
            service: "auth".to_string(),
            cluster: "app".to_string(),
            region: "eu-central-1".to_string(),
            profile: "default".to_string(),
            execute: None,
            instance: None,
        }
    );
}

#[test]
fn command_opens_a_shell_in_the_service_container() {
    assert_eq!(
        asked("auth", None, None).command(),
        "command=sudo docker exec -ti $(sudo docker ps -qf name=auth | head -n1) /bin/bash"
    );
    assert_eq!(
        Invocation::default().command(),
        "command=sudo docker exec -ti $(sudo docker ps -qf name=auth | head -n1) /bin/bash"
    );
    assert_eq!(
        asked("billing", None, None).command(),
        "command=sudo docker exec -ti $(sudo docker ps -qf name=billing | head -n1) /bin/bash"
    );
}

#[test]
fn command_runs_what_was_given_in_place_of_the_shell() {
    assert_eq!(
        asked("auth", Some("ls -la"), None).command(),
        "command=sudo docker exec -ti $(sudo docker ps -qf name=auth | head -n1) /bin/bash -lc ls -la"
    );
}

#[test]
fn command_on_a_given_machine_is_a_root_shell() {
    assert_eq!(asked("auth", None, Some("i-0abc")).command(), "command=sudo su -");
    assert_eq!(asked("billing", None, Some("i-0abc")).command(), "command=sudo su -");
    assert_eq!(asked("", None, Some("")).command(), "command=sudo su -");
}

#[test]
fn command_that_was_given_is_run_on_a_given_machine_too() {
    assert_eq!(
        asked("auth", Some("ls -la"), Some("i-0abc")).command(),
        "command=sudo docker exec -ti $(sudo docker ps -qf name=auth | head -n1) /bin/bash -lc ls -la"
    );
}

#[test]
fn target_is_the_machine_where_one_is_given() {
    assert_eq!(
        asked("auth", None, Some("i-0abc")).target(),
        Target::Instance { instance: "i-0abc".to_string() }
    );
    assert_eq!(
        asked("auth", None, None).target(),
        Target::Service { cluster: "app".to_string(), service: "auth".to_string() }
    );
}

#[test]
fn given_machine_skips_the_chain() {
    let invocation = asked("auth", None, Some("i-0abc"));
    assert_eq!(Resolver::begin(invocation.target()), Step::Resolved { instance: "i-0abc".to_string() });
    assert_eq!(invocation.command(), "command=sudo su -");
}

#[test]
fn launch_calls_the_session_program() {
    let invocation = Invocation {
        service: "auth".to_string(),
        cluster: "app".to_string(),
        region: "us-east-1".to_string(),
        profile: "ops".to_string(),
        execute: None,
        instance: None,
    };
    let arguments = [
        "ssm",
        "start-session",
        "--region",
        "us-east-1",
        "--target",
        "i-0123456789",
        "--document-name",
        "AWS-StartInteractiveCommand",
        "--parameters",
        "--profile",
        "ops",
        "command=sudo docker exec -ti $(sudo docker ps -qf name=auth | head -n1) /bin/bash",
    ];
    assert_eq!(
        invocation.launch("i-0123456789"),
        Launch {
            program: "aws".to_string(),
            arguments: arguments.iter().map(|argument| argument.to_string()).collect(),
        }
    );
}

#[test]
fn launch_on_a_given_machine_carries_the_root_shell() {
    let launch = asked("auth", None, Some("i-0abc")).launch("i-0abc");
    assert_eq!(launch.arguments.len(), 12);
    assert_eq!(launch.arguments[5], "i-0abc");
    assert_eq!(launch.arguments[11], "command=sudo su -");
}

#[test]
fn end_to_end_from_the_service_name_to_the_launch() {
    let invocation = Invocation::default();
    let mut step = Resolver::begin(invocation.target());
    let answers = vec![
        Response::ServicePage { service_arns: Some(vec!["arn:.../app-auth-service-1".to_string()]) },
        Response::Tasks { task_arns: Some(vec!["arn:.../task/1".to_string()]) },
        Response::DescribedTasks {
            tasks: Some(vec![Task { container_instance_arn: Some("arn:.../ci/1".to_string()) }]),
        },
        Response::DescribedContainerInstances {
            container_instances: Some(vec![ContainerInstance {
                ec2_instance_id: Some("i-0123456789".to_string()),
            }]),
        },
    ];
    let mut calls = 0;
    for answer in answers {
        step = match step {
            Step::Pending { resolver } => {
                calls += 1;
                resolver.advance(answer)
            }
            other => other,
        };
    }
    assert_eq!(calls, 4);
    let instance = match step {
        Step::Resolved { instance } => instance,
        other => panic!("the chain should have ended on a machine, not be {:?}", other),
    };
    assert_eq!(instance, "i-0123456789");
    let launch = invocation.launch(&instance);
    assert_eq!(launch.program, "aws");
    assert_eq!(launch.arguments[4], "--target");
    assert_eq!(launch.arguments[5], "i-0123456789");
    assert_eq!(
        launch.arguments[11],
        "command=sudo docker exec -ti $(sudo docker ps -qf name=auth | head -n1) /bin/bash"
    );
}

#[test]
fn conclude_succeeds_on_status_zero_only() {
    assert_eq!(conclude(Ok(Some(0))), Ok(()));
    assert_eq!(
        conclude(Ok(Some(3))),
        Err(SessionError::Launch { error: LaunchError::Exited { code: 3 } })
    );
    assert_eq!(
        conclude(Ok(Some(-1))),
        Err(SessionError::Launch { error: LaunchError::Exited { code: -1 } })
    );
    assert_eq!(conclude(Ok(None)), Err(SessionError::Launch { error: LaunchError::Interrupted }));
    assert_eq!(
        conclude(Err("No such file or directory".to_string())),
        Err(SessionError::Launch {
            error: LaunchError::NotStarted { reason: "No such file or directory".to_string() }
        })
    );
}

#[test]
fn exit_status_is_that_of_the_session() {
    assert_eq!(exit_status(&Ok(())), 0);
    assert_eq!(exit_status(&conclude(Ok(Some(0)))), 0);
    assert_eq!(exit_status(&conclude(Ok(Some(130)))), 130);
    assert_eq!(exit_status(&conclude(Ok(None))), 1);
    assert_eq!(exit_status(&conclude(Err("not found".to_string()))), 1);
    assert_eq!(
        exit_status(&Err(SessionError::NotFound {
            missing: Missing::Service,
            upstream: "auth".to_string()
        })),
        1
    );
}

#[test]
fn message_says_what_is_missing_and_for_what() {
    let of = |missing: Missing, upstream: &str| {
        SessionError::NotFound { missing, upstream: upstream.to_string() }.message()
    };
    assert_eq!(of(Missing::Service, "auth"), "Service not found: auth");
    assert_eq!(of(Missing::Task, "svc/auth"), "No task found!: svc/auth");
    assert_eq!(of(Missing::TaskDetail, "task/1"), "Task not found!: task/1");
    assert_eq!(of(Missing::ContainerInstance, "task/1"), "No container instance found!: task/1");
    assert_eq!(of(Missing::ContainerInstanceDetail, "ci/1"), "Container instance not found!: ci/1");
    assert_eq!(of(Missing::Instance, "ci/1"), "No EC2 instance found!: ci/1");
}

#[test]
fn message_says_which_call_failed_and_how() {
    let of = |stage: Stage| {
        SessionError::Transport { stage, upstream: "id".to_string(), message: "throttled".to_string() }
            .message()
    };
    assert_eq!(of(Stage::Service), "Listing services failed: id: throttled");
    assert_eq!(of(Stage::Task), "Listing tasks failed: id: throttled");
    assert_eq!(of(Stage::ContainerInstance), "Describing the task failed: id: throttled");
    assert_eq!(of(Stage::Instance), "Describing the container instance failed: id: throttled");
}

#[test]
fn message_says_how_the_session_failed() {
    let of = |error: LaunchError| SessionError::Launch { error }.message();
    assert_eq!(
        of(LaunchError::NotStarted { reason: "not found".to_string() }),
        "Failed to start ssm session: not found"
    );
    assert_eq!(of(LaunchError::Exited { code: 2 }), "The ssm session ended with a failure");
    assert_eq!(of(LaunchError::Interrupted), "The ssm session was interrupted");
}

#[test]
fn stage_of_an_error_is_the_lookup_that_broke() {
    let missing = |missing: Missing| SessionError::NotFound { missing, upstream: String::new() };
    assert_eq!(missing(Missing::Service).stage(), Some(Stage::Service));
    assert_eq!(missing(Missing::Task).stage(), Some(Stage::Task));
    assert_eq!(missing(Missing::TaskDetail).stage(), Some(Stage::ContainerInstance));
    assert_eq!(missing(Missing::ContainerInstance).stage(), Some(Stage::ContainerInstance));
    assert_eq!(missing(Missing::ContainerInstanceDetail).stage(), Some(Stage::Instance));
    assert_eq!(missing(Missing::Instance).stage(), Some(Stage::Instance));
    assert_eq!(Missing::TaskDetail.found_by(), Stage::ContainerInstance);
    assert_eq!(
        SessionError::Transport {
            stage: Stage::Task,
            upstream: String::new(),
            message: String::new()
        }
        .stage(),
        Some(Stage::Task)
    );
    assert_eq!(SessionError::Launch { error: LaunchError::Interrupted }.stage(), None);
}
