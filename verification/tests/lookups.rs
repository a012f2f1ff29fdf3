use ssm_session::ecs::{
    get_container_arn, get_service_arn, get_task_arn, get_task_container_arn, ContainerInstance,
    Response, Task,
};
use ssm_session::error::{Missing, SessionError, Stage};

fn names(list: &[&str]) -> Vec<String> {
    list.iter().map(|name| name.to_string()).collect()
}

fn page(list: &[&str]) -> Response {
    Response::ServicePage { service_arns: Some(names(list)) }
}

fn failure(message: &str) -> Response {
    Response::Failure { message: message.to_string() }
}

fn mismatch(stage: Stage, upstream: &str) -> SessionError {
    SessionError::Transport {
        stage,
        upstream: upstream.to_string(),
        message: "the answer is not one to this call".to_string(),
    }
}

fn every_answer() -> Vec<Response> {
    vec![
        page(&["svc/app-auth-1"]),
        Response::ServicesExhausted,
        Response::Tasks { task_arns: Some(names(&["task/1"])) },
        Response::DescribedTasks {
            tasks: Some(vec![Task { container_instance_arn: Some("ci/1".to_string()) }]),
        },
        Response::DescribedContainerInstances {
            container_instances: Some(vec![ContainerInstance {
                ec2_instance_id: Some("i-1".to_string()),
            }]),
        },
    ]
}

#[test]
fn service_is_the_first_match_of_the_page() {
    let found = get_service_arn("auth", page(&["svc/app-web-1", "svc/app-auth-2", "svc/app-auth-1"]));
    assert_eq!(found, Ok(Some("svc/app-auth-2".to_string())));
}

#[test]
fn service_not_on_this_page_asks_for_the_next() {
    assert_eq!(get_service_arn("auth", page(&["svc/app-web-1", "svc/app-db-1"])), Ok(None));
    assert_eq!(get_service_arn("auth", page(&[])), Ok(None));
}

#[test]
fn service_page_without_a_list_is_an_empty_page() {
    assert_eq!(get_service_arn("auth", Response::ServicePage { service_arns: None }), Ok(None));
}

#[test]
fn service_not_found_when_the_listing_has_run_out() {
    assert_eq!(
        get_service_arn("auth", Response::ServicesExhausted),
        Err(SessionError::NotFound { missing: Missing::Service, upstream: "auth".to_string() })
    );
}

#[test]
fn service_listing_that_fails_is_a_failed_call() {
    assert_eq!(
        get_service_arn("auth", failure("throttled")),
        Err(SessionError::Transport {
            stage: Stage::Service,
            upstream: "auth".to_string(),
            message: "throttled".to_string(),
        })
    );
}

#[test]
fn task_is_the_last_of_the_list() {
    let found = get_task_arn(
        "svc/app-auth-1",
        Response::Tasks { task_arns: Some(names(&["task/1", "task/2", "task/3"])) },
    );
    assert_eq!(found, Ok("task/3".to_string()));
    let single = get_task_arn("svc/app-auth-1", Response::Tasks { task_arns: Some(names(&["task/1"])) });
    assert_eq!(single, Ok("task/1".to_string()));
}

#[test]
fn task_of_a_service_without_tasks_is_not_found() {
    let expected =
        Err(SessionError::NotFound { missing: Missing::Task, upstream: "svc/app-auth-1".to_string() });
    assert_eq!(get_task_arn("svc/app-auth-1", Response::Tasks { task_arns: Some(Vec::new()) }), expected);
    assert_eq!(get_task_arn("svc/app-auth-1", Response::Tasks { task_arns: None }), expected);
}

#[test]
fn task_listing_that_fails_is_a_failed_call() {
    assert_eq!(
        get_task_arn("svc/app-auth-1", failure("access denied")),
        Err(SessionError::Transport {
            stage: Stage::Task,
            upstream: "svc/app-auth-1".to_string(),
            message: "access denied".to_string(),
        })
    );
}

#[test]
fn container_instance_is_that_of_the_last_task_described() {
    let found = get_task_container_arn(
        "task/1",
        Response::DescribedTasks {
            tasks: Some(vec![
                Task { container_instance_arn: None },
                Task { container_instance_arn: Some("ci/7".to_string()) },
            ]),
        },
    );
    assert_eq!(found, Ok("ci/7".to_string()));
}

#[test]
fn container_instance_of_a_task_that_was_not_described() {
    let expected =
        Err(SessionError::NotFound { missing: Missing::TaskDetail, upstream: "task/1".to_string() });
    assert_eq!(get_task_container_arn("task/1", Response::DescribedTasks { tasks: None }), expected);
    assert_eq!(
        get_task_container_arn("task/1", Response::DescribedTasks { tasks: Some(Vec::new()) }),
        expected
    );
}

#[test]
fn container_instance_of_a_task_that_is_not_placed() {
    let found = get_task_container_arn(
        "task/1",
        Response::DescribedTasks { tasks: Some(vec![Task { container_instance_arn: None }]) },
    );
    assert_eq!(
        found,
        Err(SessionError::NotFound { missing: Missing::ContainerInstance, upstream: "task/1".to_string() })
    );
}

#[test]
fn container_instance_keeps_an_empty_reference_as_it_is() {
    let found = get_task_container_arn(
        "task/1",
        Response::DescribedTasks {
            tasks: Some(vec![Task { container_instance_arn: Some(String::new()) }]),
        },
    );
    assert_eq!(found, Ok(String::new()));
}

#[test]
fn describing_the_task_fails_as_a_failed_call() {
    assert_eq!(
        get_task_container_arn("task/1", failure("timeout")),
        Err(SessionError::Transport {
            stage: Stage::ContainerInstance,
            upstream: "task/1".to_string(),
            message: "timeout".to_string(),
        })
    );
}

#[test]
fn instance_is_that_of_the_last_container_instance_described() {
    let found = get_container_arn(
        "ci/1",
        Response::DescribedContainerInstances {
            container_instances: Some(vec![
                ContainerInstance { ec2_instance_id: Some("i-0".to_string()) },
                ContainerInstance { ec2_instance_id: Some("i-0123456789".to_string()) },
            ]),
        },
    );
    assert_eq!(found, Ok("i-0123456789".to_string()));
}

#[test]
fn instance_of_a_container_instance_that_was_not_described() {
    let expected = Err(SessionError::NotFound {
        missing: Missing::ContainerInstanceDetail,
        upstream: "ci/1".to_string(),
    });
    assert_eq!(
        get_container_arn("ci/1", Response::DescribedContainerInstances { container_instances: None }),
        expected
    );
    assert_eq!(
        get_container_arn(
            "ci/1",
            Response::DescribedContainerInstances { container_instances: Some(Vec::new()) }
        ),
        expected
    );
}

#[test]
fn instance_of_a_detached_container_instance() {
    let found = get_container_arn(
        "ci/1",
        Response::DescribedContainerInstances {
            container_instances: Some(vec![ContainerInstance { ec2_instance_id: None }]),
        },
    );
    assert_eq!(
        found,
        Err(SessionError::NotFound { missing: Missing::Instance, upstream: "ci/1".to_string() })
    );
}

#[test]
fn describing_the_container_instance_fails_as_a_failed_call() {
    assert_eq!(
        get_container_arn("ci/1", failure("connection reset")),
        Err(SessionError::Transport {
            stage: Stage::Instance,
            upstream: "ci/1".to_string(),
            message: "connection reset".to_string(),
        })
    );
}

#[test]
fn an_answer_to_another_call_is_a_failed_call() {
    let answers = every_answer();
    for (position, answer) in answers.iter().enumerate() {
        if position > 1 {
            assert_eq!(get_service_arn("auth", answer.clone()), Err(mismatch(Stage::Service, "auth")));
        }
        if position != 2 {
            assert_eq!(get_task_arn("svc", answer.clone()), Err(mismatch(Stage::Task, "svc")));
        }
        if position != 3 {
            assert_eq!(
                get_task_container_arn("task", answer.clone()),
                Err(mismatch(Stage::ContainerInstance, "task"))
            );
        }
        if position != 4 {
            assert_eq!(get_container_arn("ci", answer.clone()), Err(mismatch(Stage::Instance, "ci")));
        }
    }
}
