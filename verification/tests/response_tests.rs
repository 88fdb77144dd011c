use environment_server::response::{
    lock_failure_response, run_failure_response, specialize_response, Api, Task,
    STATUS_ACCEPTED, STATUS_INTERNAL_SERVER_ERROR,
};

#[test]
fn successful_specialization_is_accepted() {
    let res = specialize_response(Api::V1, &Ok(()));
    assert_eq!(res.status, 202);
    assert_eq!(res.body, "Successfully loaded function");
    let res = specialize_response(Api::V2, &Ok(()));
    assert_eq!(res.status, STATUS_ACCEPTED);
    assert_eq!(res.body, "Successfully loaded function via v2");
}

#[test]
fn failed_specialization_names_the_error() {
    let res = specialize_response(Api::V1, &Err("no such file".to_string()));
    assert_eq!(res.status, 500);
    assert_eq!(res.body, "Failed loading user function: no such file");
    let res = specialize_response(Api::V2, &Err("bad".to_string()));
    assert_eq!(res.status, STATUS_INTERNAL_SERVER_ERROR);
    assert_eq!(res.body, "Failed loading user function via v2: bad");
}

#[test]
fn lock_failures_name_the_task() {
    let res = lock_failure_response(Task::Specialize(Api::V1), "poisoned");
    assert_eq!(res.status, 500);
    assert_eq!(res.body, "Failed locking function manager specializing function: poisoned");
    let res = lock_failure_response(Task::Specialize(Api::V2), "p");
    assert_eq!(res.body, "Failed locking function manager specializing function via v2: p");
    let res = lock_failure_response(Task::Run, "p");
    assert_eq!(res.body, "Failed locking function manager running specialized function: p");
}

#[test]
fn run_failure_names_the_error() {
    let res = run_failure_response("boom");
    assert_eq!(res.status, 500);
    assert_eq!(res.body, "Failed running the user function: boom");
}
