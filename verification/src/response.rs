//! The answers of the server's own endpoints: the outcome of a
//! specialization, and the failures met while serving a request.

use vstd::prelude::*;

verus! {

/// The status of a successful health check.
pub const STATUS_OK: u16 = 200;

/// The status of an accepted specialization.
pub const STATUS_ACCEPTED: u16 = 202;

/// The status of a failure of the server or of the user function.
pub const STATUS_INTERNAL_SERVER_ERROR: u16 = 500;

/// The specialization API that a request came through.
#[derive(Clone, Copy, PartialEq, Eq, Structural)]
pub enum Api {
    V1,
    V2,
}

/// What the server was doing when a failure happened.
#[derive(Clone, Copy, PartialEq, Eq, Structural)]
pub enum Task {
    /// Specializing through the given API.
    Specialize(Api),
    /// Running the specialized function.
    Run,
}

/// A response with a status and a text body.
pub struct PlainResponse {
    pub status: u16,
    pub body: String,
}

/// What a response is: its status and its body.
impl View for PlainResponse {
    type V = (u16, Seq<char>);

    open spec fn view(&self) -> (u16, Seq<char>) {
        (self.status, self.body@)
    }
}

/// The answer to a health check: success with an empty body.
pub fn health_response() -> (res: PlainResponse)
    ensures
        res@ == (STATUS_OK, Seq::<char>::empty()),
{
    PlainResponse { status: STATUS_OK, body: String::new() }
}

/// The body of the answer to a successful specialization.
pub open spec fn spec_loaded_message(api: Api) -> Seq<char> {
    match api {
        Api::V1 => "Successfully loaded function"@,
        Api::V2 => "Successfully loaded function via v2"@,
    }
}

/// What precedes the error in the answer to a failed specialization.
pub open spec fn spec_load_failure_prefix(api: Api) -> Seq<char> {
    match api {
        Api::V1 => "Failed loading user function: "@,
        Api::V2 => "Failed loading user function via v2: "@,
    }
}

/// What precedes the error when the server's state could not be taken.
pub open spec fn spec_lock_failure_prefix(task: Task) -> Seq<char> {
    match task {
        Task::Specialize(Api::V1) => "Failed locking function manager specializing function: "@,
        Task::Specialize(Api::V2) =>
            "Failed locking function manager specializing function via v2: "@,
        Task::Run => "Failed locking function manager running specialized function: "@,
    }
}

/// What precedes the error when the user function could not be run.
pub open spec fn spec_run_failure_prefix() -> Seq<char> {
    "Failed running the user function: "@
}

/// The answer to a specialization: accepted when the user function was
/// loaded, an internal server error naming the error otherwise.
pub fn specialize_response(api: Api, outcome: &Result<(), String>) -> (res: PlainResponse)
    ensures
        outcome is Ok ==> res.status == STATUS_ACCEPTED && res.body@ == spec_loaded_message(api),
        outcome matches Err(e) ==> res.status == STATUS_INTERNAL_SERVER_ERROR && res.body@
            == spec_load_failure_prefix(api) + e@,
{
    match outcome {
        Ok(()) => {
            let body = match api {
                Api::V1 => String::from_str("Successfully loaded function"),
                Api::V2 => String::from_str("Successfully loaded function via v2"),
            };
            PlainResponse { status: STATUS_ACCEPTED, body }
        },
        Err(e) => {
            let prefix = match api {
                Api::V1 => String::from_str("Failed loading user function: "),
                Api::V2 => String::from_str("Failed loading user function via v2: "),
            };
            PlainResponse { status: STATUS_INTERNAL_SERVER_ERROR, body: prefix.concat(e.as_str()) }
        },
    }
}

/// The answer when the server's state could not be taken for a task.
pub fn lock_failure_response(task: Task, error: &str) -> (res: PlainResponse)
    ensures
        res.status == STATUS_INTERNAL_SERVER_ERROR,
        res.body@ == spec_lock_failure_prefix(task) + error@,
{
    let prefix = match task {
        Task::Specialize(Api::V1) => String::from_str(
            "Failed locking function manager specializing function: ",
        ),
        Task::Specialize(Api::V2) => String::from_str(
            "Failed locking function manager specializing function via v2: ",
        ),
        Task::Run => String::from_str(
            "Failed locking function manager running specialized function: ",
        ),
    };
    PlainResponse { status: STATUS_INTERNAL_SERVER_ERROR, body: prefix.concat(error) }
}

/// The answer when the user function could not be run.
pub fn run_failure_response(error: &str) -> (res: PlainResponse)
    ensures
        res.status == STATUS_INTERNAL_SERVER_ERROR,
        res.body@ == spec_run_failure_prefix() + error@,
{
    PlainResponse {
        status: STATUS_INTERNAL_SERVER_ERROR,
        body: String::from_str("Failed running the user function: ").concat(error),
    }
}

/// The answer to a run of the user function: its own response when it ran,
/// else an internal server error naming the error.
pub fn run_reply<T>(outcome: Result<T, String>) -> (res: Result<T, PlainResponse>)
    ensures
        outcome matches Ok(t) ==> res == Ok::<T, PlainResponse>(t),
        outcome matches Err(e) ==> (res matches Err(r) && r@ == (
            STATUS_INTERNAL_SERVER_ERROR,
            spec_run_failure_prefix() + e@,
        )),
{
    match outcome {
        Ok(t) => Ok(t),
        Err(e) => Err(run_failure_response(e.as_str())),
    }
}

} // verus!
