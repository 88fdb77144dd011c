//! The state of an environment: which user function is loaded, and what
//! loading and running it do to that state.

use vstd::prelude::*;
use crate::loader::{FunctionLoaderV1, FunctionLoaderV2};
use crate::response::{
    specialize_response, run_failure_response, spec_load_failure_prefix, spec_loaded_message,
    spec_run_failure_prefix, Api, PlainResponse, STATUS_ACCEPTED, STATUS_INTERNAL_SERVER_ERROR,
};
use crate::routing::{spec_route, Method, Route};

verus! {

/// Why a run request could not be served.
pub enum RunError {
    /// No user function has been loaded yet.
    NotLoaded,
}

impl RunError {
    /// The text of the error.
    pub open spec fn spec_message(self) -> Seq<char> {
        match self {
            RunError::NotLoaded =>
                "user function has not been loaded yet and can therefore not be executed"@,
        }
    }

    /// The text of the error.
    pub fn message(&self) -> (msg: String)
        ensures
            msg@ == self.spec_message(),
    {
        match self {
            RunError::NotLoaded => String::from_str(
                "user function has not been loaded yet and can therefore not be executed",
            ),
        }
    }
}

/// The loaded function after a load attempt with the given outcome: a loaded
/// function replaces the previous one; a failed load changes nothing.
pub open spec fn spec_after_load<F, E>(loaded: Option<F>, outcome: Result<F, E>) -> Option<F> {
    match outcome {
        Ok(f) => Some(f),
        Err(_) => loaded,
    }
}

/// What a run request is served with: the loaded function, if there is one.
pub open spec fn spec_run_outcome<F>(loaded: Option<F>) -> Result<F, RunError> {
    match loaded {
        Some(f) => Ok(f),
        None => Err(RunError::NotLoaded),
    }
}

/// The error text of a load outcome, kept with the loaded function.
pub open spec fn spec_load_outcome_view<F>(outcome: Result<F, String>) -> Result<F, Seq<char>> {
    match outcome {
        Ok(f) => Ok(f),
        Err(e) => Err(e@),
    }
}

/// The answer to a specialization through `api` whose load had the given
/// outcome.
pub open spec fn spec_specialize_reply<F>(api: Api, outcome: Result<F, Seq<char>>) -> (
    u16,
    Seq<char>,
) {
    match outcome {
        Ok(_) => (STATUS_ACCEPTED, spec_loaded_message(api)),
        Err(e) => (STATUS_INTERNAL_SERVER_ERROR, spec_load_failure_prefix(api) + e),
    }
}

/// What a run request is served with: the loaded function, or the answer
/// that none is loaded.
pub open spec fn spec_serve_run<F>(loaded: Option<F>) -> Result<F, (u16, Seq<char>)> {
    match loaded {
        Some(f) => Ok(f),
        None => Err(
            (
                STATUS_INTERNAL_SERVER_ERROR,
                spec_run_failure_prefix() + RunError::NotLoaded.spec_message(),
            ),
        ),
    }
}

/// The loaders of both APIs, the function that runs a user function, and the
/// user function loaded last, if any.
pub struct FunctionManager<F, L1, L2, R> {
    function_loader_v1: FunctionLoaderV1<L1>,
    function_loader_v2: FunctionLoaderV2<L2>,
    function_runner: R,
    function: Option<F>,
}

impl<F, L1, L2, R> FunctionManager<F, L1, L2, R> {
    /// The user function loaded last, if any.
    pub closed spec fn loaded(&self) -> Option<F> {
        self.function
    }

    /// The v1 loader.
    pub closed spec fn loader_v1(&self) -> FunctionLoaderV1<L1> {
        self.function_loader_v1
    }

    /// The v2 loader.
    pub closed spec fn loader_v2(&self) -> FunctionLoaderV2<L2> {
        self.function_loader_v2
    }

    /// The function that runs a user function.
    pub closed spec fn runner(&self) -> R {
        self.function_runner
    }

    /// A manager with no user function loaded.
    pub fn new(loader_v1: FunctionLoaderV1<L1>, loader_v2: FunctionLoaderV2<L2>, runner: R) -> (m:
        Self)
        ensures
            m.loaded() is None,
            m.loader_v1() == loader_v1,
            m.loader_v2() == loader_v2,
            m.runner() == runner,
    {
        FunctionManager {
            function_loader_v1: loader_v1,
            function_loader_v2: loader_v2,
            function_runner: runner,
            function: None,
        }
    }

    /// Records the outcome of a load (through either API): on success the
    /// loaded function replaces the previous one and `Ok(())` is returned; on
    /// failure nothing changes and the error is handed back.
    pub fn load_function<E>(&mut self, outcome: Result<F, E>) -> (res: Result<(), E>)
        ensures
            final(self).loaded() == spec_after_load(old(self).loaded(), outcome),
            final(self).loader_v1() == old(self).loader_v1(),
            final(self).loader_v2() == old(self).loader_v2(),
            final(self).runner() == old(self).runner(),
            outcome is Ok <==> res is Ok,
            outcome matches Err(e) ==> res == Err::<(), E>(e),
    {
        match outcome {
            Ok(f) => {
                self.function = Some(f);
                Ok(())
            },
            Err(e) => Err(e),
        }
    }

    /// The user function that a run request is served with, or the error
    /// when none is loaded.
    pub fn run_function(&self) -> (res: Result<&F, RunError>)
        ensures
            match res {
                Ok(f) => spec_run_outcome(self.loaded()) == Ok::<F, RunError>(*f),
                Err(e) => spec_run_outcome(self.loaded()) == Err::<F, RunError>(e),
            },
    {
        match &self.function {
            None => Err(RunError::NotLoaded),
            Some(f) => Ok(f),
        }
    }

    /// Serves a specialization through `api` whose load had the given
    /// outcome: records it and answers with what became of it.
    pub fn specialize(&mut self, api: Api, outcome: Result<F, String>) -> (res: PlainResponse)
        ensures
            final(self).loaded() == spec_after_load(old(self).loaded(), outcome),
            final(self).loader_v1() == old(self).loader_v1(),
            final(self).loader_v2() == old(self).loader_v2(),
            final(self).runner() == old(self).runner(),
            res@ == spec_specialize_reply(api, spec_load_outcome_view(outcome)),
    {
        let recorded = self.load_function(outcome);
        specialize_response(api, &recorded)
    }

    /// Serves a run request: the loaded function to run, or the answer that
    /// none is loaded.
    pub fn serve_run(&self) -> (res: Result<&F, PlainResponse>)
        ensures
            match res {
                Ok(f) => spec_serve_run(self.loaded()) == Ok::<F, (u16, Seq<char>)>(*f),
                Err(r) => spec_serve_run(self.loaded()) == Err::<F, (u16, Seq<char>)>(r@),
            },
    {
        match self.run_function() {
            Ok(f) => Ok(f),
            Err(e) => Err(run_failure_response(e.message().as_str())),
        }
    }

    /// The v1 loader.
    pub fn function_loader_v1(&self) -> (l: &FunctionLoaderV1<L1>)
        ensures
            *l == self.loader_v1(),
    {
        &self.function_loader_v1
    }

    /// The v2 loader.
    pub fn function_loader_v2(&self) -> (l: &FunctionLoaderV2<L2>)
        ensures
            *l == self.loader_v2(),
    {
        &self.function_loader_v2
    }

    /// The function that runs a user function.
    pub fn function_runner(&self) -> (r: &R)
        ensures
            *r == self.runner(),
    {
        &self.function_runner
    }
}

/// Proof that a run request before any successful load is refused as "not
/// loaded", whatever failed loads came before.
pub proof fn lemma_run_before_load_is_refused<F, E>(failures: Seq<E>)
    ensures
        spec_run_outcome(failures.fold_left(
            None::<F>,
            |state: Option<F>, e: E| spec_after_load(state, Err::<F, E>(e)),
        )) == Err::<F, RunError>(RunError::NotLoaded),
    decreases failures.len(),
{
    if failures.len() > 0 {
        lemma_run_before_load_is_refused::<F, E>(failures.drop_last());
    }
}

/// Proof that after a successful load, a run request is served with the
/// function that was loaded, whatever was loaded before.
pub proof fn lemma_run_after_load<F, E>(loaded: Option<F>, f: F)
    ensures
        spec_run_outcome(spec_after_load(loaded, Ok::<F, E>(f))) == Ok::<F, RunError>(f),
{
}

/// Proof that a failed load leaves the manager serving run requests as
/// before.
pub proof fn lemma_failed_load_keeps_state<F, E>(loaded: Option<F>, e: E)
    ensures
        spec_after_load(loaded, Err::<F, E>(e)) == loaded,
        spec_run_outcome(spec_after_load(loaded, Err::<F, E>(e))) == spec_run_outcome(loaded),
{
}

/// Proof that of two successful loads the later one wins.
pub proof fn lemma_last_load_wins<F, E>(loaded: Option<F>, first: F, second: F)
    ensures
        spec_after_load(spec_after_load(loaded, Ok::<F, E>(first)), Ok::<F, E>(second)) == Some(
            second,
        ),
{
}

/// Proof that a `POST` to `/specialize` or `/v2/specialize` is served as a
/// specialization through v1 or v2, and that a successful one is answered
/// as accepted, after which every run request is served with the function
/// it loaded.
pub proof fn lemma_specialize_then_run<F>(loaded: Option<F>, api: Api, f: F)
    ensures
        spec_route(Method::Post, "/specialize"@) == Route::SpecializeV1,
        spec_route(Method::Post, "/v2/specialize"@) == Route::SpecializeV2,
        spec_specialize_reply(api, Ok::<F, Seq<char>>(f)) == (
            STATUS_ACCEPTED,
            spec_loaded_message(api),
        ),
        spec_serve_run(spec_after_load(loaded, Ok::<F, Seq<char>>(f))) == Ok::<
            F,
            (u16, Seq<char>),
        >(f),
{
    reveal_strlit("/healthz");
    reveal_strlit("/specialize");
    reveal_strlit("/v2/specialize");
    assert("/specialize"@.len() != "/healthz"@.len());
    assert("/v2/specialize"@.len() != "/healthz"@.len());
    assert("/v2/specialize"@.len() != "/specialize"@.len());
}

/// Proof that a failed specialization is answered with its error and leaves
/// run requests served as before.
pub proof fn lemma_failed_specialize<F>(loaded: Option<F>, api: Api, e: Seq<char>)
    ensures
        spec_specialize_reply(api, Err::<F, Seq<char>>(e)) == (
            STATUS_INTERNAL_SERVER_ERROR,
            spec_load_failure_prefix(api) + e,
        ),
        spec_serve_run(spec_after_load(loaded, Err::<F, Seq<char>>(e))) == spec_serve_run(loaded),
{
}

/// Proof that a request to any path but the server's own, with any method,
/// is served by running the user function, and that before any successful
/// load it is answered as an internal server error saying that no function
/// is loaded.
pub proof fn lemma_run_requests<F>(method: Method, path: Seq<char>)
    requires
        path != "/healthz"@,
        path != "/specialize"@,
        path != "/v2/specialize"@,
    ensures
        spec_route(method, path) == Route::RunFunction,
        spec_serve_run(None::<F>) == Err::<F, (u16, Seq<char>)>(
            (
                500u16,
                "Failed running the user function: user function has not been loaded yet and can therefore not be executed"@,
            ),
        ),
{
    reveal_strlit("Failed running the user function: ");
    reveal_strlit("user function has not been loaded yet and can therefore not be executed");
    reveal_strlit(
        "Failed running the user function: user function has not been loaded yet and can therefore not be executed",
    );
    assert("Failed running the user function: "@
        + "user function has not been loaded yet and can therefore not be executed"@
        =~= "Failed running the user function: user function has not been loaded yet and can therefore not be executed"@);
}

} // verus!
