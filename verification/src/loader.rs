//! The user-function loaders of the two specialization APIs, and what the
//! environments hand to them.

use vstd::prelude::*;
use crate::request::{opt_view, V1SpecializeRequest, V2SpecializeRequest};

verus! {

/// A v1 loader: the function that loads a user function, and the path at
/// which v1 user functions are found.
pub struct FunctionLoaderV1<L> {
    function_loader: L,
    code_path: String,
}

impl<L> FunctionLoaderV1<L> {
    /// The function that loads a user function.
    pub closed spec fn loader(&self) -> L {
        self.function_loader
    }

    /// The path at which v1 user functions are found.
    pub closed spec fn path(&self) -> Seq<char> {
        self.code_path@
    }

    pub fn new(function_loader: L, code_path: String) -> (loader: Self)
        ensures
            loader.loader() == function_loader,
            loader.path() == code_path@,
    {
        FunctionLoaderV1 { function_loader, code_path }
    }

    /// The function that loads a user function.
    pub fn function_loader(&self) -> (f: &L)
        ensures
            *f == self.loader(),
    {
        &self.function_loader
    }

    /// The path that the loader is handed beside the request body.
    pub fn code_path(&self) -> (p: &str)
        ensures
            p@ == self.path(),
    {
        self.code_path.as_str()
    }
}

/// A v2 loader: the function that loads a user function (v2 requests carry
/// the path themselves).
pub struct FunctionLoaderV2<L> {
    function_loader: L,
}

impl<L> FunctionLoaderV2<L> {
    /// The function that loads a user function.
    pub closed spec fn loader(&self) -> L {
        self.function_loader
    }

    pub fn new(function_loader: L) -> (loader: Self)
        ensures
            loader.loader() == function_loader,
    {
        FunctionLoaderV2 { function_loader }
    }

    /// The function that loads a user function.
    pub fn function_loader(&self) -> (f: &L)
        ensures
            *f == self.loader(),
    {
        &self.function_loader
    }
}

/// The name of the user function that is loaded when a request names none.
pub open spec fn spec_default_function_name() -> Seq<char> {
    seq!['h', 'a', 'n', 'd', 'l', 'e']
}

/// The name of the user function that is loaded when a request names none.
pub fn default_function_name() -> (name: String)
    ensures
        name@ == spec_default_function_name(),
{
    let name = String::from_str("handle");
    proof {
        reveal_strlit("handle");
    }
    name
}

/// The function name that a request asks for, or the default.
pub open spec fn spec_function_name_or_default(name: Option<Seq<char>>) -> Seq<char> {
    match name {
        Some(n) => n,
        None => spec_default_function_name(),
    }
}

/// Where a user function is to be loaded from, and under which name.
pub struct LoadTarget {
    /// The path of the user function's file, or of a directory holding it.
    pub path: String,
    /// The name of the user function.
    pub function_name: String,
}

/// What an environment loads for a v1 request: the function named in the
/// request (or the default) from the configured code path.
pub fn load_target_v1(req: V1SpecializeRequest, code_path: &str) -> (target: LoadTarget)
    ensures
        target.path@ == code_path@,
        target.function_name@ == spec_function_name_or_default(opt_view(req.function_name)),
{
    let function_name = match req.function_name {
        Some(name) => name,
        None => default_function_name(),
    };
    LoadTarget { path: code_path.to_owned(), function_name }
}

/// What an environment loads for a v2 request: the function named in the
/// request (or the default) from the path the request gives.
pub fn load_target_v2(req: V2SpecializeRequest) -> (target: LoadTarget)
    ensures
        target.path@ == req.filepath@,
        target.function_name@ == spec_function_name_or_default(opt_view(req.function_name)),
{
    let function_name = match req.function_name {
        Some(name) => name,
        None => default_function_name(),
    };
    LoadTarget { path: req.filepath, function_name }
}

/// Proof that a function named in a request is loaded under exactly that
/// name, and `handle` only when the request names none.
pub proof fn lemma_requested_name_kept(name: Seq<char>)
    ensures
        spec_function_name_or_default(Some(name)) == name,
        spec_function_name_or_default(None) == "handle"@,
{
    reveal_strlit("handle");
}

} // verus!
