//! The bodies of the specialization requests (API v1 and v2).
//!
//! On the wire each optional text field is a JSON string or `null`; an empty
//! string stands for an absent value, and an absent value is written as the
//! empty string.

use vstd::prelude::*;

verus! {

/// The value that a wire field (`None` for `null`) stands for: an empty
/// string and `null` both mean that the field is absent.
pub open spec fn spec_optional_from_wire(wire: Option<Seq<char>>) -> Option<Seq<char>> {
    match wire {
        Some(s) => if s.len() == 0 { None } else { Some(s) },
        None => None,
    }
}

/// The string that an optional field is written as: the empty string when
/// the value is absent.
pub open spec fn spec_optional_to_wire(value: Option<Seq<char>>) -> Seq<char> {
    match value {
        Some(s) => s,
        None => Seq::empty(),
    }
}

/// The view of an optional string.
pub open spec fn opt_view(value: Option<String>) -> Option<Seq<char>> {
    match value {
        Some(s) => Some(s@),
        None => None,
    }
}

/// An optional field as the requests hold it: never a present empty string.
pub open spec fn normalized(value: Option<Seq<char>>) -> bool {
    value matches Some(s) ==> s.len() > 0
}

/// Reads an optional text field from its wire value.
pub fn optional_from_wire(wire: Option<String>) -> (value: Option<String>)
    ensures
        opt_view(value) == spec_optional_from_wire(opt_view(wire)),
{
    match wire {
        Some(s) => {
            if s.as_str().is_empty() {
                None
            } else {
                Some(s)
            }
        },
        None => None,
    }
}

/// Writes an optional text field as its wire string.
pub fn optional_to_wire(value: &Option<String>) -> (wire: String)
    ensures
        wire@ == spec_optional_to_wire(opt_view(*value)),
{
    match value {
        Some(s) => s.clone(),
        None => String::new(),
    }
}


/// Proof that reading back what was written gives the value again, for every
/// value that a request can hold (absent or non-empty).
pub proof fn lemma_optional_wire_round_trip(value: Option<Seq<char>>)
    requires
        normalized(value),
    ensures
        spec_optional_from_wire(Some(spec_optional_to_wire(value))) == value,
{
}

/// Proof that writing back what was read from a wire string gives that
/// string again, and that `null` is written back as the empty string.
pub proof fn lemma_optional_wire_rewrite(wire: Option<Seq<char>>)
    ensures
        wire matches Some(s) ==> spec_optional_to_wire(spec_optional_from_wire(wire)) == s,
        wire is None ==> spec_optional_to_wire(spec_optional_from_wire(wire)) == Seq::<char>::empty(),
        normalized(spec_optional_from_wire(wire)),
{
}

/// The body of a v1 specialization request.
pub struct V1SpecializeRequest {
    /// The name of the user function (wire name `functionName`).
    pub function_name: Option<String>,
    /// Where the user function comes from.
    pub url: Option<String>,
}

/// What a v1 specialization request says.
pub struct V1SpecializeRequestView {
    pub function_name: Option<Seq<char>>,
    pub url: Option<Seq<char>>,
}

impl View for V1SpecializeRequest {
    type V = V1SpecializeRequestView;

    open spec fn view(&self) -> V1SpecializeRequestView {
        V1SpecializeRequestView {
            function_name: opt_view(self.function_name),
            url: opt_view(self.url),
        }
    }
}

impl V1SpecializeRequestView {
    /// Neither optional field is a present empty string.
    pub open spec fn wf(self) -> bool {
        normalized(self.function_name) && normalized(self.url)
    }

    /// The request that the wire fields stand for.
    pub open spec fn from_wire(function_name: Option<Seq<char>>, url: Option<Seq<char>>) -> Self {
        V1SpecializeRequestView {
            function_name: spec_optional_from_wire(function_name),
            url: spec_optional_from_wire(url),
        }
    }

    /// The wire strings of the fields `functionName` and `url`.
    pub open spec fn to_wire(self) -> (Seq<char>, Seq<char>) {
        (spec_optional_to_wire(self.function_name), spec_optional_to_wire(self.url))
    }
}

impl V1SpecializeRequest {
    /// Builds the request from its wire fields (`None` for `null`).
    pub fn from_wire(function_name: Option<String>, url: Option<String>) -> (req: Self)
        ensures
            req@ == V1SpecializeRequestView::from_wire(opt_view(function_name), opt_view(url)),
            req@.wf(),
    {
        V1SpecializeRequest {
            function_name: optional_from_wire(function_name),
            url: optional_from_wire(url),
        }
    }

    /// The wire strings of the fields `functionName` and `url`.
    pub fn to_wire(&self) -> (wire: (String, String))
        ensures
            (wire.0@, wire.1@) == self@.to_wire(),
    {
        (optional_to_wire(&self.function_name), optional_to_wire(&self.url))
    }
}

/// The body of a v2 specialization request.
pub struct V2SpecializeRequest {
    /// The name of the user function (wire name `functionName`).
    pub function_name: Option<String>,
    /// Where the user function lies on disk.
    pub filepath: String,
    /// Where the user function comes from (may be missing on the wire).
    pub url: Option<String>,
}

/// What a v2 specialization request says.
pub struct V2SpecializeRequestView {
    pub function_name: Option<Seq<char>>,
    pub filepath: Seq<char>,
    pub url: Option<Seq<char>>,
}

impl View for V2SpecializeRequest {
    type V = V2SpecializeRequestView;

    open spec fn view(&self) -> V2SpecializeRequestView {
        V2SpecializeRequestView {
            function_name: opt_view(self.function_name),
            filepath: self.filepath@,
            url: opt_view(self.url),
        }
    }
}

impl V2SpecializeRequestView {
    /// Neither optional field is a present empty string.
    pub open spec fn wf(self) -> bool {
        normalized(self.function_name) && normalized(self.url)
    }

    /// The request that the wire fields stand for.
    pub open spec fn from_wire(
        function_name: Option<Seq<char>>,
        filepath: Seq<char>,
        url: Option<Seq<char>>,
    ) -> Self {
        V2SpecializeRequestView {
            function_name: spec_optional_from_wire(function_name),
            filepath,
            url: spec_optional_from_wire(url),
        }
    }

    /// The wire strings of the fields `functionName`, `filepath` and `url`.
    pub open spec fn to_wire(self) -> (Seq<char>, Seq<char>, Seq<char>) {
        (
            spec_optional_to_wire(self.function_name),
            self.filepath,
            spec_optional_to_wire(self.url),
        )
    }
}

impl V2SpecializeRequest {
    /// Builds the request from its wire fields (`None` for `null` or, for
    /// `url`, a missing field).
    pub fn from_wire(function_name: Option<String>, filepath: String, url: Option<String>) -> (req:
        Self)
        ensures
            req@ == V2SpecializeRequestView::from_wire(
                opt_view(function_name),
                filepath@,
                opt_view(url),
            ),
            req@.wf(),
    {
        V2SpecializeRequest {
            function_name: optional_from_wire(function_name),
            filepath,
            url: optional_from_wire(url),
        }
    }

    /// The wire strings of the fields `functionName`, `filepath` and `url`.
    pub fn to_wire(&self) -> (wire: (String, String, String))
        ensures
            (wire.0@, wire.1@, wire.2@) == self@.to_wire(),
    {
        (optional_to_wire(&self.function_name), self.filepath.clone(), optional_to_wire(&self.url))
    }
}

/// Proof that a v1 request written to the wire and read back is the same
/// request.
pub proof fn lemma_v1_wire_round_trip(req: V1SpecializeRequestView)
    requires
        req.wf(),
    ensures
        V1SpecializeRequestView::from_wire(Some(req.to_wire().0), Some(req.to_wire().1)) == req,
{
    lemma_optional_wire_round_trip(req.function_name);
    lemma_optional_wire_round_trip(req.url);
}

/// Proof that a v2 request written to the wire and read back is the same
/// request.
pub proof fn lemma_v2_wire_round_trip(req: V2SpecializeRequestView)
    requires
        req.wf(),
    ensures
        V2SpecializeRequestView::from_wire(
            Some(req.to_wire().0),
            req.to_wire().1,
            Some(req.to_wire().2),
        ) == req,
{
    lemma_optional_wire_round_trip(req.function_name);
    lemma_optional_wire_round_trip(req.url);
}

} // verus!
