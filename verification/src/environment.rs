//! What the environments decide while loading and invoking a user function:
//! where its file lies, which handler serves it, and how requests and
//! responses are carried across.

use vstd::prelude::*;
use vstd::string::StrSliceExecFns;
use vstd::utf8::encode_utf8;
use crate::protocol::HttpResponse;

verus! {

/// Why a user function could not be loaded.
pub enum LoadError {
    /// The user function's path is a directory without entries.
    NoLibrary,
    /// Reading the user function's directory failed with this error.
    Io(String),
    /// The environment has no handler of this name.
    NotImplemented(String),
}

impl LoadError {
    /// The text of the error.
    pub open spec fn spec_message(self) -> Seq<char> {
        match self {
            LoadError::NoLibrary =>
                "Could not get library containing user function in expected path"@,
            LoadError::Io(e) => e@,
            LoadError::NotImplemented(name) => "The function "@ + name@
                + " you tried to call is not implemented"@,
        }
    }

    /// The text of the error.
    pub fn message(&self) -> (msg: String)
        ensures
            msg@ == self.spec_message(),
    {
        match self {
            LoadError::NoLibrary => String::from_str(
                "Could not get library containing user function in expected path",
            ),
            LoadError::Io(e) => e.clone(),
            LoadError::NotImplemented(name) => String::from_str("The function ").concat(
                name.as_str(),
            ).concat(" you tried to call is not implemented"),
        }
    }
}

/// What was found at a user function's path.
pub enum DirListing {
    /// The path is not a directory.
    NotADirectory,
    /// The path is a directory that could not be read.
    ReadFailed(String),
    /// The path is an empty directory.
    Empty,
    /// The directory's first entry could not be read.
    FirstEntryFailed(String),
    /// The path of the directory's first entry.
    FirstEntry(String),
}

/// The path that `base` and `rel` are joined into.
pub uninterp spec fn joined_path(base: Seq<char>, rel: Seq<char>) -> Seq<char>;

/// Whether joining `rel` to `base` extends `base` by one component: `rel`
/// is a non-empty relative path and `base` a non-empty path that does not
/// end with `/`.
pub open spec fn extends_path(base: Seq<char>, rel: Seq<char>) -> bool {
    &&& rel.len() > 0
    &&& rel[0] != '/'
    &&& base.len() > 0
    &&& base.last() != '/'
}

/// Calls `std::path::Path::join`. Its documentation states that an absolute
/// path replaces the path it is joined to, and that a relative path extends
/// it as a further component (`/tmp` and `file.bk` give `/tmp/file.bk`). On
/// Unix, which this library's paths are, a path is absolute when it starts
/// with `/` and components are separated by `/`. Where the documentation
/// leaves the result open (an empty path, a path that already ends with
/// `/`, an empty relative path), it is given a name, `joined_path`.
#[verifier::external_body]
fn path_join(base: &str, rel: &str) -> (res: String)
    ensures
        res@ == joined_path(base@, rel@),
        rel@.len() > 0 && rel@[0] == '/' ==> res@ == rel@,
        extends_path(base@, rel@) ==> res@ == base@ + seq!['/'] + rel@,
{
    std::path::Path::new(base).join(rel).to_string_lossy().into_owned()
}

/// The file that a user function is loaded from: the path itself when it is
/// not a directory, else the directory's first entry joined to it.
pub open spec fn spec_library_path(path: Seq<char>, listing: DirListing) -> Result<
    Seq<char>,
    LoadError,
> {
    match listing {
        DirListing::NotADirectory => Ok(path),
        DirListing::ReadFailed(e) => Err(LoadError::Io(e)),
        DirListing::Empty => Err(LoadError::NoLibrary),
        DirListing::FirstEntryFailed(e) => Err(LoadError::Io(e)),
        DirListing::FirstEntry(entry) => Ok(joined_path(path, entry@)),
    }
}

/// The view of a path result.
pub open spec fn path_result_view(res: Result<String, LoadError>) -> Result<Seq<char>, LoadError> {
    match res {
        Ok(p) => Ok(p@),
        Err(e) => Err(e),
    }
}

/// The file that a user function is loaded from, given what was found at
/// its path.
pub fn library_path(path: &str, listing: DirListing) -> (res: Result<String, LoadError>)
    ensures
        path_result_view(res) == spec_library_path(path@, listing),
        listing matches DirListing::FirstEntry(entry) ==> (entry@.len() > 0 && entry@[0] == '/'
            ==> (res matches Ok(p) && p@ == entry@)),
        listing matches DirListing::FirstEntry(entry) ==> (extends_path(path@, entry@) ==> (
        res matches Ok(p) && p@ == path@ + seq!['/'] + entry@)),
{
    match listing {
        DirListing::NotADirectory => Ok(path.to_owned()),
        DirListing::ReadFailed(e) => Err(LoadError::Io(e)),
        DirListing::Empty => Err(LoadError::NoLibrary),
        DirListing::FirstEntryFailed(e) => Err(LoadError::Io(e)),
        DirListing::FirstEntry(entry) => Ok(path_join(path, entry.as_str())),
    }
}

/// The handlers that a WebAssembly user function can be called through.
#[derive(Clone, Copy, PartialEq, Eq, Structural)]
pub enum WasmHandler {
    /// The function exported as `handle`.
    Handle,
}

/// The handler for a user function name: only `handle` is served.
pub fn select_wasm_handler(function_name: String) -> (res: Result<WasmHandler, LoadError>)
    ensures
        function_name@ == "handle"@ ==> res == Ok::<WasmHandler, LoadError>(WasmHandler::Handle),
        function_name@ != "handle"@ ==> (res matches Err(LoadError::NotImplemented(n))
            && n@ == function_name@),
{
    let handle = String::from_str("handle");
    if function_name == handle {
        Ok(WasmHandler::Handle)
    } else {
        Err(LoadError::NotImplemented(function_name))
    }
}


/// Why the answer of a user function could not be turned into a response.
#[derive(Clone, Copy, Debug, PartialEq, Eq, Structural)]
pub enum InvokeError {
    /// The status code lies outside `100..=999`.
    InvalidStatusCode,
}

impl InvokeError {
    /// The text of the error.
    pub open spec fn spec_message(self) -> Seq<char> {
        match self {
            InvokeError::InvalidStatusCode => "invalid status code"@,
        }
    }

    /// The text of the error.
    pub fn message(&self) -> (msg: String)
        ensures
            msg@ == self.spec_message(),
    {
        match self {
            InvokeError::InvalidStatusCode => String::from_str("invalid status code"),
        }
    }
}

/// Calls `http::StatusCode::from_u16`, which accepts exactly the codes from
/// 100 to 999, and reads the accepted code back with `StatusCode::as_u16`.
#[verifier::external_body]
fn checked_status_code(code: u16) -> (res: Option<u16>)
    ensures
        res == (if 100 <= code && code < 1000 { Some(code) } else { None::<u16> }),
{
    http::StatusCode::from_u16(code).ok().map(|status| status.as_u16())
}

/// Whether a byte may stand in a header value that is read as text: a
/// visible ASCII character or a tab.
pub open spec fn is_visible_ascii(b: u8) -> bool {
    (32 <= b && b < 127) || b == 9
}

/// A request header value as the user function is handed it: the value when
/// it is all visible ASCII, else empty.
pub open spec fn spec_header_text(value: Seq<u8>) -> Seq<u8> {
    if forall|i: int| 0 <= i < value.len() ==> is_visible_ascii(#[trigger] value[i]) {
        value
    } else {
        Seq::empty()
    }
}

/// A request header value as the user function is handed it: the value when
/// it is all visible ASCII (so that it reads as text), else empty.
pub fn header_text(value: &Vec<u8>) -> (text: Vec<u8>)
    ensures
        text@ == spec_header_text(value@),
{
    let mut i: usize = 0;
    while i < value.len()
        invariant
            i <= value.len(),
            forall|j: int| 0 <= j < i ==> is_visible_ascii(#[trigger] value@[j]),
        decreases value.len() - i,
    {
        let b = value[i];
        if !((32 <= b && b < 127) || b == 9) {
            return Vec::new();
        }
        i = i + 1;
    }
    value.clone()
}

/// The view of a list of headers.
pub open spec fn headers_view(headers: Seq<(String, Vec<u8>)>) -> Seq<(Seq<char>, Seq<u8>)> {
    headers.map_values(|h: (String, Vec<u8>)| (h.0@, h.1@))
}

/// The request headers as a user function written in JavaScript is handed
/// them: every header, in order, with its value read as text.
pub fn js_request_headers(headers: Vec<(String, Vec<u8>)>) -> (res: Vec<(String, Vec<u8>)>)
    ensures
        res@.len() == headers@.len(),
        forall|i: int|
            0 <= i < headers@.len() ==> (#[trigger] res@[i]).0@ == headers@[i].0@ && res@[i].1@
                == spec_header_text(headers@[i].1@),
{
    let mut res: Vec<(String, Vec<u8>)> = Vec::new();
    let mut i: usize = 0;
    while i < headers.len()
        invariant
            i <= headers@.len(),
            res@.len() == i,
            forall|j: int|
                0 <= j < i ==> (#[trigger] res@[j]).0@ == headers@[j].0@ && res@[j].1@
                    == spec_header_text(headers@[j].1@),
        decreases headers@.len() - i,
    {
        let name = headers[i].0.clone();
        let text = header_text(&headers[i].1);
        res.push((name, text));
        i = i + 1;
    }
    res
}

/// The view of the headers of a WebAssembly user function's response.
pub open spec fn named_headers_view(headers: Seq<(Option<String>, Vec<u8>)>) -> Seq<
    (Option<Seq<char>>, Seq<u8>),
> {
    headers.map_values(
        |h: (Option<String>, Vec<u8>)|
            (
                match h.0 {
                    Some(n) => Some(n@),
                    None => None,
                },
                h.1@,
            ),
    )
}

/// The headers kept of a WebAssembly user function's response: the entries
/// that carry a name, in order (an entry without a name is dropped).
pub open spec fn spec_named_headers(headers: Seq<(Option<Seq<char>>, Seq<u8>)>) -> Seq<
    (Seq<char>, Seq<u8>),
>
    decreases headers.len(),
{
    if headers.len() == 0 {
        Seq::empty()
    } else {
        let rest = spec_named_headers(headers.drop_last());
        match headers.last().0 {
            Some(name) => rest.push((name, headers.last().1)),
            None => rest,
        }
    }
}

/// The headers kept of a WebAssembly user function's response.
pub fn named_headers(headers: Vec<(Option<String>, Vec<u8>)>) -> (res: Vec<(String, Vec<u8>)>)
    ensures
        headers_view(res@) == spec_named_headers(named_headers_view(headers@)),
{
    let mut res: Vec<(String, Vec<u8>)> = Vec::new();
    let mut i: usize = 0;
    while i < headers.len()
        invariant
            i <= headers@.len(),
            headers_view(res@) == spec_named_headers(named_headers_view(headers@.take(i as int))),
        decreases headers@.len() - i,
    {
        proof {
            assert(headers@.take(i + 1).drop_last() =~= headers@.take(i as int));
            assert(named_headers_view(headers@.take(i + 1)).drop_last() =~= named_headers_view(
                headers@.take(i as int),
            ));
        }
        let ghost prev = res@;
        match &headers[i].0 {
            Some(name) => {
                res.push((name.clone(), headers[i].1.clone()));
                proof {
                    assert(headers_view(res@) =~= headers_view(prev).push(
                        (name@, headers@[i as int].1@),
                    ));
                }
            },
            None => {},
        }
        i = i + 1;
    }
    proof {
        assert(headers@.take(headers@.len() as int) =~= headers@);
    }
    res
}


/// The status of the response to a user function's answer: the code it
/// gave, when that is a valid status code.
pub fn response_status(status_code: u16) -> (res: Result<u16, InvokeError>)
    ensures
        100 <= status_code < 1000 ==> res == Ok::<u16, InvokeError>(status_code),
        !(100 <= status_code < 1000) ==> res == Err::<u16, InvokeError>(
            InvokeError::InvalidStatusCode,
        ),
{
    match checked_status_code(status_code) {
        Some(code) => Ok(code),
        None => Err(InvokeError::InvalidStatusCode),
    }
}

/// A response ready to be sent: status, headers and body.
pub struct ResponseParts {
    pub status: u16,
    pub headers: Vec<(String, Vec<u8>)>,
    pub body: Vec<u8>,
}

/// The response to the answer of a WebAssembly user function: its status,
/// the headers that carry a name and its body; refused when the status is
/// not a valid status code.
pub fn wasm_response_parts(res: HttpResponse) -> (parts: Result<ResponseParts, InvokeError>)
    ensures
        !(100 <= res.status_code < 1000) ==> parts matches Err(InvokeError::InvalidStatusCode),
        100 <= res.status_code < 1000 ==> (parts matches Ok(p) && p.status == res.status_code
            && headers_view(p.headers@) == spec_named_headers(named_headers_view(res.headers@))
            && p.body@ == res.body@),
{
    let status = match response_status(res.status_code) {
        Ok(code) => code,
        Err(e) => return Err(e),
    };
    let headers = named_headers(res.headers);
    Ok(ResponseParts { status, headers, body: res.body })
}

/// What the entries of a source package's directory are, as far as the
/// check of the package reads them.
pub enum SourceEntry {
    /// The entry could not be read.
    Unreadable,
    /// An entry whose file name is this text.
    Named(String),
    /// An entry whose file name is not Unicode.
    NonUnicode,
}

/// The outcome of the check of a source package.
#[derive(Clone, Copy, Debug, PartialEq, Eq, Structural)]
pub enum SourceCheck {
    /// The package is a node package or a single JavaScript file.
    Accepted,
    /// The package holds anything else.
    Rejected,
    /// An entry whose name is not Unicode was met before the check was done.
    NonUnicodeName,
}

/// The view of a source entry: `None` for an unreadable one, `Some(None)` for
/// a non-Unicode name.
pub open spec fn source_entry_view(e: SourceEntry) -> Option<Option<Seq<char>>> {
    match e {
        SourceEntry::Unreadable => None,
        SourceEntry::Named(n) => Some(Some(n@)),
        SourceEntry::NonUnicode => Some(None),
    }
}

/// The name that marks a node package.
pub open spec fn spec_package_manifest() -> Seq<char> {
    "package.json"@
}

/// Whether the scan of a directory stops at an entry: at a node package's
/// manifest, or at a name that cannot be read as text.
pub open spec fn stops_scan(e: Option<Option<Seq<char>>>) -> bool {
    e == Some(Some(spec_package_manifest())) || e == Some(None::<Seq<char>>)
}

/// The outcome of the check from the first entry on which the scan stops,
/// if any: a manifest accepts the package, a non-Unicode name ends the check,
/// and when the scan never stops the package is accepted exactly when it
/// holds one entry.
pub open spec fn spec_check_source_package(entries: Seq<Option<Option<Seq<char>>>>) -> SourceCheck {
    if exists|i: int| 0 <= i < entries.len() && stops_scan(#[trigger] entries[i]) {
        let k = choose|k: int|
            0 <= k < entries.len() && stops_scan(#[trigger] entries[k]) && forall|j: int|
                0 <= j < k ==> !stops_scan(#[trigger] entries[j]);
        if entries[k] == Some(None::<Seq<char>>) {
            SourceCheck::NonUnicodeName
        } else {
            SourceCheck::Accepted
        }
    } else if entries.len() == 1 {
        SourceCheck::Accepted
    } else {
        SourceCheck::Rejected
    }
}

/// Proof that when the scan first stops at entry `i`, the check's outcome is
/// read from that entry.
proof fn lemma_first_stop(entries: Seq<Option<Option<Seq<char>>>>, i: int)
    requires
        0 <= i < entries.len(),
        stops_scan(entries[i]),
        forall|j: int| 0 <= j < i ==> !stops_scan(#[trigger] entries[j]),
    ensures
        spec_check_source_package(entries) == (if entries[i] == Some(None::<Seq<char>>) {
            SourceCheck::NonUnicodeName
        } else {
            SourceCheck::Accepted
        }),
{
    let k = choose|k: int|
        0 <= k < entries.len() && stops_scan(#[trigger] entries[k]) && forall|j: int|
            0 <= j < k ==> !stops_scan(#[trigger] entries[j]);
    assert(k == i) by {
        if k < i {
            assert(!stops_scan(entries[k]));
        } else if k > i {
            assert(!stops_scan(entries[i]));
        }
    }
}

/// Checks that a source package is a node package or a single JavaScript
/// file, reading its directory entries in order.
pub fn check_source_package(entries: &Vec<SourceEntry>) -> (res: SourceCheck)
    ensures
        res == spec_check_source_package(entries@.map_values(|e: SourceEntry| source_entry_view(e))),
{
    let ghost view = entries@.map_values(|e: SourceEntry| source_entry_view(e));
    let manifest = String::from_str("package.json");
    let mut i: usize = 0;
    while i < entries.len()
        invariant
            i <= entries@.len(),
            view == entries@.map_values(|e: SourceEntry| source_entry_view(e)),
            manifest@ == spec_package_manifest(),
            forall|j: int| 0 <= j < i ==> !stops_scan(#[trigger] view[j]),
        decreases entries@.len() - i,
    {
        match &entries[i] {
            SourceEntry::Named(name) => {
                if *name == manifest {
                    proof {
                        lemma_first_stop(view, i as int);
                    }
                    return SourceCheck::Accepted;
                }
            },
            SourceEntry::NonUnicode => {
                proof {
                    lemma_first_stop(view, i as int);
                }
                return SourceCheck::NonUnicodeName;
            },
            SourceEntry::Unreadable => {},
        }
        i = i + 1;
    }
    if entries.len() == 1 {
        SourceCheck::Accepted
    } else {
        SourceCheck::Rejected
    }
}


/// Whether `http::HeaderName::from_bytes` accepts a character in a header
/// name: the visible ASCII characters other than `(),/:;<=>?@[\]{}`.
pub open spec fn is_header_name_char(c: char) -> bool {
    ||| c == '!' || c == '"' || c == '#' || c == '$' || c == '%' || c == '&' || c == '\''
    ||| c == '*' || c == '+' || c == '-' || c == '.'
    ||| ('0' <= c && c <= '9')
    ||| ('A' <= c && c <= 'Z')
    ||| c == '^' || c == '_' || c == '`'
    ||| ('a' <= c && c <= 'z')
    ||| c == '|' || c == '~'
}

/// A header name character as `http` spells it: upper-case letters are
/// lower-cased.
pub open spec fn header_name_char_lower(c: char) -> char {
    if 'A' <= c && c <= 'Z' {
        ((c as int) + 32) as char
    } else {
        c
    }
}

/// The name that `http::HeaderName::from_bytes` makes of a header name, or
/// `None` when it refuses it: a name of 1 to 65535 accepted characters is
/// accepted and lower-cased.
pub open spec fn parsed_header_name(name: Seq<char>) -> Option<Seq<char>> {
    if 1 <= name.len() <= 65535 && forall|i: int|
        0 <= i < name.len() ==> is_header_name_char(#[trigger] name[i]) {
        Some(name.map_values(|c: char| header_name_char_lower(c)))
    } else {
        None
    }
}

/// Calls `http::HeaderName::from_bytes` on the bytes of a name and reads the
/// accepted name back with `HeaderName::as_str`. Its source accepts a name
/// of 1 to 65535 bytes each of which its table of header characters maps to
/// a character (the ones of `is_header_name_char`, so a name with a
/// non-ASCII character is refused), and maps upper-case letters to
/// lower-case ones.
#[verifier::external_body]
fn parse_header_name(name: &str) -> (res: Option<String>)
    ensures
        res matches Some(n) ==> parsed_header_name(name@) == Some(n@),
        res is None ==> parsed_header_name(name@) is None,
{
    http::header::HeaderName::from_bytes(name.as_bytes()).ok().map(|n| n.as_str().to_string())
}

/// Whether a byte may stand in a header value that is built from text: any
/// byte from 32 on but 127, and the tab.
pub open spec fn is_header_value_byte(b: u8) -> bool {
    (32 <= b && b != 127) || b == 9
}

/// Whether text is accepted as a header value.
pub open spec fn header_value_accepted(value: Seq<u8>) -> bool {
    forall|i: int| 0 <= i < value.len() ==> is_header_value_byte(#[trigger] value[i])
}

/// Why a header of a user function's answer was refused.
#[derive(Clone, Copy, Debug, PartialEq, Eq, Structural)]
pub enum HeaderError {
    InvalidName,
    InvalidValue,
}

impl HeaderError {
    /// The text of the error.
    pub open spec fn spec_message(self) -> Seq<char> {
        match self {
            HeaderError::InvalidName => "invalid HTTP header name"@,
            HeaderError::InvalidValue => "failed to parse header value"@,
        }
    }

    /// The text of the error.
    pub fn message(&self) -> (msg: String)
        ensures
            msg@ == self.spec_message(),
    {
        match self {
            HeaderError::InvalidName => String::from_str("invalid HTTP header name"),
            HeaderError::InvalidValue => String::from_str("failed to parse header value"),
        }
    }
}

/// Why a header is refused, given what its name was parsed into (`None`
/// when the name was refused) and its value's bytes: first the name is
/// read, then the value.
pub open spec fn spec_header_error(header: (Option<Seq<char>>, Seq<u8>)) -> Option<HeaderError> {
    if header.0 is None {
        Some(HeaderError::InvalidName)
    } else if !header_value_accepted(header.1) {
        Some(HeaderError::InvalidValue)
    } else {
        None
    }
}

/// The error of the first refused header, if any: once a header is
/// refused, the headers after it are not looked at.
pub open spec fn spec_first_header_error(headers: Seq<(Option<Seq<char>>, Seq<u8>)>) -> Option<
    HeaderError,
>
    decreases headers.len(),
{
    if headers.len() == 0 {
        None
    } else {
        match spec_first_header_error(headers.drop_last()) {
            Some(e) => Some(e),
            None => spec_header_error(headers.last()),
        }
    }
}

/// The headers accepted, in order, under their parsed names.
pub open spec fn spec_accepted_headers(headers: Seq<(Option<Seq<char>>, Seq<u8>)>) -> Seq<
    (Seq<char>, Seq<u8>),
>
    decreases headers.len(),
{
    if headers.len() == 0 {
        Seq::empty()
    } else {
        let rest = spec_accepted_headers(headers.drop_last());
        if spec_header_error(headers.last()) is None {
            rest.push((headers.last().0->0, headers.last().1))
        } else {
            rest
        }
    }
}

/// The view of headers given as text.
pub open spec fn text_headers_view(headers: Seq<(String, String)>) -> Seq<(Seq<char>, Seq<char>)> {
    headers.map_values(|h: (String, String)| (h.0@, h.1@))
}

/// Headers given as text, each with its name parsed and its value as bytes.
pub open spec fn spec_parsed_headers(headers: Seq<(Seq<char>, Seq<char>)>) -> Seq<
    (Option<Seq<char>>, Seq<u8>),
> {
    headers.map_values(
        |h: (Seq<char>, Seq<char>)| (parsed_header_name(h.0), encode_utf8(h.1)),
    )
}

/// The response built from the answer of a user function written in
/// JavaScript.
pub enum JsResponse {
    /// Every header was accepted: the response to send.
    Built(ResponseParts),
    /// A header was refused; the response is an internal server error whose
    /// text is this error's (the first refusal's).
    HeaderRejected(HeaderError),
}

/// What the response to a user function's answer is, given its status code,
/// its headers with their names already parsed (`None` for a refused name),
/// and its body.
pub open spec fn spec_js_response_ok(
    status_code: u16,
    headers: Seq<(Option<Seq<char>>, Seq<u8>)>,
    body: Seq<u8>,
    res: Result<JsResponse, InvokeError>,
) -> bool {
    if !(100 <= status_code < 1000) {
        res matches Err(InvokeError::InvalidStatusCode)
    } else {
        match spec_first_header_error(headers) {
            Some(e) => res matches Ok(JsResponse::HeaderRejected(e2)) && e2 == e,
            None => res matches Ok(JsResponse::Built(p)) && p.status == status_code
                && headers_view(p.headers@) == spec_accepted_headers(headers) && p.body@ == body,
        }
    }
}

/// The response to the answer of a user function written in JavaScript,
/// with the header names already parsed: refused when the status is not a
/// valid status code; else, when some header is refused, the error of the
/// first refused one; else the status, the headers and the body.
pub fn js_response_from_parsed(
    status_code: u16,
    headers: Vec<(Option<String>, Vec<u8>)>,
    body: Vec<u8>,
) -> (res: Result<JsResponse, InvokeError>)
    ensures
        spec_js_response_ok(status_code, named_headers_view(headers@), body@, res),
{
    let status = match response_status(status_code) {
        Ok(code) => code,
        Err(e) => return Err(e),
    };
    let ghost view = named_headers_view(headers@);
    let mut accepted: Vec<(String, Vec<u8>)> = Vec::new();
    let mut first_error: Option<HeaderError> = None;
    let mut i: usize = 0;
    while i < headers.len()
        invariant
            i <= headers@.len(),
            view == named_headers_view(headers@),
            first_error == spec_first_header_error(view.take(i as int)),
            headers_view(accepted@) == spec_accepted_headers(view.take(i as int)),
        decreases headers@.len() - i,
    {
        proof {
            assert(view.take(i + 1).drop_last() =~= view.take(i as int));
        }
        let ghost prev = accepted@;
        let value = &headers[i].1;
        match &headers[i].0 {
            None => {
                if first_error.is_none() {
                    first_error = Some(HeaderError::InvalidName);
                }
            },
            Some(name) => {
                let mut j: usize = 0;
                let mut valid = true;
                while j < value.len()
                    invariant
                        j <= value@.len(),
                        valid <==> forall|k: int| 0 <= k < j ==> is_header_value_byte(
                            #[trigger] value@[k],
                        ),
                    decreases value@.len() - j,
                {
                    let b = value[j];
                    if !((32 <= b && b != 127) || b == 9) {
                        valid = false;
                    }
                    j = j + 1;
                }
                if valid {
                    accepted.push((name.clone(), value.clone()));
                    proof {
                        assert(headers_view(accepted@) =~= headers_view(prev).push(
                            (name@, value@),
                        ));
                    }
                } else {
                    if first_error.is_none() {
                        first_error = Some(HeaderError::InvalidValue);
                    }
                }
            },
        }
        i = i + 1;
    }
    proof {
        assert(view.take(headers@.len() as int) =~= view);
    }
    match first_error {
        Some(e) => Ok(JsResponse::HeaderRejected(e)),
        None => Ok(JsResponse::Built(ResponseParts { status, headers: accepted, body })),
    }
}

/// The response to the answer of a user function written in JavaScript,
/// whose headers are given as text: each header name is parsed as
/// `http::HeaderName::from_bytes` parses it, each value taken as its bytes,
/// and the response built from them.
pub fn js_response(status_code: u16, headers: Vec<(String, String)>, body: Vec<u8>) -> (res: Result<
    JsResponse,
    InvokeError,
>)
    ensures
        spec_js_response_ok(
            status_code,
            spec_parsed_headers(text_headers_view(headers@)),
            body@,
            res,
        ),
{
    let mut parsed: Vec<(Option<String>, Vec<u8>)> = Vec::new();
    let mut i: usize = 0;
    while i < headers.len()
        invariant
            i <= headers@.len(),
            named_headers_view(parsed@) == spec_parsed_headers(
                text_headers_view(headers@),
            ).take(i as int),
        decreases headers@.len() - i,
    {
        let ghost prev = parsed@;
        let name = parse_header_name(headers[i].0.as_str());
        let value = headers[i].1.as_str().as_bytes_vec();
        let ghost name_view = match &name {
            Some(n) => Some(n@),
            None => None::<Seq<char>>,
        };
        let ghost all = spec_parsed_headers(text_headers_view(headers@));
        proof {
            assert(name_view == parsed_header_name(headers@[i as int].0@));
            assert(value@ == encode_utf8(headers@[i as int].1@));
            assert(text_headers_view(headers@)[i as int] == (
                headers@[i as int].0@,
                headers@[i as int].1@,
            ));
            assert(all[i as int] == (name_view, value@));
        }
        parsed.push((name, value));
        proof {
            assert(named_headers_view(parsed@) =~= named_headers_view(prev).push(
                (name_view, value@),
            ));
            assert(all.take(i + 1) =~= all.take(i as int).push(all[i as int]));
        }
        i = i + 1;
    }
    proof {
        assert(spec_parsed_headers(text_headers_view(headers@)).take(headers@.len() as int)
            =~= spec_parsed_headers(text_headers_view(headers@)));
    }
    js_response_from_parsed(status_code, parsed, body)
}

/// Proof that a header value byte is accepted exactly when it is a tab or
/// lies in 32..=255 other than 127 (so a space is accepted, and bytes from
/// 128 on too), and that a read-as-text byte is exactly a tab or a byte in
/// 32..=126.
pub proof fn lemma_header_byte_classes(b: u8)
    ensures
        is_header_value_byte(b) <==> (b == 9 || (32 <= b && b <= 126) || 128 <= b),
        is_visible_ascii(b) <==> (b == 9 || (32 <= b && b <= 126)),
        is_header_value_byte(32),
        !is_header_value_byte(127),
        b < 32 && b != 9 ==> !is_header_value_byte(b) && !is_visible_ascii(b),
{
}

/// Proof that headers whose names were all accepted and whose values are
/// printable ASCII (spaces and tabs included) are all kept: no header is
/// refused, and the response carries each of them, in order, unchanged.
pub proof fn lemma_printable_headers_kept(headers: Seq<(Option<Seq<char>>, Seq<u8>)>)
    requires
        forall|i: int| 0 <= i < headers.len() ==> (#[trigger] headers[i]).0 is Some,
        forall|i: int, k: int|
            0 <= i < headers.len() && 0 <= k < headers[i].1.len() ==> (32 <= (
            #[trigger] headers[i].1[k]) && headers[i].1[k] <= 126) || headers[i].1[k] == 9,
    ensures
        spec_first_header_error(headers) is None,
        spec_accepted_headers(headers) == headers.map_values(
            |h: (Option<Seq<char>>, Seq<u8>)| (h.0->0, h.1),
        ),
    decreases headers.len(),
{
    if headers.len() > 0 {
        let rest = headers.drop_last();
        assert forall|i: int| 0 <= i < rest.len() implies (#[trigger] rest[i]).0 is Some by {
            assert(rest[i] == headers[i]);
        }
        assert forall|i: int, k: int|
            0 <= i < rest.len() && 0 <= k < rest[i].1.len() implies (32 <= (
            #[trigger] rest[i].1[k]) && rest[i].1[k] <= 126) || rest[i].1[k] == 9 by {
            assert(rest[i] == headers[i]);
        }
        lemma_printable_headers_kept(rest);
        let last = headers.last();
        assert(last == headers[headers.len() - 1]);
        assert(header_value_accepted(last.1)) by {
            assert forall|k: int| 0 <= k < last.1.len() implies is_header_value_byte(
                #[trigger] last.1[k],
            ) by {
                assert(headers[headers.len() - 1].1[k] == last.1[k]);
            }
        }
        assert(spec_header_error(last) is None);
        assert(spec_accepted_headers(headers) =~= headers.map_values(
            |h: (Option<Seq<char>>, Seq<u8>)| (h.0->0, h.1),
        ));
    }
}

/// Proof that a request header value is handed over unchanged whenever every
/// byte is a tab or in 32..=126, whatever its length, and emptied exactly
/// when some byte is not.
pub proof fn lemma_header_text_kept_or_emptied(value: Seq<u8>)
    ensures
        (forall|i: int| 0 <= i < value.len() ==> (#[trigger] value[i] == 9 || (32 <= value[i]
            && value[i] <= 126))) ==> spec_header_text(value) == value,
        (exists|i: int| 0 <= i < value.len() && !(#[trigger] value[i] == 9 || (32 <= value[i]
            && value[i] <= 126))) ==> spec_header_text(value).len() == 0,
{
}

/// Proof that of a WebAssembly user function's headers exactly the entries
/// carrying a name are kept, in order, each with its name and value.
pub proof fn lemma_named_headers_filter(headers: Seq<(Option<Seq<char>>, Seq<u8>)>)
    ensures
        spec_named_headers(headers) == headers.filter(
            |h: (Option<Seq<char>>, Seq<u8>)| h.0 is Some,
        ).map_values(|h: (Option<Seq<char>>, Seq<u8>)| (h.0->0, h.1)),
    decreases headers.len(),
{
    reveal(Seq::filter);
    if headers.len() > 0 {
        lemma_named_headers_filter(headers.drop_last());
        let pred = |h: (Option<Seq<char>>, Seq<u8>)| h.0 is Some;
        let f = |h: (Option<Seq<char>>, Seq<u8>)| (h.0->0, h.1);
        let sub = headers.drop_last().filter(pred);
        if pred(headers.last()) {
            assert(headers.filter(pred) == sub.push(headers.last()));
            assert(sub.push(headers.last()).map_values(f) =~= sub.map_values(f).push(
                f(headers.last()),
            ));
        } else {
            assert(headers.filter(pred) == sub);
        }
    }
}

/// Proof that the scan of a source package stops at a named entry exactly
/// when the name is `package.json`, always stops at a non-Unicode name, and
/// never at an unreadable entry.
pub proof fn lemma_scan_stops(n: Seq<char>)
    ensures
        stops_scan(Some(Some(n))) <==> n == "package.json"@,
        stops_scan(Some(None)),
        !stops_scan(None),
{
}

/// The first entry on which the scan stops, given one on which it does.
proof fn lemma_min_stop(entries: Seq<Option<Option<Seq<char>>>>, i: int) -> (k: int)
    requires
        0 <= i < entries.len(),
        stops_scan(entries[i]),
    ensures
        0 <= k <= i,
        stops_scan(entries[k]),
        forall|j: int| 0 <= j < k ==> !stops_scan(#[trigger] entries[j]),
    decreases i,
{
    if exists|j: int| 0 <= j < i && stops_scan(#[trigger] entries[j]) {
        let j = choose|j: int| 0 <= j < i && stops_scan(#[trigger] entries[j]);
        lemma_min_stop(entries, j)
    } else {
        i
    }
}

/// Proof that a directory of two or more entries none of which is named
/// `package.json` and all of which are readable with Unicode names is
/// rejected, that a single such entry is accepted, and that a `package.json`
/// with no non-Unicode name before it makes the package accepted.
pub proof fn lemma_source_package_outcomes(entries: Seq<Option<Option<Seq<char>>>>)
    ensures
        (forall|i: int|
            0 <= i < entries.len() ==> (#[trigger] entries[i] matches Some(Some(n)) && n
                != "package.json"@)) ==> spec_check_source_package(entries) == (if entries.len()
            == 1 {
            SourceCheck::Accepted
        } else {
            SourceCheck::Rejected
        }),
        forall|i: int|
            #![trigger entries[i]]
            0 <= i < entries.len() && entries[i] == Some(Some("package.json"@)) && (forall|j: int|
                0 <= j < i ==> entries[j] != Some(None::<Seq<char>>)) ==> spec_check_source_package(
                entries,
            ) == SourceCheck::Accepted,
{
    if forall|i: int|
        0 <= i < entries.len() ==> (#[trigger] entries[i] matches Some(Some(n)) && n
            != "package.json"@) {
        assert forall|i: int| 0 <= i < entries.len() implies !stops_scan(#[trigger] entries[i]) by {
            assert(entries[i] matches Some(Some(n)) && n != "package.json"@);
        }
    }
    assert forall|i: int|
        #![trigger entries[i]]
        0 <= i < entries.len() && entries[i] == Some(Some("package.json"@)) && (forall|j: int|
            0 <= j < i ==> entries[j] != Some(None::<Seq<char>>)) implies spec_check_source_package(
        entries,
    ) == SourceCheck::Accepted by {
        assert(stops_scan(entries[i]));
        let k = lemma_min_stop(entries, i);
        lemma_first_stop(entries, k);
        if k < i {
            assert(entries[k] != Some(None::<Seq<char>>));
        }
    }
}

} // verus!
