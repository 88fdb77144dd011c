use environment_server::environment::{
    check_source_package, header_text, js_request_headers, library_path, named_headers,
    response_status, select_wasm_handler, wasm_response_parts, DirListing, InvokeError,
    LoadError, SourceCheck, SourceEntry, WasmHandler,
};
use environment_server::protocol::HttpResponse;

#[test]
fn plain_file_is_loaded_from_its_path() {
    let res = library_path("/userfunc/user", DirListing::NotADirectory);
    assert_eq!(res.ok(), Some("/userfunc/user".to_string()));
}

#[test]
fn absolute_first_entry_is_loaded_as_is() {
    let res = library_path("relative/dir", DirListing::FirstEntry("/abs/lib.so".to_string()));
    assert_eq!(res.ok(), Some("/abs/lib.so".to_string()));
}

#[test]
fn directory_is_loaded_from_its_first_entry() {
    let res = library_path("/userfunc/user", DirListing::FirstEntry("/userfunc/user/lib.so".to_string()));
    assert_eq!(res.ok(), Some("/userfunc/user/lib.so".to_string()));
    let res = library_path("/userfunc", DirListing::FirstEntry("lib.so".to_string()));
    assert_eq!(res.ok(), Some("/userfunc/lib.so".to_string()));
}

#[test]
fn empty_directory_has_no_library() {
    let res = library_path("/userfunc/user", DirListing::Empty);
    match res {
        Err(e) => {
            assert!(matches!(e, LoadError::NoLibrary));
            assert_eq!(e.message(), "Could not get library containing user function in expected path");
        }
        Ok(_) => panic!("expected an error"),
    }
}

#[test]
fn unreadable_directory_reports_io_error() {
    let res = library_path("/x", DirListing::ReadFailed("Permission denied".to_string()));
    match res {
        Err(LoadError::Io(e)) => assert_eq!(e, "Permission denied"),
        _ => panic!("expected an io error"),
    }
    let res = library_path("/x", DirListing::FirstEntryFailed("gone".to_string()));
    match res {
        Err(e) => assert_eq!(e.message(), "gone"),
        Ok(_) => panic!("expected an io error"),
    }
}

#[test]
fn only_handle_is_served_by_wasm_environment() {
    assert!(matches!(select_wasm_handler("handle".to_string()), Ok(WasmHandler::Handle)));
    match select_wasm_handler("main".to_string()) {
        Err(e) => {
            assert!(matches!(&e, LoadError::NotImplemented(n) if n == "main"));
            assert_eq!(e.message(), "The function main you tried to call is not implemented");
        }
        Ok(_) => panic!("expected an error"),
    }
}

#[test]
fn status_codes_are_checked() {
    assert_eq!(response_status(99), Err(InvokeError::InvalidStatusCode));
    assert_eq!(response_status(100), Ok(100));
    assert_eq!(response_status(200), Ok(200));
    assert_eq!(response_status(999), Ok(999));
    assert_eq!(response_status(1000), Err(InvokeError::InvalidStatusCode));
    assert_eq!(InvokeError::InvalidStatusCode.message(), "invalid status code");
}

#[test]
fn header_text_keeps_visible_ascii() {
    assert_eq!(header_text(&b"text/plain; q=1\tx".to_vec()), b"text/plain; q=1\tx".to_vec());
    assert_eq!(header_text(&vec![b'a', 0x80, b'b']), Vec::<u8>::new());
    assert_eq!(header_text(&vec![b'a', 127]), Vec::<u8>::new());
    assert_eq!(header_text(&vec![]), Vec::<u8>::new());
}

#[test]
fn js_request_headers_keep_order_and_names() {
    let headers = vec![
        ("accept".to_string(), b"*/*".to_vec()),
        ("x-bin".to_string(), vec![0xff]),
        ("accept".to_string(), b"text/html".to_vec()),
    ];
    let res = js_request_headers(headers);
    assert_eq!(
        res,
        vec![
            ("accept".to_string(), b"*/*".to_vec()),
            ("x-bin".to_string(), vec![]),
            ("accept".to_string(), b"text/html".to_vec()),
        ]
    );
}

#[test]
fn unnamed_response_headers_are_dropped() {
    let headers = vec![
        (Some("set-cookie".to_string()), b"a=1".to_vec()),
        (None, b"b=2".to_vec()),
        (Some("content-type".to_string()), b"text/plain".to_vec()),
    ];
    assert_eq!(
        named_headers(headers),
        vec![
            ("set-cookie".to_string(), b"a=1".to_vec()),
            ("content-type".to_string(), b"text/plain".to_vec()),
        ]
    );
}

#[test]
fn wasm_response_is_built_from_guest_answer() {
    let res = HttpResponse {
        status_code: 201,
        headers: vec![(Some("x".to_string()), b"1".to_vec()), (None, b"2".to_vec())],
        body: b"Hi there".to_vec(),
    };
    let parts = wasm_response_parts(res).ok().expect("valid status");
    assert_eq!(parts.status, 201);
    assert_eq!(parts.headers, vec![("x".to_string(), b"1".to_vec())]);
    assert_eq!(parts.body, b"Hi there".to_vec());
}

#[test]
fn wasm_response_with_invalid_status_is_refused() {
    let res = HttpResponse { status_code: 42, headers: vec![], body: vec![] };
    assert!(matches!(wasm_response_parts(res), Err(InvokeError::InvalidStatusCode)));
}

#[test]
fn source_package_with_manifest_is_accepted() {
    let entries = vec![
        SourceEntry::Named("index.js".to_string()),
        SourceEntry::Named("package.json".to_string()),
        SourceEntry::NonUnicode,
    ];
    assert!(check_source_package(&entries) == SourceCheck::Accepted);
}

#[test]
fn source_package_with_single_file_is_accepted() {
    let entries = vec![SourceEntry::Named("fn.js".to_string())];
    assert!(check_source_package(&entries) == SourceCheck::Accepted);
    let entries = vec![SourceEntry::Unreadable];
    assert!(check_source_package(&entries) == SourceCheck::Accepted);
}

#[test]
fn source_package_with_several_files_is_rejected() {
    let entries = vec![SourceEntry::Named("a.js".to_string()), SourceEntry::Unreadable];
    assert!(check_source_package(&entries) == SourceCheck::Rejected);
    assert!(check_source_package(&vec![]) == SourceCheck::Rejected);
}

#[test]
fn non_unicode_name_before_manifest_stops_the_check() {
    let entries = vec![SourceEntry::NonUnicode, SourceEntry::Named("package.json".to_string())];
    assert!(check_source_package(&entries) == SourceCheck::NonUnicodeName);
}

use environment_server::environment::{js_response, HeaderError, JsResponse};

#[test]
fn js_response_lowercases_header_names() {
    let res = js_response(
        200,
        vec![
            ("Content-Type".to_string(), "text/plain".to_string()),
            ("X-Custom".to_string(), "a\tb".to_string()),
        ],
        b"ok".to_vec(),
    );
    match res {
        Ok(JsResponse::Built(parts)) => {
            assert_eq!(parts.status, 200);
            assert_eq!(
                parts.headers,
                vec![
                    ("content-type".to_string(), b"text/plain".to_vec()),
                    ("x-custom".to_string(), b"a\tb".to_vec()),
                ]
            );
            assert_eq!(parts.body, b"ok".to_vec());
        }
        _ => panic!("expected a built response"),
    }
}

#[test]
fn js_response_with_invalid_status_is_refused() {
    let res = js_response(7, vec![("bad name".to_string(), "v".to_string())], vec![]);
    assert!(matches!(res, Err(InvokeError::InvalidStatusCode)));
}

#[test]
fn js_response_reports_first_refused_header() {
    let res = js_response(
        200,
        vec![
            ("bad name".to_string(), "v".to_string()),
            ("ok".to_string(), "fine".to_string()),
            ("x-value".to_string(), "line\nbreak".to_string()),
        ],
        vec![],
    );
    match res {
        Ok(JsResponse::HeaderRejected(e)) => {
            assert_eq!(e, HeaderError::InvalidName);
            assert_eq!(e.message(), "invalid HTTP header name");
        }
        _ => panic!("expected a refused header"),
    }
    let res = js_response(200, vec![("x".to_string(), "\u{7f}".to_string()), ("".to_string(), "v".to_string())], vec![]);
    match res {
        Ok(JsResponse::HeaderRejected(e)) => {
            assert_eq!(e, HeaderError::InvalidValue);
            assert_eq!(e.message(), "failed to parse header value");
        }
        _ => panic!("expected a refused header"),
    }
}

#[test]
fn js_response_header_name_characters() {
    let res = js_response(
        200,
        vec![("X-\"Odd\"_Name|~".to_string(), "v".to_string())],
        vec![],
    );
    match res {
        Ok(JsResponse::Built(parts)) => {
            assert_eq!(parts.headers, vec![("x-\"odd\"_name|~".to_string(), b"v".to_vec())]);
        }
        _ => panic!("expected a built response"),
    }
    for bad in ["a:b", "a b", "(x)", "é", ""] {
        let res = js_response(200, vec![(bad.to_string(), "v".to_string())], vec![]);
        assert!(matches!(res, Ok(JsResponse::HeaderRejected(HeaderError::InvalidName))), "{}", bad);
    }
}

#[test]
fn js_response_accepts_non_ascii_values() {
    let res = js_response(200, vec![("x".to_string(), "é".to_string())], vec![]);
    match res {
        Ok(JsResponse::Built(parts)) => {
            assert_eq!(parts.headers, vec![("x".to_string(), "é".as_bytes().to_vec())]);
        }
        _ => panic!("expected a built response"),
    }
}

use environment_server::environment::js_response_from_parsed;

#[test]
fn js_response_from_parsed_headers() {
    let res = js_response_from_parsed(
        404,
        vec![(Some("x-a".to_string()), b"1".to_vec()), (Some("x-b".to_string()), vec![0xc3, 0xa9])],
        b"missing".to_vec(),
    );
    match res {
        Ok(JsResponse::Built(parts)) => {
            assert_eq!(parts.status, 404);
            assert_eq!(
                parts.headers,
                vec![("x-a".to_string(), b"1".to_vec()), ("x-b".to_string(), vec![0xc3, 0xa9])]
            );
            assert_eq!(parts.body, b"missing".to_vec());
        }
        _ => panic!("expected a built response"),
    }
    let res = js_response_from_parsed(200, vec![(None, b"v".to_vec()), (Some("x".to_string()), vec![1])], vec![]);
    assert!(matches!(res, Ok(JsResponse::HeaderRejected(HeaderError::InvalidName))));
    let res = js_response_from_parsed(200, vec![(Some("x".to_string()), vec![1]), (None, b"v".to_vec())], vec![]);
    assert!(matches!(res, Ok(JsResponse::HeaderRejected(HeaderError::InvalidValue))));
    let res = js_response_from_parsed(1000, vec![], vec![]);
    assert!(matches!(res, Err(InvokeError::InvalidStatusCode)));
}

use environment_server::protocol::guest_request;

#[test]
fn guest_request_keeps_every_header_value() {
    let req = guest_request(
        "POST".to_string(),
        "/fn?x=1".to_string(),
        vec![
            ("accept".to_string(), b"a".to_vec()),
            ("accept".to_string(), b"b".to_vec()),
            ("x-bin".to_string(), vec![0xff]),
        ],
        b"payload".to_vec(),
    );
    assert_eq!(req.method, "POST");
    assert_eq!(req.uri, "/fn?x=1");
    assert_eq!(
        req.headers,
        vec![
            ("accept".to_string(), b"a".to_vec()),
            ("accept".to_string(), b"b".to_vec()),
            ("x-bin".to_string(), vec![0xff]),
        ]
    );
    assert_eq!(req.body, b"payload".to_vec());
}

#[test]
fn directory_path_with_trailing_separator_joins_entry() {
    let res = library_path("/userfunc/", DirListing::FirstEntry("lib.so".to_string()));
    assert_eq!(res.ok(), Some("/userfunc/lib.so".to_string()));
}
