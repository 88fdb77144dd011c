use environment_server::request::{
    optional_from_wire, optional_to_wire, V1SpecializeRequest, V2SpecializeRequest,
};

#[test]
fn empty_wire_string_means_absent() {
    assert_eq!(optional_from_wire(Some(String::new())), None);
    assert_eq!(optional_from_wire(None), None);
    assert_eq!(optional_from_wire(Some("main".to_string())), Some("main".to_string()));
}

#[test]
fn absent_value_is_written_as_empty_string() {
    assert_eq!(optional_to_wire(&None), "");
    assert_eq!(optional_to_wire(&Some("x".to_string())), "x");
}

#[test]
fn v1_request_from_wire_normalizes_both_fields() {
    let req = V1SpecializeRequest::from_wire(Some(String::new()), Some("http://f".to_string()));
    assert_eq!(req.function_name, None);
    assert_eq!(req.url, Some("http://f".to_string()));
    let req = V1SpecializeRequest::from_wire(Some("handle".to_string()), None);
    assert_eq!(req.function_name, Some("handle".to_string()));
    assert_eq!(req.url, None);
}

#[test]
fn v1_request_wire_round_trip() {
    let req = V1SpecializeRequest::from_wire(Some("fn".to_string()), Some(String::new()));
    let (name, url) = req.to_wire();
    assert_eq!(name, "fn");
    assert_eq!(url, "");
    let back = V1SpecializeRequest::from_wire(Some(name), Some(url));
    assert_eq!(back.function_name, req.function_name);
    assert_eq!(back.url, req.url);
}

#[test]
fn v2_request_keeps_filepath_as_given() {
    let req = V2SpecializeRequest::from_wire(None, String::new(), None);
    assert_eq!(req.function_name, None);
    assert_eq!(req.filepath, "");
    assert_eq!(req.url, None);
}

#[test]
fn v2_request_wire_round_trip() {
    let req = V2SpecializeRequest::from_wire(
        Some("handle".to_string()),
        "/userfunc/lib.so".to_string(),
        Some("u".to_string()),
    );
    let (name, path, url) = req.to_wire();
    assert_eq!((name.as_str(), path.as_str(), url.as_str()), ("handle", "/userfunc/lib.so", "u"));
    let back = V2SpecializeRequest::from_wire(Some(name), path, Some(url));
    assert_eq!(back.function_name, req.function_name);
    assert_eq!(back.filepath, req.filepath);
    assert_eq!(back.url, req.url);
}
