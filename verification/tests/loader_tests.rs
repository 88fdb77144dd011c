use environment_server::config::{ServerConfig, DEFAULT_PORT};
use environment_server::loader::{
    default_function_name, load_target_v1, load_target_v2, FunctionLoaderV1, FunctionLoaderV2,
};
use environment_server::request::{V1SpecializeRequest, V2SpecializeRequest};

#[test]
fn default_function_name_is_handle() {
    assert_eq!(default_function_name(), "handle");
}

#[test]
fn v1_target_uses_code_path_and_default_name() {
    let req = V1SpecializeRequest::from_wire(None, None);
    let target = load_target_v1(req, "/userfunc/user");
    assert_eq!(target.path, "/userfunc/user");
    assert_eq!(target.function_name, "handle");
}

#[test]
fn v1_target_uses_requested_name() {
    let req = V1SpecializeRequest::from_wire(Some("main".to_string()), None);
    let target = load_target_v1(req, "/code");
    assert_eq!(target.function_name, "main");
    assert_eq!(target.path, "/code");
}

#[test]
fn v2_target_uses_filepath_of_request() {
    let req = V2SpecializeRequest::from_wire(Some(String::new()), "/srv/fn.wasm".to_string(), None);
    let target = load_target_v2(req);
    assert_eq!(target.path, "/srv/fn.wasm");
    assert_eq!(target.function_name, "handle");
}

#[test]
fn loaders_keep_what_they_were_built_with() {
    let l1 = FunctionLoaderV1::new(7u32, "/p".to_string());
    assert_eq!(*l1.function_loader(), 7);
    assert_eq!(l1.code_path(), "/p");
    let l2 = FunctionLoaderV2::new("loader");
    assert_eq!(*l2.function_loader(), "loader");
}

#[test]
fn server_config_defaults() {
    let config = ServerConfig::default();
    assert_eq!(config.port, 8888);
    assert_eq!(DEFAULT_PORT, 8888);
    assert_eq!(config.code_path, "/userfunc/user");
}
