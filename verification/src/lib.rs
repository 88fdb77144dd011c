//! Decision logic of a function-as-a-service environment server: the
//! specialization requests it accepts, the state of the loaded user function,
//! the routing of incoming requests and the responses it answers with.

pub mod config;
pub mod request;
pub mod loader;
pub mod manager;
pub mod response;
pub mod routing;
pub mod protocol;
pub mod environment;
