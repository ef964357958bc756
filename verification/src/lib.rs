//! Execution of one step of a federated query plan: structural validation of
//! operation trees against the schema they target, and the decisions taken
//! when a fetch node is dispatched to a backend service.

pub mod aliasing;
pub mod consistency;
pub mod decimal;
pub mod error;
pub mod fetch;
pub mod integrity;
pub mod json;
pub mod name_map;
pub mod operation;
pub mod outside;
pub mod path;
pub mod request;
pub mod response;
pub mod rewrites;
pub mod schema;
pub mod service;
pub mod variables;
