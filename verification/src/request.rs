//! Requests in the shape that a GraphQL service takes.

use crate::json::Value;
use vstd::prelude::*;

verus! {

/// The body of a request: the text of the operation, the name of the
/// operation to run, and the variables, an object.
#[derive(Debug)]
pub struct Request {
    pub query: Option<String>,
    pub operation_name: Option<String>,
    pub variables: Value,
}

} // verus!
