//! Fetch nodes and the requests to run them.

use crate::json::Value;
use crate::path::Path;
use crate::request::Request;
use crate::rewrites::DataRewrite;
use vstd::prelude::*;

verus! {

/// The kind of an operation.
#[derive(Clone, Copy, Debug, PartialEq, Eq, Structural)]
pub enum OperationKind {
    Query,
    Mutation,
    Subscription,
}

/// The services of a fetch that a connector serves.
#[derive(Debug)]
pub struct RestFetchNode {
    /// The name under which the connector is reached.
    pub connector_service_name: String,
    /// The GraphQL service that the connector stands in for.
    pub parent_service_name: String,
}

/// How the service of a fetch node is spoken to.
#[derive(Debug)]
pub enum Protocol {
    /// The service takes GraphQL requests itself.
    GraphQl,
    /// A connector serves the fetch.
    RestFetch(RestFetchNode),
}

/// The description of the connector attached to a fetch node.
#[derive(Debug)]
pub struct ConnectNode {
    pub connector: String,
}

/// One step of a query plan: an operation to send to one service.
#[derive(Debug)]
pub struct FetchNode {
    /// The text of the operation.
    pub operation: String,
    pub operation_kind: OperationKind,
    pub operation_name: Option<String>,
    /// The service that the plan names.
    pub service_name: String,
    /// The required input paths: what of an entity the service needs to see.
    pub required: Vec<Path>,
    pub input_rewrites: Vec<DataRewrite>,
    pub context_rewrites: Vec<DataRewrite>,
    pub output_rewrites: Vec<DataRewrite>,
    /// The names of the variables that the operation uses.
    pub variable_usages: Vec<String>,
    /// The identity of the node, where a deferred part of the response waits
    /// for its result.
    pub id: Option<String>,
    pub protocol: Protocol,
    pub source_node: Option<ConnectNode>,
    /// The hash of the operation, which takes the schema into account.
    pub schema_aware_hash: String,
    /// What the operation requires of the caller's authorization.
    pub authorization: String,
}

impl FetchNode {
    /// The service that the response is attributed to and whose address is
    /// looked up: the parent service of a connector, or else the service
    /// that the plan names.
    pub open spec fn semantic_service(&self) -> String {
        match self.protocol {
            Protocol::RestFetch(node) => node.parent_service_name,
            Protocol::GraphQl => self.service_name,
        }
    }

    /// The service that the call is addressed to: the connector's own name,
    /// or else the service that the plan names.
    pub open spec fn transport_service(&self) -> String {
        match self.protocol {
            Protocol::RestFetch(node) => node.connector_service_name,
            Protocol::GraphQl => self.service_name,
        }
    }

    /// The semantic and the transport service of this node, in this order.
    pub fn service_names(&self) -> (res: (String, String))
        ensures
            res.0 == self.semantic_service(),
            res.1 == self.transport_service(),
    {
        match &self.protocol {
            Protocol::RestFetch(node) => (
                node.parent_service_name.clone(),
                node.connector_service_name.clone(),
            ),
            Protocol::GraphQl => (self.service_name.clone(), self.service_name.clone()),
        }
    }
}

/// A fetch that a connector serves is addressed to the connector under the
/// connector's own name, and attributed to the service that the connector
/// stands in for. Every other fetch is addressed and attributed to the
/// service that the plan names.
pub proof fn connector_is_addressed_parent_is_attributed(node: &FetchNode)
    ensures
        node.protocol matches Protocol::RestFetch(rest) ==> {
            &&& node.transport_service() == rest.connector_service_name
            &&& node.semantic_service() == rest.parent_service_name
        },
        node.protocol is GraphQl ==> {
            &&& node.transport_service() == node.service_name
            &&& node.semantic_service() == node.service_name
        },
{
}

/// The execution context of a request, which is handed on as it is.
#[derive(Clone, Copy, Debug, PartialEq, Eq, Structural)]
pub struct Context {
    pub id: u64,
}

/// A fetch node to run, with what running it needs.
#[derive(Debug)]
pub struct FetchRequest {
    pub fetch_node: FetchNode,
    /// The request of the client that the plan was made for.
    pub supergraph_request: Request,
    /// The identities of the fetch nodes whose result a deferred part of the
    /// response waits for.
    pub deferred_fetches: Vec<String>,
    /// The data gathered by the steps before this one.
    pub data: Value,
    /// Where in that data this step works.
    pub current_dir: Path,
    pub context: Context,
}

} // verus!
