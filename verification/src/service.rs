//! The dispatcher of fetch requests and the factory that makes dispatchers.
//!
//! A dispatcher keeps nothing between calls. Running a fetch takes three
//! steps of the library, between which the caller does what only it can do:
//! `FetchService::call` resolves the variables and the services;
//! `PendingFetch::subgraph_request` builds the request to send; and
//! `PendingFetch::respond` merges what came back.

use crate::error::FetchError;
use crate::fetch::ConnectNode;
use crate::fetch::Context;
use crate::fetch::FetchRequest;
use crate::fetch::OperationKind;
use crate::json::Json;
use crate::name_map::NameMap;
use crate::outside::serialize_operation;
use crate::outside::share;
use crate::path::Segment;
use crate::request::Request;
use crate::response::deferred_records;
use crate::response::entities_key;
use crate::response::merged_entities_are_found;
use crate::response::record_deferred;
use crate::response::response_at_path;
use crate::response::response_value;
use crate::response::FetchResponse;
use crate::response::FetchResponseModel;
use crate::response::Response;
use crate::rewrites::rules_view;
use crate::rewrites::Rewrite;
use crate::schema::FederationSchema;
use crate::variables::candidates;
use crate::variables::candidates_lie_apart;
use crate::variables::extracted_paths_part;
use crate::variables::names_view;
use crate::variables::paths_view;
use crate::variables::resolved;
use crate::variables::Variables;
use crate::variables::VariablesModel;
use apollo_compiler::validation::Valid;
use apollo_compiler::ExecutableDocument;
use std::sync::Arc;
use vstd::prelude::*;

verus! {

/// The schema that clients see, with the address of each service.
#[derive(Debug)]
pub struct Supergraph {
    pub schema: FederationSchema,
    pub subgraph_urls: NameMap<String>,
}

/// The schema of each service, by the service's name.
pub type SubgraphSchemas = NameMap<Arc<Valid<apollo_compiler::Schema>>>;

/// How subscriptions are served.
#[derive(Clone, Copy, Debug, PartialEq, Eq, Structural)]
pub struct SubscriptionConfig {
    pub enabled: bool,
}

/// The connectors that are known, by the name of the service they serve.
#[derive(Debug)]
pub struct Connectors {
    pub by_service_name: NameMap<ConnectNode>,
}

/// The method of an outbound request.
#[derive(Clone, Copy, Debug, PartialEq, Eq, Structural)]
pub enum Method {
    Get,
    Post,
}

/// A request to a service, ready to be sent.
#[derive(Debug)]
pub struct SubgraphRequest {
    pub method: Method,
    pub uri: String,
    pub body: Request,
    pub context: Context,
    /// The service that the response is attributed to.
    pub service_name: String,
    pub operation_kind: OperationKind,
    pub query_hash: String,
    pub authorization: String,
}

/// A fetch that has something to send: what `FetchService::call` resolved.
#[derive(Debug)]
pub struct PendingFetch {
    pub variables: Variables,
    /// The service that the response is attributed to.
    pub service_name: String,
    /// The service whose transport carries the call.
    pub subgraph_service_name: String,
    /// The address of the service.
    pub uri: String,
    /// The schema to build an aliased operation against, where one is to be
    /// built.
    pub subgraph_schema: Option<Arc<Valid<apollo_compiler::Schema>>>,
}

/// What to do for a fetch request.
#[derive(Debug)]
pub enum FetchCall {
    /// Nothing is to be sent: this is the response.
    Done(FetchResponse),
    /// A request is to be sent.
    Fetch(PendingFetch),
}

/// The variables that `request` resolves to.
pub open spec fn resolution(request: &FetchRequest) -> Option<VariablesModel> {
    resolved(
        paths_view(request.fetch_node.required@),
        names_view(request.fetch_node.variable_usages@),
        request.data@,
        request.current_dir@,
        request.supergraph_request.variables@,
        rules_view(request.fetch_node.input_rewrites@),
        rules_view(request.fetch_node.context_rewrites@),
    )
}

/// What a service returns for the records is merged where the records came
/// from: for a fetch that requires input, each returned entity that has an
/// inverted path is found in the merged value, after the output rewrites, at
/// the path that its record was extracted from.
pub proof fn entities_return_to_where_the_records_were(
    required: Seq<Seq<Segment>>,
    usages: Seq<Seq<char>>,
    data: Json,
    dir: Seq<Segment>,
    request_variables: Json,
    input_rewrites: Seq<Rewrite>,
    context_rewrites: Seq<Rewrite>,
    output_rewrites: Seq<Rewrite>,
    returned: Json,
    index: int,
)
    requires
        required.len() > 0,
        resolved(
            required,
            usages,
            data,
            dir,
            request_variables,
            input_rewrites,
            context_rewrites,
        ) is Some,
        returned.child(Segment::Key(entities_key())) is Some,
        returned.child(Segment::Key(entities_key()))->0 is Array,
        0 <= index < returned.child(Segment::Key(entities_key()))->0.items().len(),
        index < resolved(
            required,
            usages,
            data,
            dir,
            request_variables,
            input_rewrites,
            context_rewrites,
        )->0.inverted_paths.len(),
    ensures
        ({
            let paths = resolved(
                required,
                usages,
                data,
                dir,
                request_variables,
                input_rewrites,
                context_rewrites,
            )->0.inverted_paths;
            let entities = returned.child(Segment::Key(entities_key()))->0.items();
            response_value(required, dir, paths, Some(returned), output_rewrites).at(paths[index])
                == Some(entities[index].rewritten_all(output_rewrites))
        }),
{
    let found = candidates(data, dir);
    candidates_lie_apart(data, dir);
    extracted_paths_part(found, required, input_rewrites, context_rewrites);
    let paths = resolved(
        required,
        usages,
        data,
        dir,
        request_variables,
        input_rewrites,
        context_rewrites,
    )->0.inverted_paths;
    let entities = returned.child(Segment::Key(entities_key()))->0.items();
    merged_entities_are_found(entities, paths, output_rewrites, index);
}

/// The text to send: the aliased operation where there is one, else the
/// operation as the plan has it.
pub open spec fn chosen_text(raw: Seq<char>, aliased: Option<Seq<char>>) -> Seq<char> {
    match aliased {
        Some(text) => text,
        None => raw,
    }
}

/// Computes `chosen_text`.
pub fn operation_text(raw: &String, aliased: Option<String>) -> (res: String)
    ensures
        res@ == chosen_text(
            raw@,
            match aliased {
                Some(text) => Some(text@),
                None => None,
            },
        ),
{
    match aliased {
        Some(text) => text,
        None => raw.clone(),
    }
}

/// A dispatcher of fetch requests.
#[derive(Debug)]
pub struct FetchService {
    pub schema: Arc<Supergraph>,
    pub subgraph_schemas: Arc<SubgraphSchemas>,
    pub subscription_config: Option<SubscriptionConfig>,
    pub connectors: Arc<Connectors>,
}

impl FetchService {
    /// Whether the dispatcher is ready to take a call: it always is.
    pub fn poll_ready(&self) -> (ready: bool)
        ensures
            ready,
    {
        true
    }

    /// Takes a fetch request up to the point where something is to be sent.
    ///
    /// Where the variables resolve to nothing, the fetch is done: the
    /// response is an object without members, with no deferred-fetch record,
    /// and nothing is to be sent. Otherwise the semantic service of the node
    /// must have an address, or the call fails. The pending fetch names both
    /// services and the address, and carries the schema of the semantic
    /// service where the variables have contextual arguments and that schema
    /// is known.
    pub fn call(&self, request: &FetchRequest) -> (res: Result<FetchCall, FetchError>)
        ensures
            match res {
                Ok(FetchCall::Done(response)) => {
                    &&& resolution(request) is None
                    &&& response@ == FetchResponseModel::nothing()
                },
                Ok(FetchCall::Fetch(pending)) => {
                    let semantic = request.fetch_node.semantic_service();
                    &&& resolution(request) == Some(pending.variables@)
                    &&& pending.service_name == semantic
                    &&& pending.subgraph_service_name == request.fetch_node.transport_service()
                    &&& self.schema.subgraph_urls@.contains_key(semantic@)
                    &&& pending.uri == self.schema.subgraph_urls@[semantic@]
                    &&& pending.subgraph_schema == (if pending.variables.contextual_arguments
                        is Some {
                        self.subgraph_schemas@.get(semantic@)
                    } else {
                        None
                    })
                },
                Err(FetchError::MissingServiceAddress { service }) => {
                    &&& resolution(request) is Some
                    &&& service == request.fetch_node.semantic_service()
                    &&& !self.schema.subgraph_urls@.contains_key(service@)
                },
            },
    {
        let node = &request.fetch_node;
        let variables = match Variables::new(
            &node.required,
            &node.variable_usages,
            &request.data,
            &request.current_dir,
            &request.supergraph_request,
            &node.input_rewrites,
            &node.context_rewrites,
        ) {
            Some(variables) => variables,
            None => {
                return Ok(FetchCall::Done(FetchResponse::nothing()));
            },
        };
        let (service_name, subgraph_service_name) = node.service_names();
        let uri = match self.schema.subgraph_urls.get(&service_name) {
            Some(uri) => uri.clone(),
            None => {
                return Err(FetchError::MissingServiceAddress { service: service_name });
            },
        };
        let subgraph_schema = if variables.contextual_arguments.is_some() {
            match self.subgraph_schemas.get(&service_name) {
                Some(schema) => Some(share(schema)),
                None => None,
            }
        } else {
            None
        };
        Ok(
            FetchCall::Fetch(
                PendingFetch { variables, service_name, subgraph_service_name, uri, subgraph_schema },
            ),
        )
    }
}

impl PendingFetch {
    /// Whether an aliased operation is to be built: the variables have
    /// contextual arguments and the schema to build against is known.
    pub open spec fn wants_alias(&self) -> bool {
        self.subgraph_schema is Some
    }

    /// The connector to run before the request is sent, if the fetch node has
    /// one. What running it yields is not used: the fetch goes on whatever
    /// the connector did.
    pub fn preprocessing<'a>(&self, request: &'a FetchRequest) -> (res: Option<&'a ConnectNode>)
        ensures
            match res {
                Some(node) => request.fetch_node.source_node == Some(*node),
                None => request.fetch_node.source_node is None,
            },
    {
        match &request.fetch_node.source_node {
            Some(node) => Some(node),
            None => None,
        }
    }

    /// The request to send with `query` as the text of the operation: a POST
    /// to the address of the service, with the name of the operation and the
    /// resolved variables in its body, and with the context of the fetch
    /// request, the semantic service, and the kind, hash and authorization of
    /// the fetch node.
    pub fn request_with_text(&self, request: &FetchRequest, query: String) -> (res: SubgraphRequest)
        ensures
            res.method == Method::Post,
            res.uri == self.uri,
            res.body.query == Some(query),
            res.body.operation_name == request.fetch_node.operation_name,
            res.body.variables@ == self.variables.variables@,
            res.context == request.context,
            res.service_name == self.service_name,
            res.operation_kind == request.fetch_node.operation_kind,
            res.query_hash == request.fetch_node.schema_aware_hash,
            res.authorization == request.fetch_node.authorization,
    {
        let node = &request.fetch_node;
        let operation_name = match &node.operation_name {
            Some(name) => Some(name.clone()),
            None => None,
        };
        SubgraphRequest {
            method: Method::Post,
            uri: self.uri.clone(),
            body: Request {
                query: Some(query),
                operation_name,
                variables: self.variables.variables.clone(),
            },
            context: request.context,
            service_name: self.service_name.clone(),
            operation_kind: node.operation_kind,
            query_hash: node.schema_aware_hash.clone(),
            authorization: node.authorization.clone(),
        }
    }

    /// The request to send. `aliased` is the aliased operation, where one was
    /// to be built and building it succeeded; its text is then sent. In every
    /// other case the text of the operation is sent as the plan has it: a
    /// failure to build the aliased operation is no failure of the fetch.
    pub fn subgraph_request(
        &self,
        request: &FetchRequest,
        aliased: Option<&Valid<ExecutableDocument>>,
    ) -> (res: SubgraphRequest)
        ensures
            res.method == Method::Post,
            res.uri == self.uri,
            res.body.query is Some,
            !self.wants_alias() || aliased is None ==> res.body.query->0@
                == request.fetch_node.operation@,
            res.body.operation_name == request.fetch_node.operation_name,
            res.body.variables@ == self.variables.variables@,
            res.context == request.context,
            res.service_name == self.service_name,
            res.operation_kind == request.fetch_node.operation_kind,
            res.query_hash == request.fetch_node.schema_aware_hash,
            res.authorization == request.fetch_node.authorization,
    {
        let text = match aliased {
            Some(document) => {
                if self.subgraph_schema.is_some() {
                    Some(serialize_operation(document))
                } else {
                    None
                }
            },
            None => None,
        };
        self.request_with_text(request, operation_text(&request.fetch_node.operation, text))
    }

    /// What the fetch yields, given what the transport returned. A failure of
    /// the transport, whatever it is, is handed on as it is. A response is
    /// merged at the inverted paths, after the output rewrites, and recorded
    /// for the deferred part of the response that waits for this fetch node.
    pub fn respond<E>(&self, request: &FetchRequest, reply: Result<Response, E>) -> (res: Result<
        FetchResponse,
        E,
    >)
        ensures
            match reply {
                Err(failure) => res == Err::<FetchResponse, E>(failure),
                Ok(response) => {
                    &&& res is Ok
                    &&& res->Ok_0@.value == response_value(
                        paths_view(request.fetch_node.required@),
                        request.current_dir@,
                        self.variables@.inverted_paths,
                        match response.data {
                            Some(data) => Some(data@),
                            None => None,
                        },
                        rules_view(request.fetch_node.output_rewrites@),
                    )
                    &&& res->Ok_0@.deferred == deferred_records(
                        match request.fetch_node.id {
                            Some(id) => Some(id@),
                            None => None,
                        },
                        names_view(request.deferred_fetches@),
                        res->Ok_0@.value,
                    )
                },
            },
    {
        match reply {
            Err(failure) => Err(failure),
            Ok(response) => {
                let node = &request.fetch_node;
                let value = response_at_path(
                    &request.current_dir,
                    &self.variables.inverted_paths,
                    &response,
                    &node.required,
                    &node.output_rewrites,
                );
                let deferred = record_deferred(&node.id, &request.deferred_fetches, &value);
                Ok(FetchResponse { value, deferred })
            },
        }
    }
}

/// Makes dispatchers that share one configuration.
#[derive(Debug)]
pub struct FetchServiceFactory {
    pub schema: Arc<Supergraph>,
    pub subgraph_schemas: Arc<SubgraphSchemas>,
    pub subscription_config: Option<SubscriptionConfig>,
    pub connectors: Arc<Connectors>,
}

impl FetchServiceFactory {
    /// A factory bound to the given configuration.
    pub fn new(
        schema: Arc<Supergraph>,
        subgraph_schemas: Arc<SubgraphSchemas>,
        subscription_config: Option<SubscriptionConfig>,
        connectors: Arc<Connectors>,
    ) -> (res: Self)
        ensures
            res.schema == schema,
            res.subgraph_schemas == subgraph_schemas,
            res.subscription_config == subscription_config,
            res.connectors == connectors,
    {
        FetchServiceFactory { schema, subgraph_schemas, subscription_config, connectors }
    }

    /// A dispatcher with the configuration of this factory.
    pub fn create(&self) -> (res: FetchService)
        ensures
            res.schema == self.schema,
            res.subgraph_schemas == self.subgraph_schemas,
            res.subscription_config == self.subscription_config,
            res.connectors == self.connectors,
    {
        FetchService {
            schema: share(&self.schema),
            subgraph_schemas: share(&self.subgraph_schemas),
            subscription_config: self.subscription_config,
            connectors: share(&self.connectors),
        }
    }
}

} // verus!
