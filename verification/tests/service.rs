use apollo_compiler::validation::Valid;
use apollo_compiler::ExecutableDocument;
use federated_fetch::error::FetchError;
use federated_fetch::fetch::ConnectNode;
use federated_fetch::fetch::Context;
use federated_fetch::fetch::FetchNode;
use federated_fetch::fetch::FetchRequest;
use federated_fetch::fetch::OperationKind;
use federated_fetch::fetch::Protocol;
use federated_fetch::fetch::RestFetchNode;
use federated_fetch::json::Member;
use federated_fetch::json::Value;
use federated_fetch::name_map::NameMap;
use federated_fetch::path::Path;
use federated_fetch::path::PathElement;
use federated_fetch::request::Request;
use federated_fetch::response::record_deferred;
use federated_fetch::response::response_at_path;
use federated_fetch::response::FetchResponse;
use federated_fetch::response::Response;
use federated_fetch::rewrites::DataRewrite;
use federated_fetch::schema::FederationSchema;
use federated_fetch::schema::SchemaId;
use federated_fetch::variables::holds_name;
use federated_fetch::service::operation_text;
use federated_fetch::service::Connectors;
use federated_fetch::service::FetchCall;
use federated_fetch::service::FetchService;
use federated_fetch::service::FetchServiceFactory;
use federated_fetch::service::Method;
use federated_fetch::service::PendingFetch;
use federated_fetch::service::SubgraphSchemas;
use federated_fetch::service::SubscriptionConfig;
use federated_fetch::service::Supergraph;
use std::sync::Arc;

const RAW: &str =
    "query($representations: [_Any!]!) { _entities(representations: $representations) { ... on Product { name } } }";

const SUBGRAPH: &str = "
    scalar _Any
    type Product { upc: String name(currency: String): String }
    union _Entity = Product
    type Query { _entities(representations: [_Any!]!): [_Entity]! top: Product }
";

fn key(name: &str) -> PathElement {
    PathElement::Key(name.to_string())
}

fn path(elements: Vec<PathElement>) -> Path {
    Path { elements }
}

fn text(value: &str) -> Value {
    Value::String(value.to_string())
}

fn object(members: Vec<(&str, Value)>) -> Value {
    Value::Object(
        members
            .into_iter()
            .map(|(key, value)| Member { key: key.to_string(), value })
            .collect(),
    )
}

fn show<T: std::fmt::Debug>(value: &T) -> String {
    format!("{:?}", value)
}

fn product(upc: &str, currency: &str) -> Value {
    object(vec![
        ("__typename", text("Product")),
        ("upc", text(upc)),
        ("currency", text(currency)),
    ])
}

fn data() -> Value {
    object(vec![("products", Value::Array(vec![product("1", "EUR"), product("2", "USD")]))])
}

fn subgraph_schema() -> Valid<apollo_compiler::Schema> {
    apollo_compiler::Schema::parse_and_validate(SUBGRAPH, "products.graphql").unwrap()
}

fn service() -> FetchService {
    let mut urls = NameMap::new();
    urls.insert("products".to_string(), "http://products.example/graphql".to_string());
    urls.insert("reviews".to_string(), "http://reviews.example/graphql".to_string());
    let mut schemas: SubgraphSchemas = NameMap::new();
    schemas.insert("products".to_string(), Arc::new(subgraph_schema()));
    let mut connectors = NameMap::new();
    connectors.insert("products".to_string(), ConnectNode { connector: "products.rest".to_string() });
    FetchServiceFactory::new(
        Arc::new(Supergraph { schema: FederationSchema::new(SchemaId(1)), subgraph_urls: urls }),
        Arc::new(schemas),
        Some(SubscriptionConfig { enabled: true }),
        Arc::new(Connectors { by_service_name: connectors }),
    )
    .create()
}

fn node(service_name: &str) -> FetchNode {
    FetchNode {
        operation: RAW.to_string(),
        operation_kind: OperationKind::Query,
        operation_name: Some("Products".to_string()),
        service_name: service_name.to_string(),
        required: vec![path(vec![key("__typename")]), path(vec![key("upc")])],
        input_rewrites: vec![],
        context_rewrites: vec![],
        output_rewrites: vec![],
        variable_usages: vec!["first".to_string()],
        id: None,
        protocol: Protocol::GraphQl,
        source_node: None,
        schema_aware_hash: "9f2c".to_string(),
        authorization: "scope:read".to_string(),
    }
}

fn request(fetch_node: FetchNode, data: Value, current_dir: Path) -> FetchRequest {
    FetchRequest {
        fetch_node,
        supergraph_request: Request {
            query: Some("query($first: Int) { products(first: $first) { name } }".to_string()),
            operation_name: None,
            variables: object(vec![("first", Value::Number(2))]),
        },
        deferred_fetches: vec![],
        data,
        current_dir,
        context: Context { id: 41 },
    }
}

fn products_request(fetch_node: FetchNode) -> FetchRequest {
    request(fetch_node, data(), path(vec![key("products")]))
}

fn pending(call: Result<FetchCall, FetchError>) -> PendingFetch {
    match call {
        Ok(FetchCall::Fetch(pending)) => pending,
        Ok(FetchCall::Done(response)) => panic!("nothing to send: {:?}", response),
        Err(error) => panic!("the call failed: {:?}", error),
    }
}

fn entities(names: &[&str]) -> Response {
    Response {
        data: Some(object(vec![(
            "_entities",
            Value::Array(names.iter().map(|name| object(vec![("name", text(name))])).collect()),
        )])),
    }
}

#[test]
fn the_dispatcher_is_always_ready() {
    assert!(service().poll_ready());
}

#[test]
fn nothing_to_fetch_is_an_empty_response_and_nothing_is_sent() {
    let request = request(node("products"), data(), path(vec![key("reviews")]));
    match service().call(&request) {
        Ok(FetchCall::Done(response)) => {
            assert_eq!(show(&response.value), show(&Value::empty_object()));
            assert!(response.deferred.is_empty());
        }
        other => panic!("unexpected step {:?}", other.is_ok()),
    }
}

#[test]
fn nothing_to_fetch_needs_no_address() {
    let request = request(node("unknown"), data(), path(vec![key("reviews")]));
    assert!(matches!(service().call(&request), Ok(FetchCall::Done(_))));
}

#[test]
fn a_service_without_address_fails_the_call() {
    match service().call(&products_request(node("unknown"))) {
        Err(FetchError::MissingServiceAddress { service }) => assert_eq!(service, "unknown"),
        other => panic!("unexpected step {:?}", other.is_ok()),
    }
}

#[test]
fn a_fetch_names_its_service_and_address() {
    let request = products_request(node("products"));
    let pending = pending(service().call(&request));
    assert_eq!(pending.service_name, "products");
    assert_eq!(pending.subgraph_service_name, "products");
    assert_eq!(pending.uri, "http://products.example/graphql");
    assert!(pending.subgraph_schema.is_none());
    assert_eq!(pending.variables.inverted_paths.len(), 2);
}

#[test]
fn a_connector_is_addressed_by_its_own_name_and_attributed_to_its_parent() {
    let mut fetch_node = node("products.rest");
    fetch_node.protocol = Protocol::RestFetch(RestFetchNode {
        connector_service_name: "products.rest".to_string(),
        parent_service_name: "products".to_string(),
    });
    let names = fetch_node.service_names();
    assert_eq!(names, ("products".to_string(), "products.rest".to_string()));
    let request = products_request(fetch_node);
    let pending = pending(service().call(&request));
    assert_eq!(pending.subgraph_service_name, "products.rest");
    assert_eq!(pending.service_name, "products");
    assert_eq!(pending.uri, "http://products.example/graphql");
    let sent = pending.subgraph_request(&request, None);
    assert_eq!(sent.service_name, "products");
    assert_eq!(sent.context, Context { id: 41 });
    assert_eq!(sent.uri, "http://products.example/graphql");
}

#[test]
fn the_request_carries_what_the_fetch_node_and_the_variables_give() {
    let request = products_request(node("products"));
    let pending = pending(service().call(&request));
    let sent = pending.subgraph_request(&request, None);
    assert_eq!(sent.method, Method::Post);
    assert_eq!(sent.uri, "http://products.example/graphql");
    assert_eq!(sent.body.query.as_deref(), Some(RAW));
    assert_eq!(sent.body.operation_name.as_deref(), Some("Products"));
    assert_eq!(show(&sent.body.variables), show(&pending.variables.variables));
    assert_eq!(sent.context, Context { id: 41 });
    assert_eq!(sent.service_name, "products");
    assert_eq!(sent.operation_kind, OperationKind::Query);
    assert_eq!(sent.query_hash, "9f2c");
    assert_eq!(sent.authorization, "scope:read");
    let other = pending.request_with_text(&request, "{ top { name } }".to_string());
    assert_eq!(other.body.query.as_deref(), Some("{ top { name } }"));
    assert_eq!(other.method, Method::Post);
}

fn contextual_node() -> FetchNode {
    let mut fetch_node = node("products");
    fetch_node.context_rewrites = vec![DataRewrite::KeyRenamer {
        path: path(vec![key("currency")]),
        rename_key_to: "currency".to_string(),
    }];
    fetch_node
}

fn aliased_document() -> Valid<ExecutableDocument> {
    ExecutableDocument::parse_and_validate(
        &subgraph_schema(),
        "query($representations: [_Any!]!, $currency_0: String, $currency_1: String) {
            _0: _entities(representations: $representations) { ... on Product { name(currency: $currency_0) } }
            _1: _entities(representations: $representations) { ... on Product { name(currency: $currency_1) } }
        }",
        "aliased.graphql",
    )
    .unwrap()
}

#[test]
fn an_aliased_operation_is_sent_in_place_of_the_raw_one() {
    let request = products_request(contextual_node());
    let pending = pending(service().call(&request));
    assert!(pending.subgraph_schema.is_some());
    let arguments = pending.variables.contextual_arguments.as_ref().unwrap();
    assert_eq!(arguments.count, 2);
    assert_eq!(arguments.arguments, vec!["currency".to_string()]);
    let document = aliased_document();
    let sent = pending.subgraph_request(&request, Some(&document));
    let query = sent.body.query.unwrap();
    assert_ne!(query, RAW);
    assert_eq!(
        query,
        "query($representations: [_Any!]!, $currency_0: String, $currency_1: String) { \
         _0: _entities(representations: $representations) { ... on Product { name(currency: $currency_0) } } \
         _1: _entities(representations: $representations) { ... on Product { name(currency: $currency_1) } } }"
    );
    assert_eq!(query.matches("_entities(").count(), arguments.count);
    assert!(query.contains("_0: _entities("));
    assert!(query.contains("_1: _entities("));
    assert!(!query.contains('\n'));
}

#[test]
fn the_raw_operation_is_sent_where_no_aliased_one_was_built() {
    let request = products_request(contextual_node());
    let pending = pending(service().call(&request));
    let sent = pending.subgraph_request(&request, None);
    assert_eq!(sent.body.query.as_deref(), Some(RAW));
}

#[test]
fn the_raw_operation_is_sent_where_no_aliased_one_is_wanted() {
    let request = products_request(node("products"));
    let pending = pending(service().call(&request));
    let document = aliased_document();
    let sent = pending.subgraph_request(&request, Some(&document));
    assert_eq!(sent.body.query.as_deref(), Some(RAW));
}

#[test]
fn no_schema_of_the_service_means_no_aliased_operation() {
    let mut fetch_node = contextual_node();
    fetch_node.service_name = "reviews".to_string();
    let request = products_request(fetch_node);
    let pending = pending(service().call(&request));
    assert!(pending.variables.contextual_arguments.is_some());
    assert!(pending.subgraph_schema.is_none());
}

#[test]
fn operation_text_prefers_the_aliased_text() {
    let raw = RAW.to_string();
    assert_eq!(operation_text(&raw, None), RAW);
    assert_eq!(operation_text(&raw, Some("{ a }".to_string())), "{ a }");
}

#[test]
fn merging_at_the_inverted_paths_gives_the_expected_document() {
    let mut fetch_node = node("products");
    fetch_node.output_rewrites = vec![DataRewrite::KeyRenamer {
        path: path(vec![key("name")]),
        rename_key_to: "title".to_string(),
    }];
    let request = products_request(fetch_node);
    let pending = pending(service().call(&request));
    let response = pending.respond::<String>(&request, Ok(entities(&["Table", "Chair"]))).unwrap();
    let expected = object(vec![(
        "products",
        Value::Array(vec![
            object(vec![("title", text("Table"))]),
            object(vec![("title", text("Chair"))]),
        ]),
    )]);
    assert_eq!(show(&response.value), show(&expected));
    assert!(response.deferred.is_empty());
}

#[test]
fn an_entity_without_a_path_is_left_out() {
    let request = products_request(node("products"));
    let pending = pending(service().call(&request));
    let response = pending.respond::<String>(&request, Ok(entities(&["Table", "Chair", "Lamp"]))).unwrap();
    let expected = object(vec![(
        "products",
        Value::Array(vec![object(vec![("name", text("Table"))]), object(vec![("name", text("Chair"))])]),
    )]);
    assert_eq!(show(&response.value), show(&expected));
}

#[test]
fn a_response_without_entities_contributes_null() {
    let request = products_request(node("products"));
    let pending = pending(service().call(&request));
    let none = pending.respond::<String>(&request, Ok(Response { data: None })).unwrap();
    assert!(none.value.is_null());
    let other = Response { data: Some(object(vec![("_entities", text("none"))])) };
    assert!(pending.respond::<String>(&request, Ok(other)).unwrap().value.is_null());
    let plain = Response { data: Some(text("plain")) };
    assert!(pending.respond::<String>(&request, Ok(plain)).unwrap().value.is_null());
}

#[test]
fn a_fetch_without_required_input_puts_the_data_at_the_current_path() {
    let mut fetch_node = node("products");
    fetch_node.required = vec![];
    let request = request(fetch_node, data(), path(vec![key("products"), PathElement::Index(1)]));
    let pending = pending(service().call(&request));
    let reply = Response { data: Some(object(vec![("name", text("Chair"))])) };
    let response = pending.respond::<String>(&request, Ok(reply)).unwrap();
    let expected = object(vec![(
        "products",
        Value::Array(vec![Value::Null, object(vec![("name", text("Chair"))])]),
    )]);
    assert_eq!(show(&response.value), show(&expected));
    let empty = pending.respond::<String>(&request, Ok(Response { data: None })).unwrap();
    assert_eq!(
        show(&empty.value),
        show(&object(vec![("products", Value::Array(vec![Value::Null, Value::Null]))]))
    );
}

#[test]
fn a_transport_failure_is_handed_on() {
    let request = products_request(node("products"));
    let pending = pending(service().call(&request));
    match pending.respond(&request, Err("connection refused".to_string())) {
        Err(error) => assert_eq!(error, "connection refused"),
        Ok(response) => panic!("unexpected response {:?}", response),
    }
}

#[test]
fn a_deferred_fetch_is_recorded_under_the_identity_of_its_node() {
    let mut fetch_node = node("products");
    fetch_node.id = Some("fetch-7".to_string());
    let mut request = products_request(fetch_node);
    request.deferred_fetches = vec!["fetch-3".to_string(), "fetch-7".to_string()];
    let pending = pending(service().call(&request));
    let response = pending.respond::<String>(&request, Ok(entities(&["Table", "Chair"]))).unwrap();
    assert_eq!(response.deferred.len(), 1);
    assert_eq!(response.deferred[0].id, "fetch-7");
    assert_eq!(show(&response.deferred[0].value), show(&response.value));
}

#[test]
fn nothing_is_recorded_for_a_node_that_nobody_waits_for() {
    let value = text("v");
    let registry = vec!["fetch-3".to_string()];
    assert!(record_deferred(&Some("fetch-7".to_string()), &registry, &value).is_empty());
    assert!(record_deferred(&None, &registry, &value).is_empty());
    assert_eq!(record_deferred(&Some("fetch-3".to_string()), &registry, &value).len(), 1);
    assert!(holds_name(&registry, &"fetch-3".to_string()));
    assert!(!holds_name(&registry, &"fetch".to_string()));
}

#[test]
fn response_at_path_merges_without_a_pending_fetch() {
    let paths = vec![path(vec![key("a")]), path(vec![key("b")])];
    let merged = response_at_path(
        &Path::empty(),
        &paths,
        &entities(&["x", "y"]),
        &vec![path(vec![key("id")])],
        &vec![],
    );
    let expected = object(vec![
        ("a", object(vec![("name", text("x"))])),
        ("b", object(vec![("name", text("y"))])),
    ]);
    assert_eq!(show(&merged), show(&expected));
}

#[test]
fn the_connector_of_the_fetch_node_is_run_first() {
    let mut fetch_node = node("products");
    fetch_node.source_node = Some(ConnectNode { connector: "products.rest".to_string() });
    let request = products_request(fetch_node);
    let pending = pending(service().call(&request));
    assert_eq!(
        pending.preprocessing(&request).map(|node| node.connector.as_str()),
        Some("products.rest")
    );
    let plain = products_request(node("products"));
    assert!(pending.preprocessing(&plain).is_none());
}

#[test]
fn calls_on_one_configuration_do_not_touch_each_other() {
    let factory = FetchServiceFactory::new(
        service().schema,
        service().subgraph_schemas,
        None,
        service().connectors,
    );
    let dispatchers: Vec<FetchService> = (0..4).map(|_| factory.create()).collect();
    let requests: Vec<FetchRequest> = (0..4)
        .map(|index| {
            let upc = index.to_string();
            request(
                node("products"),
                object(vec![("products", Value::Array(vec![product(&upc, "EUR")]))]),
                path(vec![key("products")]),
            )
        })
        .collect();
    let pendings: Vec<PendingFetch> = requests
        .iter()
        .zip(dispatchers.iter())
        .map(|(request, dispatcher)| pending(dispatcher.call(request)))
        .collect();
    let responses: Vec<FetchResponse> = (0..4)
        .rev()
        .map(|index| {
            let name = format!("name-{}", index);
            pendings[index].respond::<String>(&requests[index], Ok(entities(&[&name]))).unwrap()
        })
        .collect();
    for (position, response) in responses.iter().enumerate() {
        let index = 3 - position;
        let expected = object(vec![(
            "products",
            Value::Array(vec![object(vec![("name", text(&format!("name-{}", index)))])]),
        )]);
        assert_eq!(show(&response.value), show(&expected));
        let sent = pendings[index].subgraph_request(&requests[index], None);
        let record = object(vec![("__typename", text("Product")), ("upc", text(&index.to_string()))]);
        let variables = object(vec![
            ("first", Value::Number(2)),
            ("representations", Value::Array(vec![record])),
        ]);
        assert_eq!(show(&sent.body.variables), show(&variables));
    }
}

#[test]
fn a_factory_makes_dispatchers_with_its_configuration() {
    let first = service();
    let factory = FetchServiceFactory::new(
        first.schema.clone(),
        first.subgraph_schemas.clone(),
        Some(SubscriptionConfig { enabled: false }),
        first.connectors.clone(),
    );
    let made = factory.create();
    assert!(Arc::ptr_eq(&made.schema, &first.schema));
    assert!(Arc::ptr_eq(&made.subgraph_schemas, &first.subgraph_schemas));
    assert!(Arc::ptr_eq(&made.connectors, &first.connectors));
    assert_eq!(made.subscription_config, Some(SubscriptionConfig { enabled: false }));
    assert!(made.schema.subgraph_urls.contains(&"reviews".to_string()));
}
