use federated_fetch::json::Member;
use federated_fetch::json::Value;
use federated_fetch::path::Path;
use federated_fetch::path::PathElement;
use federated_fetch::request::Request;
use federated_fetch::rewrites::DataRewrite;
use federated_fetch::variables::bind;
use federated_fetch::variables::contextual_arguments_of;
use federated_fetch::variables::names_of_arguments;
use federated_fetch::variables::path_to_key;
use federated_fetch::variables::project;
use federated_fetch::variables::Variables;

fn key(name: &str) -> PathElement {
    PathElement::Key(name.to_string())
}

fn path(elements: Vec<PathElement>) -> Path {
    Path { elements }
}

fn text(value: &str) -> Value {
    Value::String(value.to_string())
}

fn object(members: Vec<(&str, Value)>) -> Value {
    Value::Object(
        members
            .into_iter()
            .map(|(key, value)| Member { key: key.to_string(), value })
            .collect(),
    )
}

fn show<T: std::fmt::Debug>(value: &T) -> String {
    format!("{:?}", value)
}

fn product(upc: &str, currency: &str) -> Value {
    object(vec![
        ("__typename", text("Product")),
        ("upc", text(upc)),
        ("price", object(vec![("currency", text(currency))])),
    ])
}

fn data() -> Value {
    object(vec![
        (
            "products",
            Value::Array(vec![product("1", "EUR"), Value::Null, product("2", "USD")]),
        ),
        ("top", product("3", "GBP")),
        ("nothing", Value::Null),
    ])
}

fn request() -> Request {
    Request {
        query: Some("query($first: Int) { products(first: $first) { upc } }".to_string()),
        operation_name: None,
        variables: object(vec![("first", Value::Number(2)), ("unused", Value::Bool(true))]),
    }
}

fn required() -> Vec<Path> {
    vec![path(vec![key("__typename")]), path(vec![key("upc")])]
}

fn names(list: &[&str]) -> Vec<String> {
    list.iter().map(|name| name.to_string()).collect()
}

fn representation(upc: &str) -> Value {
    object(vec![("__typename", text("Product")), ("upc", text(upc))])
}

#[test]
fn records_are_extracted_from_the_items_of_an_array() {
    let variables = Variables::new(
        &required(),
        &names(&["first", "absent"]),
        &data(),
        &path(vec![key("products")]),
        &request(),
        &vec![],
        &vec![],
    )
    .unwrap();
    let expected = object(vec![
        ("first", Value::Number(2)),
        ("representations", Value::Array(vec![representation("1"), representation("2")])),
    ]);
    assert_eq!(show(&variables.variables), show(&expected));
    assert_eq!(
        show(&variables.inverted_paths),
        show(&vec![
            path(vec![key("products"), PathElement::Index(0)]),
            path(vec![key("products"), PathElement::Index(2)]),
        ])
    );
    assert!(variables.contextual_arguments.is_none());
}

#[test]
fn a_single_value_is_its_own_candidate() {
    let variables = Variables::new(
        &required(),
        &vec![],
        &data(),
        &path(vec![key("top")]),
        &request(),
        &vec![],
        &vec![],
    )
    .unwrap();
    let expected = object(vec![("representations", Value::Array(vec![representation("3")]))]);
    assert_eq!(show(&variables.variables), show(&expected));
    assert_eq!(show(&variables.inverted_paths), show(&vec![path(vec![key("top")])]));
}

#[test]
fn no_matching_entity_resolves_to_nothing() {
    let missing = Variables::new(
        &required(),
        &names(&["first"]),
        &data(),
        &path(vec![key("reviews")]),
        &request(),
        &vec![],
        &vec![],
    );
    assert!(missing.is_none());
    let null = Variables::new(
        &required(),
        &names(&["first"]),
        &data(),
        &path(vec![key("nothing")]),
        &request(),
        &vec![],
        &vec![],
    );
    assert!(null.is_none());
    let other_fields = Variables::new(
        &vec![path(vec![key("sku")])],
        &names(&["first"]),
        &data(),
        &path(vec![key("products")]),
        &request(),
        &vec![],
        &vec![],
    );
    assert!(other_fields.is_none());
    let empty_list = Variables::new(
        &required(),
        &vec![],
        &object(vec![("products", Value::Array(vec![]))]),
        &path(vec![key("products")]),
        &request(),
        &vec![],
        &vec![],
    );
    assert!(empty_list.is_none());
}

#[test]
fn a_fetch_without_required_input_binds_the_used_variables() {
    let variables =
        Variables::new(&vec![], &names(&["first"]), &data(), &Path::empty(), &request(), &vec![], &vec![])
            .unwrap();
    assert_eq!(show(&variables.variables), show(&object(vec![("first", Value::Number(2))])));
    assert!(variables.inverted_paths.is_empty());
    assert!(variables.contextual_arguments.is_none());
    let below = Variables::new(
        &vec![],
        &names(&["first"]),
        &data(),
        &path(vec![key("top")]),
        &request(),
        &vec![],
        &vec![],
    );
    assert!(below.is_some());
}

#[test]
fn a_fetch_without_required_input_below_null_resolves_to_nothing() {
    let null = Variables::new(
        &vec![],
        &names(&["first"]),
        &data(),
        &path(vec![key("nothing")]),
        &request(),
        &vec![],
        &vec![],
    );
    assert!(null.is_none());
    let missing = Variables::new(
        &vec![],
        &names(&["first"]),
        &data(),
        &path(vec![key("reviews")]),
        &request(),
        &vec![],
        &vec![],
    );
    assert!(missing.is_none());
}

#[test]
fn input_rewrites_are_applied_to_each_record() {
    let rewrites = vec![DataRewrite::ValueSetter {
        path: path(vec![key("__typename")]),
        set_value_to: text("Item"),
    }];
    let variables = Variables::new(
        &required(),
        &vec![],
        &data(),
        &path(vec![key("top")]),
        &request(),
        &rewrites,
        &vec![],
    )
    .unwrap();
    let expected = object(vec![(
        "representations",
        Value::Array(vec![object(vec![("__typename", text("Item")), ("upc", text("3"))])]),
    )]);
    assert_eq!(show(&variables.variables), show(&expected));
}

#[test]
fn contextual_arguments_are_bound_for_each_record() {
    let context = vec![DataRewrite::KeyRenamer {
        path: path(vec![key("price"), key("currency")]),
        rename_key_to: "currency".to_string(),
    }];
    let variables = Variables::new(
        &required(),
        &names(&["first"]),
        &data(),
        &path(vec![key("products")]),
        &request(),
        &vec![],
        &context,
    )
    .unwrap();
    let expected = object(vec![
        ("first", Value::Number(2)),
        ("currency_0", text("EUR")),
        ("currency_1", text("USD")),
        ("representations", Value::Array(vec![representation("1"), representation("2")])),
    ]);
    assert_eq!(show(&variables.variables), show(&expected));
    let arguments = variables.contextual_arguments.unwrap();
    assert_eq!(arguments.arguments, names(&["currency"]));
    assert_eq!(arguments.count, 2);
}

#[test]
fn projection_follows_nested_required_paths() {
    let paths = vec![path(vec![key("price"), key("currency")]), path(vec![key("sku")])];
    let projected = project(&product("1", "EUR"), &paths);
    assert_eq!(
        show(&projected),
        show(&object(vec![("price", object(vec![("currency", text("EUR"))]))]))
    );
    assert_eq!(show(&project(&Value::Null, &paths)), show(&object(vec![])));
}

#[test]
fn context_takes_key_renamers_only() {
    let rules = vec![
        DataRewrite::KeyRenamer { path: path(vec![key("upc")]), rename_key_to: "code".to_string() },
        DataRewrite::ValueSetter { path: path(vec![key("upc")]), set_value_to: Value::Null },
        DataRewrite::KeyRenamer { path: path(vec![key("sku")]), rename_key_to: "sku".to_string() },
    ];
    assert_eq!(
        show(&contextual_arguments_of(&product("1", "EUR"), &rules)),
        show(&object(vec![("code", text("1"))]))
    );
    assert_eq!(names_of_arguments(&rules), names(&["code", "sku"]));
}

#[test]
fn bindings_keep_the_order_of_the_used_names() {
    let bound = bind(&names(&["unused", "absent", "first"]), &request().variables);
    assert_eq!(
        show(&bound),
        show(&object(vec![("unused", Value::Bool(true)), ("first", Value::Number(2))]))
    );
    assert_eq!(show(&path_to_key(&"a".to_string())), show(&path(vec![key("a")])));
}
