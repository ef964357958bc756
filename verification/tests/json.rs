use federated_fetch::decimal::decimal;
use federated_fetch::decimal::with_index;
use federated_fetch::json::find_member;
use federated_fetch::json::Member;
use federated_fetch::json::Value;
use federated_fetch::path::Path;
use federated_fetch::path::PathElement;
use federated_fetch::rewrites::DataRewrite;

fn key(name: &str) -> PathElement {
    PathElement::Key(name.to_string())
}

fn path(elements: Vec<PathElement>) -> Path {
    Path { elements }
}

fn text(value: &str) -> Value {
    Value::String(value.to_string())
}

fn object(members: Vec<(&str, Value)>) -> Value {
    Value::Object(
        members
            .into_iter()
            .map(|(key, value)| Member { key: key.to_string(), value })
            .collect(),
    )
}

fn show(value: &Value) -> String {
    format!("{:?}", value)
}

fn sample() -> Value {
    object(vec![
        ("me", object(vec![("id", Value::Number(7)), ("name", text("Ada"))])),
        ("list", Value::Array(vec![Value::Bool(true), Value::Null, text("x")])),
    ])
}

#[test]
fn get_path_follows_keys_and_indices() {
    let value = sample();
    let name = value.get_path(&path(vec![key("me"), key("name")]));
    assert_eq!(name.map(show), Some(show(&text("Ada"))));
    let item = value.get_path(&path(vec![key("list"), PathElement::Index(2)]));
    assert_eq!(item.map(show), Some(show(&text("x"))));
    assert_eq!(value.get_path(&Path::empty()).map(show), Some(show(&sample())));
}

#[test]
fn get_path_finds_nothing_where_a_step_is_missing() {
    let value = sample();
    assert!(value.get_path(&path(vec![key("you")])).is_none());
    assert!(value.get_path(&path(vec![key("list"), PathElement::Index(3)])).is_none());
    assert!(value.get_path(&path(vec![key("list"), key("me")])).is_none());
    assert!(value.get_path(&path(vec![key("me"), PathElement::Index(0)])).is_none());
    assert!(value.get_path(&path(vec![key("me"), key("name"), key("first")])).is_none());
}

#[test]
fn a_later_member_replaces_an_earlier_one_of_the_same_key() {
    let value = object(vec![("a", Value::Number(1)), ("b", Value::Number(2)), ("a", Value::Number(3))]);
    assert_eq!(value.get(&key("a")).map(show), Some(show(&Value::Number(3))));
    match &value {
        Value::Object(members) => {
            assert_eq!(find_member(members, &"a".to_string()), Some(2));
            assert_eq!(find_member(members, &"b".to_string()), Some(1));
            assert_eq!(find_member(members, &"c".to_string()), None);
        }
        _ => unreachable!(),
    }
}

#[test]
fn insert_with_the_empty_path_replaces_the_value() {
    let value = sample().insert(&Path::empty(), Value::Number(1));
    assert_eq!(show(&value), show(&Value::Number(1)));
}

#[test]
fn insert_replaces_an_existing_member_in_place() {
    let value = sample().insert(&path(vec![key("me"), key("id")]), Value::Number(8));
    let expected = object(vec![
        ("me", object(vec![("id", Value::Number(8)), ("name", text("Ada"))])),
        ("list", Value::Array(vec![Value::Bool(true), Value::Null, text("x")])),
    ]);
    assert_eq!(show(&value), show(&expected));
}

#[test]
fn insert_adds_a_missing_member_last() {
    let value = sample().insert(&path(vec![key("me"), key("age")]), Value::Number(36));
    let expected = object(vec![
        (
            "me",
            object(vec![("id", Value::Number(7)), ("name", text("Ada")), ("age", Value::Number(36))]),
        ),
        ("list", Value::Array(vec![Value::Bool(true), Value::Null, text("x")])),
    ]);
    assert_eq!(show(&value), show(&expected));
}

#[test]
fn insert_makes_the_objects_and_arrays_that_the_path_needs() {
    let target = path(vec![key("a"), PathElement::Index(2), key("b")]);
    let value = Value::Null.insert(&target, Value::Bool(false));
    let expected = object(vec![(
        "a",
        Value::Array(vec![Value::Null, Value::Null, object(vec![("b", Value::Bool(false))])]),
    )]);
    assert_eq!(show(&value), show(&expected));
    assert_eq!(value.get_path(&target).map(show), Some(show(&Value::Bool(false))));
}

#[test]
fn insert_updates_an_item_and_extends_an_array() {
    let list = Value::Array(vec![Value::Number(1), Value::Number(2)]);
    let updated = list.insert(&path(vec![PathElement::Index(0)]), Value::Number(9));
    assert_eq!(show(&updated), show(&Value::Array(vec![Value::Number(9), Value::Number(2)])));
    let extended = updated.insert(&path(vec![PathElement::Index(2)]), Value::Number(3));
    assert_eq!(
        show(&extended),
        show(&Value::Array(vec![Value::Number(9), Value::Number(2), Value::Number(3)]))
    );
}

#[test]
fn insert_replaces_a_value_of_another_shape() {
    let value = text("plain").insert(&path(vec![key("a")]), Value::Number(1));
    assert_eq!(show(&value), show(&object(vec![("a", Value::Number(1))])));
    let value = object(vec![("a", Value::Number(1))])
        .insert(&path(vec![PathElement::Index(1)]), Value::Number(2));
    assert_eq!(show(&value), show(&Value::Array(vec![Value::Null, Value::Number(2)])));
}

#[test]
fn clone_keeps_the_whole_value() {
    let value = sample();
    assert_eq!(show(&value.clone()), show(&value));
}

#[test]
fn empty_object_has_no_members_and_null_is_null() {
    assert_eq!(show(&Value::empty_object()), show(&object(vec![])));
    assert!(Value::Null.is_null());
    assert!(!Value::empty_object().is_null());
}

#[test]
fn paths_are_joined_and_cut() {
    let base = path(vec![key("a"), key("b"), key("c")]);
    let tail = path(vec![PathElement::Index(4)]);
    assert_eq!(
        format!("{:?}", base.prefix_then(2, &tail)),
        format!("{:?}", path(vec![key("a"), key("b"), PathElement::Index(4)]))
    );
    assert_eq!(
        format!("{:?}", base.join(key("d"))),
        format!("{:?}", path(vec![key("a"), key("b"), key("c"), key("d")]))
    );
    assert_eq!(format!("{:?}", base.clone()), format!("{:?}", base));
    assert_eq!(base.len(), 3);
    assert!(!base.is_empty());
    assert!(Path::empty().is_empty());
}

#[test]
fn value_setter_replaces_what_its_path_leads_to() {
    let rule = DataRewrite::ValueSetter {
        path: path(vec![key("me"), key("name")]),
        set_value_to: text("Grace"),
    };
    let value = sample().apply_rewrite(&rule);
    assert_eq!(
        value.get_path(&path(vec![key("me"), key("name")])).map(show),
        Some(show(&text("Grace")))
    );
    assert_eq!(
        value.get_path(&path(vec![key("me"), key("id")])).map(show),
        Some(show(&Value::Number(7)))
    );
}

#[test]
fn value_setter_changes_nothing_where_its_path_leads_nowhere() {
    let rule = DataRewrite::ValueSetter {
        path: path(vec![key("me"), key("email")]),
        set_value_to: text("a@b"),
    };
    assert_eq!(show(&sample().apply_rewrite(&rule)), show(&sample()));
}

#[test]
fn key_renamer_gives_the_member_its_new_key() {
    let rule = DataRewrite::KeyRenamer {
        path: path(vec![key("me"), key("name")]),
        rename_key_to: "title".to_string(),
    };
    let expected = object(vec![
        ("me", object(vec![("id", Value::Number(7)), ("title", text("Ada"))])),
        ("list", Value::Array(vec![Value::Bool(true), Value::Null, text("x")])),
    ]);
    assert_eq!(show(&sample().apply_rewrite(&rule)), show(&expected));
}

#[test]
fn key_renamer_changes_nothing_without_the_member() {
    let missing = DataRewrite::KeyRenamer {
        path: path(vec![key("me"), key("email")]),
        rename_key_to: "mail".to_string(),
    };
    assert_eq!(show(&sample().apply_rewrite(&missing)), show(&sample()));
    let index = DataRewrite::KeyRenamer {
        path: path(vec![key("list"), PathElement::Index(0)]),
        rename_key_to: "first".to_string(),
    };
    assert_eq!(show(&sample().apply_rewrite(&index)), show(&sample()));
    let empty = DataRewrite::KeyRenamer { path: Path::empty(), rename_key_to: "x".to_string() };
    assert_eq!(show(&sample().apply_rewrite(&empty)), show(&sample()));
}

#[test]
fn rewrites_apply_in_order() {
    let rules = vec![
        DataRewrite::KeyRenamer {
            path: path(vec![key("me"), key("name")]),
            rename_key_to: "title".to_string(),
        },
        DataRewrite::ValueSetter {
            path: path(vec![key("me"), key("title")]),
            set_value_to: text("Dr"),
        },
    ];
    let value = sample().apply_rewrites(&rules);
    assert_eq!(
        value.get_path(&path(vec![key("me"), key("title")])).map(show),
        Some(show(&text("Dr")))
    );
    assert_eq!(show(&sample().apply_rewrites(&vec![])), show(&sample()));
}

#[test]
fn numbers_are_written_in_decimal() {
    assert_eq!(decimal(0), "0");
    assert_eq!(decimal(7), "7");
    assert_eq!(decimal(10), "10");
    assert_eq!(decimal(4096), "4096");
    assert_eq!(with_index(&"limit".to_string(), 12), "limit_12");
}
