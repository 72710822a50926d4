use user_service::store::{AttrValue, Item};
use user_service::users::{
    create, create_call, delete, delete_call, get, get_call, list, list_call, public_user,
    render_user, PublicUser, StoreCall, User, UserResponse, LIST_LIMIT,
};

fn user(id: &str, username: &str, password: &str, usertype: &str) -> User {
    User {
        id: id.to_string(),
        username: username.to_string(),
        password: password.to_string(),
        usertype: usertype.to_string(),
    }
}

fn stored(u: User) -> Item {
    match create_call(u) {
        StoreCall::Put { table, item } => {
            assert_eq!(table, "users");
            item
        }
        _ => panic!("a create request writes an item"),
    }
}

fn record(id: &str, username: &str, usertype: &str) -> Item {
    Item {
        attrs: vec![
            ("id".to_string(), AttrValue::Num(id.to_string())),
            ("username".to_string(), AttrValue::Str(username.to_string())),
            ("usertype".to_string(), AttrValue::Num(usertype.to_string())),
        ],
    }
}

#[test]
fn create_get_delete_scenario() {
    let item = stored(user("1", "alice", "x", "2"));
    let created = create(Ok("None".to_string()));
    assert_eq!(created.status, 200);

    match get_call("1".to_string()) {
        StoreCall::GetByKey { table, key_name, key } => {
            assert_eq!(table, "users");
            assert_eq!(key_name, "id");
            assert!(matches!(key, AttrValue::Num(ref k) if k == "1"));
        }
        _ => panic!("a lookup reads by key"),
    }
    let found = get(Ok(Some(item)));
    assert_eq!(found.status, 200);
    assert_eq!(found.body, r#"{"id":"1","username":"alice","usertype":"2"}"#);

    match delete_call("1".to_string()) {
        StoreCall::DeleteByKey { table, key_name, key } => {
            assert_eq!(table, "users");
            assert_eq!(key_name, "id");
            assert!(matches!(key, AttrValue::Num(ref k) if k == "1"));
        }
        _ => panic!("a removal deletes by key"),
    }
    let removed = delete(Ok("None".to_string()));
    assert_eq!(removed.status, 200);
}

#[test]
fn create_stores_typed_attributes_and_password() {
    let item = stored(user("7", "bob", "secret", "3"));
    let names: Vec<&str> = item.attrs.iter().map(|(n, _)| n.as_str()).collect();
    assert_eq!(names, vec!["id", "username", "usertype", "password"]);
    assert!(matches!(&item.attrs[0].1, AttrValue::Num(s) if s == "7"));
    assert!(matches!(&item.attrs[1].1, AttrValue::Str(s) if s == "bob"));
    assert!(matches!(&item.attrs[2].1, AttrValue::Num(s) if s == "3"));
    assert!(matches!(&item.attrs[3].1, AttrValue::Str(s) if s == "secret"));
}

#[test]
fn get_after_create_hides_password() {
    let item = stored(user("42", "carol", "hunter2", "1"));
    let reply = get(Ok(Some(item)));
    assert_eq!(reply.status, 200);
    assert_eq!(reply.body, r#"{"id":"42","username":"carol","usertype":"1"}"#);
    assert!(!reply.body.contains("hunter2"));
}

#[test]
fn record_from_user_types_fields() {
    let r = UserResponse::from_user(user("5", "dan", "pw", "9"));
    assert!(matches!(r.id, AttrValue::Num(ref s) if s == "5"));
    assert!(matches!(r.username, AttrValue::Str(ref s) if s == "dan"));
    assert!(matches!(r.usertype, AttrValue::Num(ref s) if s == "9"));
    assert!(matches!(r.password, AttrValue::Str(ref s) if s == "pw"));
}

#[test]
fn delete_twice_succeeds_both_times() {
    let first = delete(Ok("Some({})".to_string()));
    let second = delete(Ok("None".to_string()));
    assert_eq!(first.status, 200);
    assert_eq!(second.status, 200);
    assert_eq!(second.body, "None");
}

#[test]
fn list_call_scans_users_up_to_limit() {
    match list_call() {
        StoreCall::Scan { table, limit } => {
            assert_eq!(table, "users");
            assert_eq!(limit, 20);
        }
        _ => panic!("a listing scans"),
    }
    assert_eq!(LIST_LIMIT, 20);
}

#[test]
fn list_caps_at_twenty() {
    let items: Vec<Item> = (0..25).map(|i| record(&i.to_string(), "u", "1")).collect();
    let reply = list(Ok(items));
    assert_eq!(reply.status, 200);
    assert_eq!(reply.body.matches("\"username\"").count(), 20);
    assert!(reply.body.contains(r#"{"id":"19","username":"u","usertype":"1"}"#));
    assert!(!reply.body.contains(r#""id":"20""#));
}

#[test]
fn list_empty_is_empty_array() {
    let reply = list(Ok(Vec::new()));
    assert_eq!(reply.status, 200);
    assert_eq!(reply.body, "[]");
}

#[test]
fn list_keeps_order_and_omits_password() {
    let a = stored(user("1", "alice", "x", "2"));
    let b = stored(user("2", "bob", "y", "3"));
    let reply = list(Ok(vec![a, b]));
    assert_eq!(reply.status, 200);
    assert_eq!(
        reply.body,
        r#"[{"id":"1","username":"alice","usertype":"2"},{"id":"2","username":"bob","usertype":"3"}]"#
    );
}

#[test]
fn store_failure_gives_server_error_everywhere() {
    let e = "service unavailable";
    for reply in [
        list(Err(e.to_string())),
        get(Err(e.to_string())),
        create(Err(e.to_string())),
        delete(Err(e.to_string())),
    ] {
        assert_eq!(reply.status, 500);
        assert_eq!(reply.body, e);
    }
}

#[test]
fn public_user_rejects_missing_or_mistyped() {
    let missing = Item { attrs: vec![("id".to_string(), AttrValue::Num("1".to_string()))] };
    assert!(public_user(&missing).is_none());
    let mistyped = Item {
        attrs: vec![
            ("id".to_string(), AttrValue::Str("1".to_string())),
            ("username".to_string(), AttrValue::Str("a".to_string())),
            ("usertype".to_string(), AttrValue::Num("2".to_string())),
        ],
    };
    assert!(public_user(&mistyped).is_none());
    let other = Item {
        attrs: vec![
            ("id".to_string(), AttrValue::Num("1".to_string())),
            ("username".to_string(), AttrValue::Other),
            ("usertype".to_string(), AttrValue::Num("2".to_string())),
        ],
    };
    assert!(public_user(&other).is_none());
}

#[test]
fn public_user_takes_first_of_repeated_names() {
    let item = Item {
        attrs: vec![
            ("usertype".to_string(), AttrValue::Num("4".to_string())),
            ("id".to_string(), AttrValue::Num("1".to_string())),
            ("username".to_string(), AttrValue::Str("a".to_string())),
            ("usertype".to_string(), AttrValue::Num("5".to_string())),
        ],
    };
    let u = public_user(&item).unwrap();
    assert_eq!(u.id, "1");
    assert_eq!(u.username, "a");
    assert_eq!(u.usertype, "4");
}

#[test]
fn render_escapes_quotes_and_control_characters() {
    let u = PublicUser {
        id: "1".to_string(),
        username: "a\"b\\c\nd".to_string(),
        usertype: "2".to_string(),
    };
    let body = render_user(&u).unwrap();
    assert_eq!(body, r#"{"id":"1","username":"a\"b\\c\nd","usertype":"2"}"#);
}
