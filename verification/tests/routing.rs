use user_items::handlers::get_users;
use user_items::model::{Content, Method, Response, Route, UserRow, UserSource};
use user_items::router::{handle, match_route, parse_method, Step};

fn chars(s: &str) -> Vec<char> {
    s.chars().collect()
}

fn reply(step: Step) -> Response {
    match step {
        Step::Reply(response) => response,
        Step::QueryUsers => panic!("the request asks for a read of the store"),
    }
}

fn get(path: &str, query: &str) -> Response {
    reply(handle(UserSource::Store, Method::Get, path, query, b""))
}

#[test]
fn root_greets() {
    let r = get("/", "");
    assert_eq!(r.status, 200);
    assert_eq!(r.content, Content::Text);
    assert_eq!(r.body, "Hello, Rust!");
}

#[test]
fn show_item_echoes_id_and_page() {
    let r = get("/item/42", "number=7");
    assert_eq!(r.status, 200);
    assert_eq!(r.content, Content::Text);
    assert_eq!(r.body, "Item 42 on page 7");
}

#[test]
fn show_item_at_the_limits() {
    let r = get("/item/4294967295", "number=0");
    assert_eq!(r.status, 200);
    assert_eq!(r.body, "Item 4294967295 on page 0");
    assert_eq!(get("/item/4294967296", "number=0").status, 400);
    assert_eq!(get("/item/1", "number=4294967296").status, 400);
}

#[test]
fn show_item_for_every_small_pair() {
    for id in 0u32..30 {
        for number in [0u32, 9, 10, 99, 100, 65535] {
            let r = get(&format!("/item/{}", id), &format!("number={}", number));
            assert_eq!(r.status, 200);
            assert_eq!(r.body, format!("Item {} on page {}", id, number));
        }
    }
}

#[test]
fn show_item_rejects_a_bad_id() {
    let r = get("/item/abc", "number=1");
    assert_eq!(r.status, 400);
    assert_eq!(r.body, "Invalid path parameter");
}

#[test]
fn show_item_rejects_a_bad_page() {
    let r = get("/item/1", "number=abc");
    assert_eq!(r.status, 400);
    assert_eq!(r.body, "Invalid query string");
    assert_eq!(get("/item/1", "").status, 400);
    assert_eq!(get("/item/1", "page=3").status, 400);
}

#[test]
fn add_item_confirms_the_title() {
    let r = reply(handle(UserSource::Store, Method::Post, "/add-item", "", b"{\"title\":\"Book\"}"));
    assert_eq!(r.status, 200);
    assert_eq!(r.content, Content::Text);
    assert_eq!(r.body, "Added item: Book");
}

#[test]
fn add_item_rejects_a_body_without_title() {
    let r = reply(handle(UserSource::Store, Method::Post, "/add-item", "", b"{}"));
    assert_eq!(r.status, 400);
    assert_eq!(r.body, "Invalid request body");
}

#[test]
fn add_item_rejects_other_bad_bodies() {
    for body in [&b""[..], b"{\"title\":", b"{\"title\":5}", b"[\"Book\"]", b"\"Book\"", b"title=Book"] {
        let r = reply(handle(UserSource::Store, Method::Post, "/add-item", "", body));
        assert_eq!(r.status, 400);
    }
}

#[test]
fn add_item_decodes_escapes_in_the_title() {
    let body = b"{\"other\":1,\"title\":\"A \\\"B\\\" \\u0043\"}";
    let r = reply(handle(UserSource::Store, Method::Post, "/add-item", "", body));
    assert_eq!(r.status, 200);
    assert_eq!(r.body, "Added item: A \"B\" C");
}

#[test]
fn delete_user_refuses_the_protected_user() {
    let r = reply(handle(UserSource::Store, Method::Delete, "/delete-user/1", "", b""));
    assert_eq!(r.status, 500);
    assert_eq!(r.content, Content::Text);
    assert!(r.body.contains("User cannot be deleted."));
    assert_eq!(r.body, "Failed to delete user: User cannot be deleted.");
}

#[test]
fn delete_user_returns_the_record() {
    let r = reply(handle(UserSource::Store, Method::Delete, "/delete-user/2", "", b""));
    assert_eq!(r.status, 200);
    assert_eq!(r.content, Content::Json);
    assert_eq!(r.body, "{\"id\":2,\"name\":\"Deleted User\",\"email\":\"some email\"}");
    let parsed: serde_json::Value = serde_json::from_str(&r.body).unwrap();
    assert_eq!(parsed["id"].as_u64(), Some(2));
    assert_eq!(parsed["name"].as_str(), Some("Deleted User"));
    assert_eq!(parsed["email"].as_str(), Some("some email"));
}

#[test]
fn delete_user_takes_the_largest_id() {
    let r = reply(handle(UserSource::Store, Method::Delete, "/delete-user/18446744073709551615", "", b""));
    assert_eq!(r.status, 200);
    assert_eq!(
        r.body,
        "{\"id\":18446744073709551615,\"name\":\"Deleted User\",\"email\":\"some email\"}"
    );
    let over = reply(handle(UserSource::Store, Method::Delete, "/delete-user/18446744073709551616", "", b""));
    assert_eq!(over.status, 400);
    let bad = reply(handle(UserSource::Store, Method::Delete, "/delete-user/x", "", b""));
    assert_eq!(bad.status, 400);
    assert_eq!(bad.body, "Invalid path parameter");
}

#[test]
fn fixed_users_are_listed_in_order() {
    let r = reply(handle(UserSource::Fixed, Method::Get, "/users", "", b""));
    assert_eq!(r.status, 200);
    assert_eq!(r.content, Content::Json);
    assert_eq!(
        r.body,
        "[{\"id\":1,\"name\":\"Alice\",\"email\":\"alice@example.com\"},{\"id\":2,\"name\":\"Bob\",\"email\":\"bob@example.com\"}]"
    );
    let parsed: serde_json::Value = serde_json::from_str(&r.body).unwrap();
    let list = parsed.as_array().unwrap();
    assert_eq!(list.len(), 2);
    assert_eq!(list[0]["id"].as_u64(), Some(1));
    assert_eq!(list[1]["id"].as_u64(), Some(2));
}

#[test]
fn store_users_ask_for_a_read() {
    let step = handle(UserSource::Store, Method::Get, "/users", "", b"");
    assert!(matches!(step, Step::QueryUsers));
}

#[test]
fn failed_read_gives_a_generic_error() {
    let r = get_users(None);
    assert_eq!(r.status, 500);
    assert_eq!(r.content, Content::Text);
    assert_eq!(r.body, "Internal server error");
}

#[test]
fn rows_are_listed_with_defaults() {
    let rows = vec![
        UserRow { id: Some(7), name: Some("Ann \"A\"".to_string()), email: None },
        UserRow { id: None, name: None, email: Some("x@y.z".to_string()) },
    ];
    let r = get_users(Some(rows));
    assert_eq!(r.status, 200);
    assert_eq!(r.content, Content::Json);
    assert_eq!(
        r.body,
        "[{\"id\":7,\"name\":\"Ann \\\"A\\\"\",\"email\":\"\"},{\"id\":0,\"name\":\"\",\"email\":\"x@y.z\"}]"
    );
}

#[test]
fn no_rows_give_an_empty_array() {
    let r = get_users(Some(Vec::new()));
    assert_eq!(r.status, 200);
    assert_eq!(r.body, "[]");
}

#[test]
fn create_user_ignores_the_body() {
    for body in [&b""[..], b"{\"name\":\"x\"}", b"not json", b"\xff\xfe"] {
        let r = reply(handle(UserSource::Store, Method::Post, "/create-user", "a=b", body));
        assert_eq!(r.status, 201);
        assert_eq!(r.content, Content::Text);
        assert_eq!(r.body, "User created successfully");
    }
}

#[test]
fn undefined_paths_are_not_found() {
    for path in ["/nope", "", "/item", "/item/", "/item/1/2", "/users/", "/delete-user/", "/create-user/x"] {
        for method in [Method::Get, Method::Post, Method::Delete, Method::Other] {
            let r = reply(handle(UserSource::Store, method, path, "", b""));
            assert_eq!(r.status, 404);
            assert_eq!(r.content, Content::Empty);
            assert_eq!(r.body, "");
        }
    }
}

#[test]
fn a_route_under_another_method_is_not_found() {
    assert_eq!(reply(handle(UserSource::Store, Method::Post, "/item/1", "number=1", b"")).status, 404);
    assert_eq!(reply(handle(UserSource::Store, Method::Get, "/create-user", "", b"")).status, 404);
    assert_eq!(reply(handle(UserSource::Store, Method::Get, "/delete-user/2", "", b"")).status, 404);
    assert_eq!(reply(handle(UserSource::Store, Method::Other, "/", "", b"")).status, 404);
}

#[test]
fn match_route_hands_out_the_segment_unread() {
    let path = chars("/item/abc");
    let (route, segment) = match_route(Method::Get, &path).unwrap();
    assert_eq!(route, Route::ShowItem);
    assert_eq!(segment, &chars("abc")[..]);
    let path = chars("/delete-user/9");
    let (route, segment) = match_route(Method::Delete, &path).unwrap();
    assert_eq!(route, Route::DeleteUser);
    assert_eq!(segment, &chars("9")[..]);
    let path = chars("/users");
    let (route, segment) = match_route(Method::Get, &path).unwrap();
    assert_eq!(route, Route::ListUsers);
    assert!(segment.is_empty());
    assert!(match_route(Method::Other, &path).is_none());
}

#[test]
fn methods_are_read_by_name() {
    assert_eq!(parse_method("GET"), Method::Get);
    assert_eq!(parse_method("POST"), Method::Post);
    assert_eq!(parse_method("DELETE"), Method::Delete);
    for name in ["", "get", "Get", "PUT", "HEAD", "GETS", "DELETE "] {
        assert_eq!(parse_method(name), Method::Other);
    }
}

#[test]
fn statuses_stay_in_the_table() {
    let paths = ["/", "/users", "/item/1", "/item/x", "/add-item", "/create-user", "/delete-user/1", "/delete-user/2", "/x"];
    for path in paths {
        for method in [Method::Get, Method::Post, Method::Delete, Method::Other] {
            for query in ["", "number=1", "number=x"] {
                for body in [&b"{}"[..], b"{\"title\":\"t\"}"] {
                    match handle(UserSource::Fixed, method, path, query, body) {
                        Step::Reply(r) => assert!([200, 201, 400, 404, 500].contains(&r.status)),
                        Step::QueryUsers => panic!("the fixed list needs no read"),
                    }
                }
            }
        }
    }
}

#[test]
fn a_segment_matches_whatever_it_holds() {
    for segment in ["abc", "1", "-1", "1.5", " ", "é", "+", "a=b&c"] {
        let path = chars(&format!("/item/{}", segment));
        let (route, found) = match_route(Method::Get, &path).unwrap();
        assert_eq!(route, Route::ShowItem);
        assert_eq!(found, &chars(segment)[..]);
        let path = chars(&format!("/delete-user/{}", segment));
        let (route, found) = match_route(Method::Delete, &path).unwrap();
        assert_eq!(route, Route::DeleteUser);
        assert_eq!(found, &chars(segment)[..]);
    }
    assert_eq!(get("/item/1.5", "number=1").status, 400);
    assert_eq!(get("/item/+7", "number=+8").body, "Item 7 on page 8");
}
