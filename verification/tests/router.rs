use counter_service::counter::Counter;
use counter_service::router::ContentType;
use counter_service::router::HttpMethod;
use counter_service::router::HttpResponse;
use counter_service::router::RouteReply;
use counter_service::router::route;
use counter_service::router::str_eq;

fn payload(reply: RouteReply) -> HttpResponse {
    match reply {
        RouteReply::Payload(resp) => resp,
        RouteReply::StaticPage => panic!("expected a payload reply"),
    }
}

#[test]
fn scenario_add_add_reset_get_unknown() {
    let mut c = Counter::new();

    let r = payload(route(HttpMethod::Post, "/addcount", b"{\"value\": 3}", &mut c));
    assert_eq!(r.status, 200);
    assert_eq!(r.content_type, ContentType::Json);
    assert_eq!(r.body, "{\"value\":3}");

    let r = payload(route(HttpMethod::Post, "/addcount", b"{\"value\": 4}", &mut c));
    assert_eq!(r.status, 200);
    assert_eq!(r.body, "{\"value\":7}");

    let r = payload(route(HttpMethod::Post, "/resetcount", b"", &mut c));
    assert_eq!(r.status, 200);
    assert_eq!(r.body, "{\"value\":0}");

    let r = payload(route(HttpMethod::Get, "/getcount", b"", &mut c));
    assert_eq!(r.status, 200);
    assert_eq!(r.body, "{\"value\":0}");

    let r = payload(route(HttpMethod::Get, "/unknown", b"", &mut c));
    assert_eq!(r.status, 404);
    assert_eq!(r.content_type, ContentType::PlainText);
    assert_eq!(r.body, "Not Found");
}

#[test]
fn add_then_read_round_trip() {
    let mut c = Counter::new();
    let add_body = payload(route(HttpMethod::Post, "/addcount", b"{\"value\": 5}", &mut c)).body;
    assert_eq!(c.read(), 5);
    let read_body = payload(route(HttpMethod::Get, "/getcount", b"", &mut c)).body;
    assert_eq!(add_body, read_body);
    assert_eq!(add_body, "{\"value\":5}");
}

#[test]
fn invalid_body_rejected_counter_unchanged() {
    let mut c = Counter::new();
    c.add(5);
    let r = payload(route(HttpMethod::Post, "/addcount", b"this is not json", &mut c));
    assert_eq!(r.status, 400);
    assert_eq!(r.content_type, ContentType::PlainText);
    assert_eq!(r.body, "Bad Request (Invalid JSON)");
    assert_eq!(c.read(), 5);
    let r = payload(route(HttpMethod::Get, "/getcount", b"", &mut c));
    assert_eq!(r.body, "{\"value\":5}");
}

#[test]
fn empty_body_rejected() {
    let mut c = Counter::new();
    let r = payload(route(HttpMethod::Post, "/addcount", b"", &mut c));
    assert_eq!(r.status, 400);
    assert_eq!(c.read(), 0);
}

#[test]
fn object_without_value_member_rejected() {
    let mut c = Counter::new();
    let r = payload(route(HttpMethod::Post, "/addcount", b"{}", &mut c));
    assert_eq!(r.status, 400);
    assert_eq!(r.body, "Bad Request (Invalid JSON)");
    assert_eq!(c.read(), 0);
}

#[test]
fn non_integer_value_rejected() {
    let mut c = Counter::new();
    let r = payload(route(HttpMethod::Post, "/addcount", b"{\"value\": 3.5}", &mut c));
    assert_eq!(r.status, 400);
    assert_eq!(c.read(), 0);
}

#[test]
fn value_beyond_i32_rejected() {
    let mut c = Counter::new();
    let r = payload(route(HttpMethod::Post, "/addcount", b"{\"value\": 5000000000}", &mut c));
    assert_eq!(r.status, 400);
    assert_eq!(r.body, "Bad Request (Invalid JSON)");
    assert_eq!(c.read(), 0);
}

#[test]
fn value_beyond_i64_rejected() {
    let mut c = Counter::new();
    let r = payload(route(
        HttpMethod::Post,
        "/addcount",
        b"{\"value\": 99999999999999999999999}",
        &mut c,
    ));
    assert_eq!(r.status, 400);
    assert_eq!(c.read(), 0);
}

#[test]
fn overflowing_add_rejected_counter_unchanged() {
    let mut c = Counter::new();
    let r = payload(route(HttpMethod::Post, "/addcount", b"{\"value\": 2147483647}", &mut c));
    assert_eq!(r.status, 200);
    assert_eq!(r.body, "{\"value\":2147483647}");
    let r = payload(route(HttpMethod::Post, "/addcount", b"{\"value\": 1}", &mut c));
    assert_eq!(r.status, 400);
    assert_eq!(r.body, "Bad Request (value out of range)");
    assert_eq!(c.read(), i32::MAX);
}

#[test]
fn negative_values_encode_with_sign() {
    let mut c = Counter::new();
    let r = payload(route(HttpMethod::Post, "/addcount", b"{\"value\": -7}", &mut c));
    assert_eq!(r.status, 200);
    assert_eq!(r.body, "{\"value\":-7}");
    let r = payload(route(HttpMethod::Post, "/addcount", b"{\"value\": -2147483641}", &mut c));
    assert_eq!(r.status, 200);
    assert_eq!(r.body, "{\"value\":-2147483648}");
}

#[test]
fn whitespace_in_body_accepted() {
    let mut c = Counter::new();
    let r = payload(route(HttpMethod::Post, "/addcount", b" { \"value\" : 6 } ", &mut c));
    assert_eq!(r.status, 200);
    assert_eq!(r.body, "{\"value\":6}");
}

#[test]
fn root_path_delegated_to_static_page() {
    let mut c = Counter::new();
    c.add(9);
    let reply = route(HttpMethod::Get, "/", b"", &mut c);
    assert!(matches!(reply, RouteReply::StaticPage));
    assert_eq!(c.read(), 9);
}

#[test]
fn mismatched_method_is_not_found() {
    let mut c = Counter::new();
    c.add(2);
    let r = payload(route(HttpMethod::Get, "/addcount", b"{\"value\": 3}", &mut c));
    assert_eq!(r.status, 404);
    let r = payload(route(HttpMethod::Post, "/getcount", b"", &mut c));
    assert_eq!(r.status, 404);
    let r = payload(route(HttpMethod::Other, "/getcount", b"", &mut c));
    assert_eq!(r.status, 404);
    assert_eq!(c.read(), 2);
}

#[test]
fn get_and_unmatched_routes_do_not_mutate() {
    let mut c = Counter::new();
    c.add(11);
    route(HttpMethod::Get, "/getcount", b"", &mut c);
    route(HttpMethod::Get, "/nowhere", b"", &mut c);
    route(HttpMethod::Get, "/", b"", &mut c);
    assert_eq!(c.read(), 11);
}

#[test]
fn str_eq_compares_contents() {
    assert!(str_eq("/getcount", "/getcount"));
    assert!(!str_eq("/getcount", "/addcount"));
    assert!(!str_eq("/", "/getcount"));
    assert!(str_eq("", ""));
}
